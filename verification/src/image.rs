//! Card images of the first image folder: their names, types and checksums.
use vstd::prelude::*;

use crate::file_watcher::{filename_from_capture, FilenameError};
use crate::pattern::{regex_capture, regex_captured};
use crate::text::ascii_lower;

verus! {

/// The pattern of a card image file name; group 1 is the name without the
/// `card_` prefixes and the extension.
pub open spec fn card_filename_pattern() -> Seq<char> {
    "^(?:card_)*([a-zA-Z0-9-ß]+)\\.(?:jpg|jpeg|png|svg|gif)$"@
}

/// The name that a card image file called `name` stands for.
pub open spec fn card_name(name: Seq<char>) -> Option<Seq<char>> {
    match regex_captured(card_filename_pattern(), name, 1) {
        Some(Some(s)) => Some(s),
        _ => None,
    }
}

/// The name that the card image file called `name` stands for: `name`
/// without its `card_` prefixes and its image extension.
pub fn parse_filename(name: &str) -> (r: Result<String, FilenameError>)
    ensures
        match card_name(name@) {
            Some(n) => r matches Ok(s) && s@ == n,
            None => r matches Err(FilenameError::WrongFormat(m)) && m@ == name@,
        },
{
    let captured = regex_capture("^(?:card_)*([a-zA-Z0-9-ß]+)\\.(?:jpg|jpeg|png|svg|gif)$", name, 1);
    filename_from_capture(name, captured)
}

/// The image types that are accepted.
#[derive(Debug, Clone, Copy, PartialEq, Eq, Structural)]
pub enum ImageMime {
    Jpeg,
    Png,
    Svg,
    Gif,
}

/// The media type of an accepted image type, as the `mime` crate writes it.
pub open spec fn mime_text(kind: ImageMime) -> Seq<char> {
    match kind {
        ImageMime::Jpeg => "image/jpeg"@,
        ImageMime::Png => "image/png"@,
        ImageMime::Svg => "image/svg+xml"@,
        ImageMime::Gif => "image/gif"@,
    }
}

/// Whether two texts are equal up to the case of ASCII letters.
pub open spec fn same_ignoring_ascii_case(a: Seq<char>, b: Seq<char>) -> bool {
    a.len() == b.len() && forall|i: int| 0 <= i < a.len() ==> ascii_lower(#[trigger] a[i]) == ascii_lower(b[i])
}

/// Compares a guessed media type with one of the `mime` constants
/// (`PartialEq<Mime> for &str`). For these constants, which carry no
/// parameters, the crate compares with `eq_ignore_ascii_case`, which the
/// contract states.
#[verifier::external_body]
fn guess_is(guess: &str, kind: ImageMime) -> (r: bool)
    ensures
        r == same_ignoring_ascii_case(guess@, mime_text(kind)),
{
    let expected = match kind {
        ImageMime::Jpeg => mime::IMAGE_JPEG,
        ImageMime::Png => mime::IMAGE_PNG,
        ImageMime::Svg => mime::IMAGE_SVG,
        ImageMime::Gif => mime::IMAGE_GIF,
    };
    guess == expected
}

/// Whether a guessed media type is one of the accepted image types.
pub open spec fn supported_image_mime(guess: Option<Seq<char>>) -> bool {
    match guess {
        Some(g) => exists|k: ImageMime| same_ignoring_ascii_case(g, #[trigger] mime_text(k)),
        None => false,
    }
}

/// Whether the media type guessed for a file, if one was guessed, is JPEG,
/// PNG, SVG or GIF.
pub fn is_supported_image_mime(guess: Option<&str>) -> (r: bool)
    ensures
        r == supported_image_mime(
            match guess {
                Some(g) => Some(g@),
                None => None,
            },
        ),
{
    match guess {
        None => false,
        Some(g) => {
            let kinds = [ImageMime::Jpeg, ImageMime::Png, ImageMime::Svg, ImageMime::Gif];
            let mut i: usize = 0;
            while i < 4
                invariant
                    i <= 4,
                    guess == Some(g),
                    kinds@ == seq![ImageMime::Jpeg, ImageMime::Png, ImageMime::Svg, ImageMime::Gif],
                    forall|j: int| 0 <= j < i ==> !same_ignoring_ascii_case(g@, mime_text(#[trigger] kinds@[j])),
                decreases 4 - i,
            {
                let kind = kinds[i];
                if guess_is(g, kind) {
                    assert(same_ignoring_ascii_case(g@, mime_text(kind)));
                    return true;
                }
                i += 1;
            }
            assert forall|k: ImageMime| !same_ignoring_ascii_case(g@, #[trigger] mime_text(k)) by {
                match k {
                    ImageMime::Jpeg => assert(kinds@[0] == k),
                    ImageMime::Png => assert(kinds@[1] == k),
                    ImageMime::Svg => assert(kinds@[2] == k),
                    ImageMime::Gif => assert(kinds@[3] == k),
                }
            }
            false
        },
    }
}

/// Why an image file was refused.
#[derive(Debug, Clone, PartialEq, Eq)]
pub enum ImageFileError {
    /// The file's name is refused.
    Name(FilenameError),
    /// The file is not an accepted image type.
    UnsupportedType,
}

/// The checks an image file passes before it is stored, in their order: it
/// has a file name (`file_name`, what the path's last component is), its
/// guessed media type is accepted, and the name has the form of a card image
/// name. The result is the card name.
pub fn checked_card_name(file_name: Option<&str>, guess: Option<&str>) -> (r: Result<
    String,
    ImageFileError,
>)
    ensures
        file_name is None ==> r == Err::<String, ImageFileError>(
            ImageFileError::Name(FilenameError::Unsupported),
        ),
        file_name is Some && !supported_image_mime(
            match guess {
                Some(g) => Some(g@),
                None => None,
            },
        ) ==> r == Err::<String, ImageFileError>(ImageFileError::UnsupportedType),
        file_name matches Some(n) ==> (supported_image_mime(
            match guess {
                Some(g) => Some(g@),
                None => None,
            },
        ) ==> match card_name(n@) {
            Some(c) => r matches Ok(s) && s@ == c,
            None => r matches Err(ImageFileError::Name(FilenameError::WrongFormat(m))) && m@ == n@,
        }),
{
    let name = match file_name {
        None => return Err(ImageFileError::Name(FilenameError::Unsupported)),
        Some(n) => n,
    };
    if !is_supported_image_mime(guess) {
        return Err(ImageFileError::UnsupportedType);
    }
    match parse_filename(name) {
        Ok(s) => Ok(s),
        Err(e) => Err(ImageFileError::Name(e)),
    }
}

/// One byte in lower-case hexadecimal, as `blake3::Hash::to_hex` writes it.
pub open spec fn hex_lower_byte(b: u8) -> Seq<char> {
    seq![hex_lower(b / 16), hex_lower(b % 16)]
}

/// A lower-case hexadecimal digit.
pub open spec fn hex_lower(d: u8) -> char {
    if d < 10 {
        (48 + d) as char
    } else {
        (87 + d) as char
    }
}

/// Bytes in lower-case hexadecimal, two digits each.
pub open spec fn hex_lower_text(bytes: Seq<u8>) -> Seq<char>
    decreases bytes.len(),
{
    if bytes.len() == 0 {
        Seq::empty()
    } else {
        hex_lower_text(bytes.drop_last()) + hex_lower_byte(bytes.last())
    }
}

/// The BLAKE3 digest of `bytes` (`blake3::hash`).
pub uninterp spec fn blake3_digest(bytes: Seq<u8>) -> Seq<u8>;

/// The checksum of a file's contents: the BLAKE3 digest (`blake3::hash`) in
/// lower-case hexadecimal (`Hash::to_hex`), which for the 32-byte digest is 64
/// characters. The digest itself is named, not described.
#[verifier::external_body]
pub(crate) fn blake3_hex(bytes: &[u8]) -> (r: String)
    ensures
        r@ == hex_lower_text(blake3_digest(bytes@)),
        r@.len() == 64,
{
    blake3::hash(bytes).to_hex().to_string()
}

/// The checksum of a file whose contents are `bytes`: their BLAKE3 digest in
/// lower-case hexadecimal, 64 characters.
pub fn checksum_of(bytes: &[u8]) -> (r: String)
    ensures
        r@ == hex_lower_text(blake3_digest(bytes@)),
        r@.len() == 64,
{
    blake3_hex(bytes)
}

} // verus!
