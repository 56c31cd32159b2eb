//! Paths and file names of the watched image folders.
use vstd::prelude::*;

use crate::pattern::{regex_capture, regex_captured, regex_finds, regex_is_match};
use crate::text::{has_prefix, has_suffix, owned, texts};
use vstd::string::*;

verus! {

/// The pattern that cuts the part from `images/<folder>/` on out of a path.
pub open spec fn relative_image_path_pattern() -> Seq<char> {
    "(images/(?:cards|banners|cpos))/.*$"@
}

/// The pattern of a well-formed image file name; group 1 is the name without
/// prefix and extension.
pub open spec fn image_filename_pattern() -> Seq<char> {
    "^(?:card_|cpo_|banner_){0,1}([a-zA-Z0-9-._ß+]+)\\.(?:jpg|jpeg|png|svg|gif)$"@
}

/// The path of `path` relative to the images root: the whole match of
/// `relative_image_path_pattern`, when there is one.
pub open spec fn relative_image_path(path: Seq<char>) -> Option<Seq<char>> {
    match regex_captured(relative_image_path_pattern(), path, 0) {
        Some(Some(s)) => Some(s),
        _ => None,
    }
}

/// The path of `path` relative to the images root, from `images/cards`,
/// `images/banners` or `images/cpos` on; `None` where the path lies in none
/// of them.
pub fn to_relative_image_path(path: &str) -> (r: Option<String>)
    ensures
        match r {
            Some(s) => relative_image_path(path@) == Some(s@),
            None => relative_image_path(path@) is None,
        },
{
    match regex_capture("(images/(?:cards|banners|cpos))/.*$", path, 0) {
        Some(Some(s)) => Some(s),
        _ => None,
    }
}

/// Why an image file name was refused.
#[derive(Debug, Clone, PartialEq, Eq)]
pub enum FilenameError {
    /// The path has no file name.
    Unsupported,
    /// The file name does not have the form of an image name; it is carried.
    WrongFormat(String),
}

impl FilenameError {
    /// The text of the error.
    pub open spec fn text(&self) -> Seq<char> {
        match self {
            FilenameError::Unsupported => "Unsupported filename"@,
            FilenameError::WrongFormat(name) => "Wrong formatted filename: "@ + name@,
        }
    }

    /// The text of the error.
    pub fn message(&self) -> (r: String)
        ensures
            r@ == self.text(),
    {
        match self {
            FilenameError::Unsupported => String::from_str("Unsupported filename"),
            FilenameError::WrongFormat(name) => {
                let mut r = String::from_str("Wrong formatted filename: ");
                r.append(name.as_str());
                r
            },
        }
    }
}

/// The name that an image file called `raw` stands for, given `captured`,
/// what group 1 of `image_filename_pattern` gave for it: that group, or the
/// error that carries `raw`.
pub fn filename_from_capture(raw: &str, captured: Option<Option<String>>) -> (r: Result<
    String,
    FilenameError,
>)
    ensures
        match captured {
            Some(Some(s)) => r matches Ok(n) && n@ == s@,
            _ => r matches Err(FilenameError::WrongFormat(m)) && m@ == raw@,
        },
{
    match captured {
        Some(Some(s)) => Ok(s),
        _ => Err(FilenameError::WrongFormat(owned(raw))),
    }
}

/// Whether `name` has the form of an image file name; a folder import skips
/// the files whose names do not.
pub fn is_image_filename(name: &str) -> (r: bool)
    ensures
        r == (regex_finds(image_filename_pattern(), name@) == Some(true)),
{
    let found = regex_is_match(
        "^(?:card_|cpo_|banner_){0,1}([a-zA-Z0-9-._ß+]+)\\.(?:jpg|jpeg|png|svg|gif)$",
        name,
    );
    found == Some(true)
}

/// The name that an image file called `raw` stands for.
pub open spec fn image_name(raw: Seq<char>) -> Option<Seq<char>> {
    match regex_captured(image_filename_pattern(), raw, 1) {
        Some(Some(s)) => Some(s),
        _ => None,
    }
}

/// The name that the image file called `raw` stands for: `raw` without its
/// `card_`, `cpo_` or `banner_` prefix and its image extension.
pub fn parse_image_filename(raw: &str) -> (r: Result<String, FilenameError>)
    ensures
        match image_name(raw@) {
            Some(n) => r matches Ok(s) && s@ == n,
            None => r matches Err(FilenameError::WrongFormat(m)) && m@ == raw@,
        },
{
    let captured = regex_capture(
        "^(?:card_|cpo_|banner_){0,1}([a-zA-Z0-9-._ß+]+)\\.(?:jpg|jpeg|png|svg|gif)$",
        raw,
        1,
    );
    filename_from_capture(raw, captured)
}

/// The part of `p` after its last `/` (all of `p` when it has none).
pub open spec fn after_last_slash(p: Seq<char>) -> Seq<char>
    decreases p.len(),
{
    if p.len() == 0 {
        p
    } else if p.last() == '/' {
        Seq::empty()
    } else {
        after_last_slash(p.drop_last()).push(p.last())
    }
}

/// The file name of a path whose file name is the same on every platform:
/// a path without `\\` and `:`, not starting with `//`, whose part after the
/// last `/` is neither empty nor `.` nor `..`. That part is its file name.
/// Of other paths nothing is said here.
pub open spec fn plain_file_name(p: Seq<char>) -> Option<Seq<char>> {
    let t = after_last_slash(p);
    if !p.contains('\\') && !p.contains(':') && !has_prefix(p, "//"@) && t.len() > 0 && t != "."@
        && t != ".."@ {
        Some(t)
    } else {
        None
    }
}

/// Whether the last component of a path is `..`, so that it has no file name.
pub open spec fn ends_in_parent(p: Seq<char>) -> bool {
    p == ".."@ || has_suffix(p, "/.."@)
}

/// The last component of `path` (`Path::file_name`), lossily as text. Where
/// it lies depends on the separators of the platform (`\\` and prefixes such
/// as `C:` are separators on some platforms only). The contract claims what
/// holds on every platform: a path whose last component is `..` has no file
/// name, and a path without `\\`, `:` and a leading `//` has as file name its
/// part after the last `/`, unless that part is empty, `.` or `..`.
#[verifier::external_body]
pub(crate) fn file_name_of(path: &str) -> (r: Option<String>)
    ensures
        ends_in_parent(path@) ==> r is None,
        match plain_file_name(path@) {
            Some(t) => r matches Some(f) && f@ == t,
            None => true,
        },
{
    std::path::Path::new(path).file_name().map(|n| n.to_string_lossy().into_owned())
}

/// The name that the image file at `path` stands for: its file name without
/// the `card_`, `cpo_` or `banner_` prefix and the image extension.
pub fn parse_filename(path: &str) -> (r: Result<String, FilenameError>)
    ensures
        ends_in_parent(path@) ==> r == Err::<String, FilenameError>(FilenameError::Unsupported),
        plain_file_name(path@) matches Some(t) ==> match image_name(t) {
            Some(n) => r matches Ok(s) && s@ == n,
            None => r matches Err(FilenameError::WrongFormat(m)) && m@ == t,
        },
        r matches Err(FilenameError::WrongFormat(m)) ==> image_name(m@) is None,
        r matches Ok(n) ==> exists|raw: Seq<char>| image_name(raw) == Some(n@),
{
    match file_name_of(path) {
        None => Err(FilenameError::Unsupported),
        Some(raw) => parse_image_filename(raw.as_str()),
    }
}

/// The kinds of file-system events of a watched folder.
#[derive(Debug, Clone, Copy, PartialEq, Eq, Structural)]
pub enum FsEventKind {
    /// A file was created.
    CreateFile,
    /// A file's contents changed.
    ModifyData,
    /// A file was renamed; the event carries the old and the new path.
    RenameBoth,
    /// A file was removed.
    RemoveFile,
    /// Anything else.
    Other,
}

/// What a file-system event asks of the image store, with paths relative to
/// the images root.
#[derive(Debug, Clone, PartialEq, Eq)]
pub enum FsAction {
    /// Nothing.
    Ignore,
    /// Store the image at the path, or follow its rename if its contents are
    /// already known.
    Store(String),
    /// Move the image from the first path to the second.
    Rename(String, String),
    /// Mark the image at the path as deleted.
    Remove(String),
}

/// The paths of `paths` that lie in an image folder, relative to the images
/// root, in their order.
pub open spec fn relative_paths(paths: Seq<Seq<char>>) -> Seq<Seq<char>>
    decreases paths.len(),
{
    if paths.len() == 0 {
        Seq::empty()
    } else {
        relative_paths(paths.drop_last()) + match relative_image_path(paths.last()) {
            Some(p) => seq![p],
            None => Seq::empty(),
        }
    }
}

/// What an event of `kind` on `paths` asks of the image store.
pub open spec fn fs_action_for(kind: FsEventKind, paths: Seq<Seq<char>>) -> Option<Seq<Seq<char>>> {
    match kind {
        FsEventKind::CreateFile | FsEventKind::ModifyData | FsEventKind::RemoveFile => {
            if paths.len() == 0 {
                None
            } else {
                match relative_image_path(paths[0]) {
                    Some(p) => Some(seq![p]),
                    None => None,
                }
            }
        },
        FsEventKind::RenameBoth => {
            if relative_paths(paths).len() == 2 {
                Some(relative_paths(paths))
            } else {
                None
            }
        },
        FsEventKind::Other => None,
    }
}

/// The paths in an image folder among `paths`, relative to the images root.
pub fn relative_image_paths(paths: &Vec<String>) -> (r: Vec<String>)
    ensures
        texts(r@) == relative_paths(texts(paths@)),
{
    let mut r: Vec<String> = Vec::new();
    let n = paths.len();
    let mut i: usize = 0;
    while i < n
        invariant
            n == paths@.len(),
            i <= n,
            texts(r@) == relative_paths(texts(paths@.take(i as int))),
        decreases n - i,
    {
        let ghost before = r@;
        assert(texts(paths@.take(i + 1)).drop_last() =~= texts(paths@.take(i as int)));
        assert(texts(paths@.take(i + 1)).last() == paths@[i as int]@);
        match to_relative_image_path(paths[i].as_str()) {
            Some(p) => {
                r.push(p);
                assert(texts(r@) =~= texts(before).push(r@.last()@));
            },
            None => {},
        }
        assert(texts(r@) =~= relative_paths(texts(paths@.take(i + 1))));
        i += 1;
    }
    assert(paths@.take(n as int) == paths@);
    r
}

/// What the event of `kind` on `paths` asks of the image store: for a
/// creation, a change or a removal, its first path, if it lies in an image
/// folder; for a rename, the old and the new path, if exactly two of its
/// paths lie in image folders.
pub fn plan_fs_event(kind: FsEventKind, paths: &Vec<String>) -> (r: FsAction)
    ensures
        match fs_action_for(kind, texts(paths@)) {
            None => r == FsAction::Ignore,
            Some(ps) => match kind {
                FsEventKind::RenameBoth => r matches FsAction::Rename(a, b) && a@ == ps[0] && b@
                    == ps[1],
                FsEventKind::RemoveFile => r matches FsAction::Remove(a) && a@ == ps[0],
                _ => r matches FsAction::Store(a) && a@ == ps[0],
            },
        },
{
    match kind {
        FsEventKind::CreateFile | FsEventKind::ModifyData | FsEventKind::RemoveFile => {
            if paths.len() == 0 {
                return FsAction::Ignore;
            }
            assert(texts(paths@)[0] == paths@[0]@);
            match to_relative_image_path(paths[0].as_str()) {
                None => FsAction::Ignore,
                Some(p) => match kind {
                    FsEventKind::RemoveFile => FsAction::Remove(p),
                    _ => FsAction::Store(p),
                },
            }
        },
        FsEventKind::RenameBoth => {
            let mut found = relative_image_paths(paths);
            if found.len() != 2 {
                return FsAction::Ignore;
            }
            assert(texts(found@)[0] == found@[0]@ && texts(found@)[1] == found@[1]@);
            let to = found.pop().unwrap();
            let from = found.pop().unwrap();
            FsAction::Rename(from, to)
        },
        FsEventKind::Other => FsAction::Ignore,
    }
}

/// How an image that a creation or change asks to store is written.
#[derive(Debug, Clone, PartialEq, Eq)]
pub enum StoreStep {
    /// The image is new: insert or update the record of this path.
    Insert(String),
    /// An image with the same checksum is stored under the first path: the
    /// file was renamed, and its record moves to the second path.
    Rename(String, String),
}

/// How the image at `path` is written, given the path under which an image
/// with the same checksum is stored, if there is one: a known checksum means
/// the file was renamed, otherwise it is stored as new.
pub fn store_step(path: String, known_path: Option<String>) -> (r: StoreStep)
    ensures
        match known_path {
            Some(old) => r == StoreStep::Rename(old, path),
            None => r == StoreStep::Insert(path),
        },
{
    match known_path {
        Some(old) => StoreStep::Rename(old, path),
        None => StoreStep::Insert(path),
    }
}

} // verus!
