//! Images of tariffs, banners and operators as the API lists them.
use vstd::prelude::*;

use crate::web::{extend_path, url_with_segments};

verus! {

/// The URL of an image below the API's domain: `image/<blake3sum>`.
pub fn format_url(domain: &str, blake3sum: &str) -> (r: Option<String>)
    ensures
        r matches Some(u) ==> url_with_segments(domain@, seq!["image"@, blake3sum@]) == Some(u@),
        r is None ==> url_with_segments(domain@, seq!["image"@, blake3sum@]) is None,
{
    let segments = vec!["image", blake3sum];
    assert(crate::web::str_texts(segments@) =~= seq!["image"@, blake3sum@]);
    extend_path(domain, &segments)
}

/// The name an image file gets after its record was renamed: the internal
/// name, behind a prefix and `_` when one is given.
pub open spec fn image_file_name_for(internal_name: Seq<char>, name_prefix: Option<Seq<char>>) -> Seq<char> {
    match name_prefix {
        Some(p) => p + "_"@ + internal_name,
        None => internal_name,
    }
}

/// The name an image file gets after its record was renamed.
pub fn image_file_name(internal_name: &str, name_prefix: Option<&str>) -> (r: String)
    ensures
        r@ == image_file_name_for(internal_name@, match name_prefix {
            Some(p) => Some(p@),
            None => None,
        }),
{
    let mut r = String::new();
    match name_prefix {
        Some(p) => {
            r.append(p);
            r.append("_");
            r.append(internal_name);
        },
        None => {
            r.append(internal_name);
        },
    }
    r
}

} // verus!
