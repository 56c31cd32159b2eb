//! Banners: the platform a click came from, the links and image URLs that the
//! API hands out.
use vstd::prelude::*;

use crate::file_watcher::{ends_in_parent, file_name_of, plain_file_name};
use crate::text::{
    contains, ends_with, has_infix, has_suffix, owned, push_range, uuid_hyphenated, uuid_text,
};
use crate::web::{
    append_pair, extend_path, percent_encode_non_alphanumeric, percent_encoded, set_path,
    url_with_pair, url_with_path, url_with_segments,
};
use vstd::string::*;
use vstd::utf8::*;

verus! {

/// The layout of banner image URLs of an API version.
#[derive(Debug, Clone, Copy, PartialEq, Eq, Structural)]
pub enum BannerPathVersion {
    V2,
    V3,
}

/// The platform a request came from.
#[derive(Debug, Clone, Copy, PartialEq, Eq, Structural)]
pub enum PlatformType {
    IOS,
    Android,
    Web,
}

/// Click counts of a banner per platform.
#[derive(Debug, Clone, Copy, PartialEq, Eq, Structural)]
pub struct ThgPlatformTotal {
    pub android: i64,
    pub ios: i64,
    pub web: i64,
}

/// A summary of the clicks on a banner.
#[derive(Debug, Clone, Copy, PartialEq, Eq, Structural)]
pub struct ThgClickSummery {
    pub last_thirty_days: i64,
    pub last_seven_days: i64,
    pub average_weekly: i64,
    pub total_by_platform: ThgPlatformTotal,
    pub total: Option<i64>,
}

/// The platform that a user agent names: Android when it mentions `Android`,
/// iOS when it mentions `iPhone`, `iPad` or `iPod`, the web otherwise.
pub open spec fn platform_for(user_agent: Seq<char>) -> PlatformType {
    if has_infix(user_agent, "Android"@) {
        PlatformType::Android
    } else if has_infix(user_agent, "iPhone"@) || has_infix(user_agent, "iPad"@) || has_infix(
        user_agent,
        "iPod"@,
    ) {
        PlatformType::IOS
    } else {
        PlatformType::Web
    }
}

/// The platform that a user agent names.
pub fn platform_of(user_agent: &str) -> (r: PlatformType)
    ensures
        r == platform_for(user_agent@),
{
    if contains(user_agent, "Android") {
        PlatformType::Android
    } else if contains(user_agent, "iPhone") || contains(user_agent, "iPad") || contains(
        user_agent,
        "iPod",
    ) {
        PlatformType::IOS
    } else {
        PlatformType::Web
    }
}

impl<'a> From<&'a str> for PlatformType {
    fn from(user_agent: &'a str) -> (r: Self) {
        platform_of(user_agent)
    }
}

impl<'a> vstd::std_specs::convert::FromSpecImpl<&'a str> for PlatformType {
    open spec fn obeys_from_spec() -> bool {
        true
    }

    open spec fn from_spec(user_agent: &'a str) -> PlatformType {
        platform_for(user_agent@)
    }
}

/// Percent-encodes a URL so that it can travel as a query value: everything
/// but ASCII letters and digits is encoded.
pub fn escape_url(url: &str) -> (r: String)
    ensures
        r@ == percent_encoded(encode_utf8(url@)),
{
    percent_encode_non_alphanumeric(url)
}

/// The text under which a link is looked up: the link without one trailing `/`.
pub open spec fn link_lookup(link: Seq<char>) -> Seq<char> {
    if has_suffix(link, "/"@) {
        link.drop_last()
    } else {
        link
    }
}

/// The text under which a link is looked up.
pub fn link_lookup_text(link: &str) -> (r: String)
    ensures
        r@ == link_lookup(link@),
{
    let n = link.unicode_len();
    let slash = "/";
    proof {
        reveal_strlit("/");
    }
    let mut r = String::new();
    if ends_with(link, slash) {
        push_range(&mut r, link, 0, n - 1);
        assert(link@.subrange(0, n - 1) == link@.drop_last());
    } else {
        push_range(&mut r, link, 0, n);
        assert(link@.subrange(0, n as int) == link@);
    }
    r
}

/// The path segments that lead to a banner image in an API version.
pub open spec fn banner_image_segments(version: BannerPathVersion, checksum: Seq<char>) -> Seq<Seq<char>> {
    match version {
        BannerPathVersion::V2 => seq!["img"@, "banner"@, checksum],
        BannerPathVersion::V3 => seq!["image"@, checksum],
    }
}

/// The URL of a banner image below the API's base URL.
pub fn banner_image_url(api_base_url: &str, version: BannerPathVersion, checksum: &str) -> (r: Option<String>)
    ensures
        r matches Some(u) ==> url_with_segments(api_base_url@, banner_image_segments(version, checksum@)) == Some(u@),
        r is None ==> url_with_segments(api_base_url@, banner_image_segments(version, checksum@)) is None,
{
    let segments = match version {
        BannerPathVersion::V2 => vec!["img", "banner", checksum],
        BannerPathVersion::V3 => vec!["image", checksum],
    };
    assert(crate::web::str_texts(segments@) =~= banner_image_segments(version, checksum@));
    extend_path(api_base_url, &segments)
}

/// The affiliate link of a banner: the API's `affiliate` path with the escaped
/// target as `url` and the banner id as `banner`.
pub open spec fn banner_link_for(base: Seq<char>, source: Seq<char>, banner_id: Seq<char>) -> Option<Seq<char>> {
    match url_with_path(base, "affiliate"@) {
        None => None,
        Some(u1) => match url_with_pair(u1, "url"@, percent_encoded(encode_utf8(source))) {
            None => None,
            Some(u2) => url_with_pair(u2, "banner"@, banner_id),
        },
    }
}

/// The affiliate link of a banner.
pub fn banner_link(api_base_url: &str, source: &str, banner_id: &str) -> (r: Option<String>)
    ensures
        r matches Some(u) ==> banner_link_for(api_base_url@, source@, banner_id@) == Some(u@),
        r is None ==> banner_link_for(api_base_url@, source@, banner_id@) is None,
{
    let u1 = match set_path(api_base_url, "affiliate") {
        Some(u) => u,
        None => {
            return None;
        },
    };
    let escaped = escape_url(source);
    let u2 = match append_pair(u1.as_str(), "url", escaped.as_str()) {
        Some(u) => u,
        None => {
            return None;
        },
    };
    append_pair(u2.as_str(), "banner", banner_id)
}

/// A stored banner as the API reads it: the id of its link banner, the
/// checksum and path of its image, its target, and how it is shown.
#[derive(Debug, Clone)]
pub struct BannerRow {
    pub id: u128,
    pub checksum: String,
    pub source: String,
    pub image: String,
    pub is_affiliate: bool,
    pub frequency: i16,
    pub updated: i64,
}

/// A banner as the second API version hands it out; `id` is the value of its
/// UUID and `updated` seconds since the epoch.
#[derive(Debug, Clone)]
pub struct BannerV2 {
    pub link: String,
    pub image: String,
    pub frequency: i16,
    pub is_affiliate: bool,
    pub id: u128,
    pub updated: i64,
    pub filename: String,
}

/// A banner as the third API version hands it out.
#[derive(Debug, Clone)]
pub struct BannerV3 {
    pub affiliate_link_url: String,
    pub image_url: String,
    pub frequency: i16,
    pub is_affiliate: bool,
    pub id: u128,
    pub last_updated_date: i64,
}

/// The affiliate link and the image URL of a stored banner below the API's
/// base URL; `None` when the base URL is no valid URL.
pub open spec fn banner_from_row(base: Seq<char>, version: BannerPathVersion, row: BannerRow) -> Option<
    (Seq<char>, Seq<char>),
> {
    match url_with_segments(base, banner_image_segments(version, row.checksum@)) {
        None => None,
        Some(image) => match banner_link_for(base, row.source@, uuid_hyphenated(row.id)) {
            None => None,
            Some(link) => Some((link, image)),
        },
    }
}

/// The banner that a stored row becomes below the API's base URL: its image
/// URL for the API version, its affiliate link, the file name of its image,
/// and the row's other values.
pub fn banner_entry(api_base_url: &str, version: BannerPathVersion, row: BannerRow) -> (r: Option<
    BannerV2,
>)
    ensures
        match r {
            Some(b) => {
                &&& banner_from_row(api_base_url@, version, row) == Some(
                    (b.link@, b.image@),
                )
                &&& b.frequency == row.frequency
                &&& b.is_affiliate == row.is_affiliate
                &&& b.id == row.id
                &&& b.updated == row.updated
                &&& match plain_file_name(row.image@) {
                    Some(t) => b.filename@ == t,
                    None => ends_in_parent(row.image@) ==> b.filename@ == Seq::<char>::empty(),
                }
            },
            None => banner_from_row(api_base_url@, version, row) is None,
        },
{
    let image = match banner_image_url(api_base_url, version, row.checksum.as_str()) {
        Some(u) => u,
        None => return None,
    };
    let id_text = uuid_text(row.id);
    let link = match banner_link(api_base_url, row.source.as_str(), id_text.as_str()) {
        Some(u) => u,
        None => return None,
    };
    let filename = match file_name_of(row.image.as_str()) {
        Some(f) => f,
        None => String::new(),
    };
    Some(
        BannerV2 {
            link,
            image,
            frequency: row.frequency,
            is_affiliate: row.is_affiliate,
            id: row.id,
            updated: row.updated,
            filename,
        },
    )
}

impl From<BannerV2> for BannerV3 {
    fn from(value: BannerV2) -> (r: Self) {
        BannerV3 {
            affiliate_link_url: value.link,
            image_url: value.image,
            frequency: value.frequency,
            is_affiliate: value.is_affiliate,
            id: value.id,
            last_updated_date: value.updated,
        }
    }
}

impl vstd::std_specs::convert::FromSpecImpl<BannerV2> for BannerV3 {
    open spec fn obeys_from_spec() -> bool {
        true
    }

    open spec fn from_spec(value: BannerV2) -> BannerV3 {
        BannerV3 {
            affiliate_link_url: value.link,
            image_url: value.image,
            frequency: value.frequency,
            is_affiliate: value.is_affiliate,
            id: value.id,
            last_updated_date: value.updated,
        }
    }
}

} // verus!
