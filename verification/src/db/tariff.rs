//! Tariffs of providers: which of them are bound to customers, which are
//! ad-hoc, and the internal names under which their card images are kept.
use vstd::prelude::*;

use crate::db::plug::ChargeType;
use crate::file_watcher::{ends_in_parent, file_name_of, plain_file_name};
use crate::pattern::{any_pattern_finds, matches_any, regex_replace_all, regex_replaced};
use crate::text::{
    all_ascii, ascii_lower, ends_with, has_prefix, has_suffix, lowercased, owned, remove_char,
    same_text, starts_with, to_lowercase, without_char,
};
use crate::web::{base64_decoded, decode_base64, parse_url, parsed_url, query_pairs, set_query, url_query, url_with_query, utf8_to_string};
use vstd::string::*;
use vstd::utf8::*;

verus! {

/// The patterns whose case-insensitive match marks a tariff name as one that
/// only customers of the provider can get.
pub open spec fn customer_only_pattern_texts() -> Seq<Seq<char>> {
    seq!["privat"@, "kunde"@, "business"@, "bestand"@, "profi"@, "plus"@]
}

/// Whether a tariff text names a customer-only tariff.
pub open spec fn is_customer_only_text(t: Seq<char>) -> bool {
    any_pattern_finds(customer_only_pattern_texts(), t)
}

/// The patterns of customer-only tariff names.
pub fn customer_only_patterns() -> (r: Vec<&'static str>)
    ensures
        r@.map_values(|p: &str| p@) == customer_only_pattern_texts(),
{
    let r = vec!["privat", "kunde", "business", "bestand", "profi", "plus"];
    assert(r@.map_values(|p: &str| p@) =~= customer_only_pattern_texts());
    r
}

/// Whether `text` names a customer-only tariff.
pub fn matches_customer_only(text: &str) -> (r: bool)
    ensures
        r == is_customer_only_text(text@),
{
    let patterns = customer_only_patterns();
    matches_any(&patterns, text)
}

/// A tariff of a provider as the price import stores it. Its monthly fee is a
/// float, which the library carries as its bit pattern (`f64::to_bits`)
/// without reading it; the application compares fees.
#[derive(Debug)]
pub struct ChargePriceTariff {
    pub id: i32,
    pub relationship_id: uuid::Uuid,
    pub provider_name: String,
    pub provider_id: uuid::Uuid,
    pub slug_name: String,
    pub monthly_fee_bits: u64,
    pub provider_customer_only: bool,
    pub standard: bool,
    pub ad_hoc: bool,
    pub url: Option<String>,
    pub image: Option<i32>,
}

/// The key of a stored price: operator, tariff and charge type.
#[derive(Hash, Eq, PartialEq, Debug)]
pub struct PriceTuple(pub uuid::Uuid, pub uuid::Uuid, pub ChargeType);

/// Whether two UUIDs are the same (`Uuid`'s `==`, which compares the bytes).
#[verifier::external_body]
fn same_uuid(a: &uuid::Uuid, b: &uuid::Uuid) -> (r: bool)
    ensures
        r == (*a == *b),
{
    a == b
}

/// Whether two optional strings hold the same text.
fn same_optional_text(a: &Option<String>, b: &Option<String>) -> (r: bool)
    ensures
        r == (match (a, b) {
            (Some(x), Some(y)) => x@ == y@,
            (None, None) => true,
            _ => false,
        }),
{
    match (a, b) {
        (Some(x), Some(y)) => same_text(x.as_str(), y.as_str()),
        (None, None) => true,
        _ => false,
    }
}

/// Whether two optional strings hold the same text.
pub open spec fn same_optional(a: Option<String>, b: Option<String>) -> bool {
    match (a, b) {
        (Some(x), Some(y)) => x@ == y@,
        (None, None) => true,
        _ => false,
    }
}

/// The fields, other than the monthly fee, that decide whether a stored tariff
/// must be updated.
pub open spec fn same_listing(a: ChargePriceTariff, b: ChargePriceTariff) -> bool {
    &&& a.slug_name@ == b.slug_name@
    &&& a.provider_customer_only == b.provider_customer_only
    &&& a.provider_name@ == b.provider_name@
    &&& a.ad_hoc == b.ad_hoc
    &&& same_optional(a.url, b.url)
    &&& a.provider_id == b.provider_id
    &&& a.standard == b.standard
}

/// The suffix that marks a customer-only tariff whose name does not say so.
pub open spec fn customer_tariff_suffix() -> Seq<char> {
    " (Kundentarif)"@
}

/// The marker of ad-hoc tariff names.
pub open spec fn ad_hoc_marker() -> Seq<char> {
    "ad-hoc"@
}

/// The internal name of every ad-hoc tariff.
pub open spec fn ad_hoc_internal_name() -> Seq<char> {
    "lf_spontan"@
}

/// The characters that internal tariff names keep are those this class does
/// not match.
pub open spec fn internal_tariff_pattern() -> Seq<char> {
    "[^A-Za-z0-9ß+-_]"@
}

/// What is left of `t` when the matches of `pattern` are removed; the text
/// stays whole should the pattern not compile.
pub open spec fn stripped(pattern: Seq<char>, t: Seq<char>) -> Seq<char> {
    match regex_replaced(pattern, t, ""@) {
        Some(s) => s,
        None => t,
    }
}

/// The internal name of a tariff named `text` of provider `provider`: both
/// stripped of unwanted characters, slashes removed from the tariff name,
/// joined by `_` and lower-cased.
pub open spec fn internal_tariff_name(provider: Seq<char>, text: Seq<char>) -> Seq<char> {
    lowercased(
        stripped(internal_tariff_pattern(), provider) + "_"@ + without_char(
            stripped(internal_tariff_pattern(), text),
            '/',
        ),
    )
}

/// A text with its ASCII capitals lower-cased.
pub open spec fn ascii_lowered(s: Seq<char>) -> Seq<char> {
    s.map_values(|c: char| ascii_lower(c))
}

/// Whether a tariff is ad-hoc: flagged so, or its lower-cased name starts or
/// ends with `ad-hoc`.
pub open spec fn tariff_is_ad_hoc(t: ChargePriceTariff) -> bool {
    ||| t.ad_hoc
    ||| has_suffix(lowercased(t.slug_name@), ad_hoc_marker())
    ||| has_prefix(lowercased(t.slug_name@), ad_hoc_marker())
}

/// Removes the matches of `pattern` from `text`; should the pattern not
/// compile, the text stays whole.
pub fn strip_matches(pattern: &str, text: &str) -> (r: String)
    ensures
        r@ == stripped(pattern@, text@),
{
    match regex_replace_all(pattern, text, "") {
        Some(s) => s,
        None => owned(text),
    }
}

/// What a save of a tariff writes to the store.
#[derive(Debug)]
pub enum TariffWrite {
    /// The stored tariff differs: it is updated and keeps its id and image.
    Update { id: i32, image: Option<i32>, standard: bool },
    /// The stored tariff is the same: nothing is written.
    Keep { id: i32 },
    /// There is no stored tariff: it is inserted with this image and internal name.
    Insert { image: Option<i32>, internal_name: String },
}

/// Whether two tariffs agree on everything but their id and image.
pub open spec fn same_but_id_and_image(a: ChargePriceTariff, b: ChargePriceTariff) -> bool {
    &&& a.relationship_id == b.relationship_id
    &&& a.provider_name == b.provider_name
    &&& a.provider_id == b.provider_id
    &&& a.slug_name == b.slug_name
    &&& a.monthly_fee_bits == b.monthly_fee_bits
    &&& a.provider_customer_only == b.provider_customer_only
    &&& a.standard == b.standard
    &&& a.ad_hoc == b.ad_hoc
    &&& a.url == b.url
}

impl ChargePriceTariff {
    /// Whether the tariff is ad-hoc.
    pub fn is_ad_hoc(&self) -> (r: bool)
        ensures
            r == tariff_is_ad_hoc(*self),
            all_ascii(self.slug_name@) ==> r == (self.ad_hoc || has_suffix(
                ascii_lowered(self.slug_name@),
                ad_hoc_marker(),
            ) || has_prefix(ascii_lowered(self.slug_name@), ad_hoc_marker())),
    {
        let slug_lower = to_lowercase(self.slug_name.as_str());
        let pattern = "ad-hoc";
        self.ad_hoc || ends_with(slug_lower.as_str(), pattern) || starts_with(slug_lower.as_str(), pattern)
    }

    /// Whether the fields other than the monthly fee agree, as the equality of
    /// tariffs compares them.
    pub fn same_listing_as(&self, other: &ChargePriceTariff) -> (r: bool)
        ensures
            r == same_listing(*self, *other),
    {
        same_text(self.slug_name.as_str(), other.slug_name.as_str())
            && self.provider_customer_only == other.provider_customer_only
            && same_text(self.provider_name.as_str(), other.provider_name.as_str())
            && self.ad_hoc == other.ad_hoc
            && same_optional_text(&self.url, &other.url)
            && same_uuid(&self.provider_id, &other.provider_id)
            && self.standard == other.standard
    }

    /// Marks the name of a customer-only tariff whose name does not say so by
    /// appending ` (Kundentarif)`.
    pub fn fix_provider_only_slug_name(&mut self)
        ensures
            old(self).provider_customer_only && !is_customer_only_text(old(self).slug_name@)
                ==> final(self).slug_name@ == old(self).slug_name@ + customer_tariff_suffix(),
            !(old(self).provider_customer_only && !is_customer_only_text(old(self).slug_name@))
                ==> final(self).slug_name == old(self).slug_name,
            final(self).id == old(self).id,
            final(self).relationship_id == old(self).relationship_id,
            final(self).provider_name == old(self).provider_name,
            final(self).provider_id == old(self).provider_id,
            final(self).monthly_fee_bits == old(self).monthly_fee_bits,
            final(self).provider_customer_only == old(self).provider_customer_only,
            final(self).standard == old(self).standard,
            final(self).ad_hoc == old(self).ad_hoc,
            final(self).url == old(self).url,
            final(self).image == old(self).image,
    {
        if self.provider_customer_only && !matches_customer_only(self.slug_name.as_str()) {
            self.slug_name.append(" (Kundentarif)");
        }
    }

    /// The internal name of a tariff named `text` of this tariff's provider.
    pub fn normalize_internal_name(&self, text: &str) -> (r: String)
        ensures
            r@ == internal_tariff_name(self.provider_name@, text@),
    {
        let pattern = "[^A-Za-z0-9ß+-_]";
        let tariff_name = remove_char(strip_matches(pattern, text).as_str(), '/');
        let provider_name = strip_matches(pattern, self.provider_name.as_str());
        let mut joined = provider_name;
        joined.append("_");
        joined.append(tariff_name.as_str());
        to_lowercase(joined.as_str())
    }

    /// Decides what saving the tariff writes, given the stored tariff with the
    /// same relationship, whether its monthly fee equals this one's (the fees
    /// are floats and are compared by the caller), the name the tariff had
    /// before `fix_provider_only_slug_name`, and the image of ad-hoc tariffs.
    /// The stored tariff differs when its listing or its fee differs.
    pub fn plan_save(
        &self,
        existing: Option<&ChargePriceTariff>,
        fees_equal: bool,
        original_slug: &str,
        ad_hoc_image: Option<i32>,
    ) -> (r: TariffWrite)
        ensures
            existing matches Some(t) ==> (!(same_listing(*self, *t) && fees_equal) ==> r == (
            TariffWrite::Update { id: t.id, image: t.image, standard: t.standard })),
            existing matches Some(t) ==> ((same_listing(*self, *t) && fees_equal) ==> r == (
            TariffWrite::Keep { id: t.id })),
            existing matches Some(t) ==> (t.slug_name@ != self.slug_name@ ==> r == (
            TariffWrite::Update { id: t.id, image: t.image, standard: t.standard })),
            existing matches Some(t) ==> (!fees_equal ==> r == (TariffWrite::Update {
                id: t.id,
                image: t.image,
                standard: t.standard,
            })),
            existing is None && tariff_is_ad_hoc(*self) ==> (r matches TariffWrite::Insert {
                image,
                internal_name,
            } && image == ad_hoc_image && internal_name@ == ad_hoc_internal_name()),
            existing is None && !tariff_is_ad_hoc(*self) ==> (r matches TariffWrite::Insert {
                image,
                internal_name,
            } && image is None && internal_name@ == internal_tariff_name(
                self.provider_name@,
                original_slug@,
            )),
    {
        match existing {
            Some(t) => {
                if !(self.same_listing_as(t) && fees_equal) {
                    TariffWrite::Update { id: t.id, image: t.image, standard: t.standard }
                } else {
                    TariffWrite::Keep { id: t.id }
                }
            },
            None => {
                if self.is_ad_hoc() {
                    TariffWrite::Insert { image: ad_hoc_image, internal_name: owned("lf_spontan") }
                } else {
                    TariffWrite::Insert {
                        image: None,
                        internal_name: self.normalize_internal_name(original_slug),
                    }
                }
            },
        }
    }

    /// Takes over what an update of a stored tariff left: its id and image.
    /// Returns the id and the internal name to announce, which is given when
    /// the stored tariff had no image, was not standard, and this one is.
    pub fn finish_update(
        &mut self,
        stored_id: i32,
        stored_image: Option<i32>,
        stored_standard: bool,
        internal_name: String,
    ) -> (r: (i32, Option<String>))
        ensures
            final(self).id == stored_id,
            final(self).image == stored_image,
            same_but_id_and_image(*final(self), *old(self)),
            r.0 == stored_id,
            (stored_image is None && !stored_standard && old(self).standard) ==> r.1 == Some(
                internal_name,
            ),
            !(stored_image is None && !stored_standard && old(self).standard) ==> r.1 is None,
    {
        self.image = stored_image;
        self.id = stored_id;
        if stored_image.is_none() && !stored_standard && self.standard {
            (stored_id, Some(internal_name))
        } else {
            (stored_id, None)
        }
    }

    /// Takes over the id of a stored tariff that did not change.
    pub fn finish_keep(&mut self, stored_id: i32) -> (r: (i32, Option<String>))
        ensures
            final(self).id == stored_id,
            final(self).image == old(self).image,
            same_but_id_and_image(*final(self), *old(self)),
            r == (stored_id, None::<String>),
    {
        self.id = stored_id;
        (stored_id, None)
    }

    /// Takes over the id and image of an inserted tariff. Returns the id and
    /// the internal name to announce, which is given when the tariff got no
    /// image and is standard.
    pub fn finish_insert(&mut self, new_id: i32, image: Option<i32>, internal_name: String) -> (r: (
        i32,
        Option<String>,
    ))
        ensures
            final(self).id == new_id,
            final(self).image == image,
            same_but_id_and_image(*final(self), *old(self)),
            r.0 == new_id,
            (image is None && old(self).standard) ==> r.1 == Some(internal_name),
            !(image is None && old(self).standard) ==> r.1 is None,
    {
        self.image = image;
        self.id = new_id;
        if image.is_none() && self.standard {
            (new_id, Some(internal_name))
        } else {
            (new_id, None)
        }
    }
}

/// The value of the first pair whose key is `key`.
pub open spec fn first_value(pairs: Seq<(Seq<char>, Seq<char>)>, key: Seq<char>) -> Option<Seq<char>>
    decreases pairs.len(),
{
    if pairs.len() == 0 {
        None
    } else if pairs[0].0 == key {
        Some(pairs[0].1)
    } else {
        first_value(pairs.drop_first(), key)
    }
}

/// Finds the value of the first pair whose key is `key`.
pub fn find_value(pairs: &Vec<(String, String)>, key: &str) -> (r: Option<String>)
    ensures
        r matches Some(v) ==> first_value(crate::web::pair_texts(pairs@), key@) == Some(v@),
        r is None ==> first_value(crate::web::pair_texts(pairs@), key@) is None,
{
    let ghost all = crate::web::pair_texts(pairs@);
    let n = pairs.len();
    let mut i: usize = 0;
    assert(all.skip(0) == all);
    while i < n
        invariant
            n == pairs@.len(),
            all == crate::web::pair_texts(pairs@),
            all.len() == n,
            i <= n,
            first_value(all, key@) == first_value(all.skip(i as int), key@),
        decreases n - i,
    {
        let ghost rest = all.skip(i as int);
        assert(rest[0] == all[i as int]);
        assert(rest.drop_first() == all.skip(i + 1));
        if same_text(pairs[i].0.as_str(), key) {
            let v = owned(pairs[i].1.as_str());
            return Some(v);
        }
        i += 1;
    }
    assert(all.skip(n as int).len() == 0);
    None
}

/// The link that a tracking URL carries: the `token` query value of `link`,
/// Base64-decoded and read as UTF-8, becomes the query of the link, whose
/// `url` value is the target.
pub open spec fn tracked_target(link: Option<String>) -> Option<Seq<char>> {
    match link {
        None => None,
        Some(l) => match url_query(l@) {
            None => None,
            Some(pairs) => match first_value(pairs, "token"@) {
                None => None,
                Some(token) => match base64_decoded(encode_utf8(token)) {
                    None => None,
                    Some(bytes) => if !valid_utf8(bytes) {
                        None
                    } else {
                        match url_with_query(l@, decode_utf8(bytes)) {
                            None => None,
                            Some(with_tokens) => match url_query(with_tokens) {
                                None => None,
                                Some(pairs2) => match first_value(pairs2, "url"@) {
                                    None => None,
                                    Some(target) => parsed_url(target),
                                },
                            },
                        }
                    },
                },
            },
        },
    }
}

/// Recovers the target URL of a tracking link whose `token` query parameter
/// holds the Base64 of a query with a `url` parameter.
pub fn parse_url_from_base64_query(link: &Option<String>) -> (r: Option<String>)
    ensures
        r matches Some(u) ==> tracked_target(*link) == Some(u@),
        r is None ==> tracked_target(*link) is None,
{
    let link = match link {
        Some(l) => l,
        None => {
            return None;
        },
    };
    let pairs = match query_pairs(link.as_str()) {
        Some(p) => p,
        None => {
            return None;
        },
    };
    let token = match find_value(&pairs, "token") {
        Some(t) => t,
        None => {
            return None;
        },
    };
    let decoded = match decode_base64(token.as_str().as_bytes()) {
        Some(d) => d,
        None => {
            return None;
        },
    };
    let tokens = match utf8_to_string(decoded) {
        Some(t) => t,
        None => {
            return None;
        },
    };
    let with_tokens = match set_query(link.as_str(), tokens.as_str()) {
        Some(u) => u,
        None => {
            return None;
        },
    };
    let pairs2 = match query_pairs(with_tokens.as_str()) {
        Some(p) => p,
        None => {
            return None;
        },
    };
    match find_value(&pairs2, "url") {
        Some(target) => parse_url(target.as_str()),
        None => None,
    }
}

/// The image of a tariff as the admin pages list it: the name of its file,
/// if it has a path, and its checksum.
#[derive(Debug, Clone)]
pub struct ImageIntern {
    pub filename: Option<String>,
    pub checksum: String,
}

/// The image of a tariff row: none without a checksum; with one, the
/// checksum and the file name of its path (empty when the path has none).
pub fn image_intern(checksum: Option<String>, file_path: Option<String>) -> (r: Option<ImageIntern>)
    ensures
        checksum is None ==> r is None,
        checksum matches Some(c) ==> (r matches Some(i) && i.checksum@ == c@ && (i.filename is Some
            <==> file_path is Some)),
        checksum is Some ==> (file_path matches Some(p) ==> match plain_file_name(p@) {
            Some(t) => r matches Some(i) && i.filename matches Some(f) && f@ == t,
            None => ends_in_parent(p@) ==> (r matches Some(i) && i.filename matches Some(f) && f@
                == Seq::<char>::empty()),
        }),
{
    match checksum {
        None => None,
        Some(c) => {
            let filename = match file_path {
                None => None,
                Some(p) => match file_name_of(p.as_str()) {
                    Some(f) => Some(f),
                    None => Some(String::new()),
                },
            };
            Some(ImageIntern { filename, checksum: c })
        },
    }
}

/// The `Debug` form of a text (`<str as Debug>::fmt`, as `{:?}` and `{:#?}`
/// write a string): the text in double quotes with `escape_debug` escapes.
pub uninterp spec fn debug_quoted(s: Seq<char>) -> Seq<char>;

/// Whether a text is printable ASCII without `"` and `\\`, which the `Debug`
/// form leaves as they are.
pub open spec fn plain_printable(s: Seq<char>) -> bool {
    forall|i: int| 0 <= i < s.len() ==> ' ' <= #[trigger] s[i] && s[i] <= '~' && s[i] != '"' && s[i]
        != '\\'
}

/// The `Debug` form of a text (`format!("{:?}", s)`). The contract names it
/// and states the documented case of printable ASCII without `"` and `\\`,
/// which is only put in quotes.
#[verifier::external_body]
fn debug_text(s: &str) -> (r: String)
    ensures
        r@ == debug_quoted(s@),
        plain_printable(s@) ==> r@ == seq!['"'] + s@ + seq!['"'],
{
    format!("{:?}", s)
}

/// How many announcements of new tariffs are sent before the count is reset.
pub const MAX_NEW_TARIFF_NOTICES: usize = 6;

/// The announcement of a new tariff without an image.
pub open spec fn new_tariff_text(
    mention: Seq<char>,
    quoted_name: Seq<char>,
    cpo_name: Seq<char>,
    internal_name: Seq<char>,
    link: Seq<char>,
) -> Seq<char> {
    "Hi "@ + mention + ", I found a new card "@ + quoted_name
        + " without an image.\nHere are some useful information:\nCPO: "@ + cpo_name
        + "\nName Internal: "@ + internal_name + "\nLink: "@ + link
}

/// The link part of an announcement: the preview of the tariff's link target
/// when its tracking link reveals one and a preview of it is given, else
/// `none link`.
pub open spec fn notice_link(target: Option<Seq<char>>, link_preview: Option<Seq<char>>) -> Seq<char> {
    match (target, link_preview) {
        (Some(_), Some(l)) => l,
        _ => "none link"@,
    }
}

impl ChargePriceTariff {
    /// The target of the tariff's tracking link, the link its announcement
    /// previews: `parse_url_from_base64_query` of its url.
    pub fn link_target(&self) -> (r: Option<String>)
        ensures
            r matches Some(u) ==> tracked_target(self.url) == Some(u@),
            r is None ==> tracked_target(self.url) is None,
    {
        parse_url_from_base64_query(&self.url)
    }

    /// The announcement of this tariff as a new one without an image, sent to
    /// `mention` for the operator `cpo_name`, given how many announcements
    /// were sent since the last reset (none once `MAX_NEW_TARIFF_NOTICES`
    /// were sent) and `link_preview`, the preview the caller made of
    /// `link_target()`. The link part is that preview when the tracking link
    /// reveals a target, and `none link` when it reveals none.
    pub fn new_tariff_notice(
        &self,
        mention: &str,
        cpo_name: &str,
        internal_name: &str,
        link_preview: Option<&str>,
        sent_count: usize,
    ) -> (r: Option<String>)
        ensures
            sent_count >= MAX_NEW_TARIFF_NOTICES ==> r is None,
            sent_count < MAX_NEW_TARIFF_NOTICES ==> (r matches Some(m) && m@ == new_tariff_text(
                mention@,
                debug_quoted(self.slug_name@),
                cpo_name@,
                internal_name@,
                notice_link(
                    tracked_target(self.url),
                    match link_preview {
                        Some(l) => Some(l@),
                        None => None,
                    },
                ),
            )),
    {
        if sent_count >= MAX_NEW_TARIFF_NOTICES {
            return None;
        }
        let target = self.link_target();
        let quoted = debug_text(self.slug_name.as_str());
        let mut m = String::from_str("Hi ");
        m.append(mention);
        m.append(", I found a new card ");
        m.append(quoted.as_str());
        m.append(" without an image.\nHere are some useful information:\nCPO: ");
        m.append(cpo_name);
        m.append("\nName Internal: ");
        m.append(internal_name);
        m.append("\nLink: ");
        match (target, link_preview) {
            (Some(_), Some(l)) => m.append(l),
            _ => m.append("none link"),
        }
        Some(m)
    }
}

/// Two tariffs have the same listing exactly when their names, customer-only
/// flags, providers, ad-hoc flags, links, provider ids and standard flags
/// agree: a tariff whose name changed is a changed tariff.
pub proof fn listing_compares_every_field(a: ChargePriceTariff, b: ChargePriceTariff)
    ensures
        same_listing(a, b) <==> {
            &&& a.slug_name@ == b.slug_name@
            &&& a.provider_customer_only == b.provider_customer_only
            &&& a.provider_name@ == b.provider_name@
            &&& a.ad_hoc == b.ad_hoc
            &&& (a.url is None <==> b.url is None)
            &&& (a.url matches Some(x) ==> (b.url matches Some(y) && x@ == y@))
            &&& a.provider_id == b.provider_id
            &&& a.standard == b.standard
        },
        a.slug_name@ != b.slug_name@ ==> !same_listing(a, b),
{
}

} // verus!
