//! A builder of link records.
use vstd::prelude::*;

use crate::text::owned;
use vstd::string::*;

verus! {

/// A stored link.
#[derive(Debug, Clone)]
pub struct Link {
    pub id: i32,
    pub is_affiliate: bool,
    pub source: String,
}

/// Builds a link; without a source, `https://example.com` is written.
#[derive(Debug, Clone)]
pub struct LinkBuilder {
    is_affiliate: bool,
    source: Option<String>,
}

/// The source written when none was chosen.
pub open spec fn default_source() -> Seq<char> {
    "https://example.com"@
}

impl LinkBuilder {
    /// Whether the link is an affiliate link.
    pub closed spec fn chosen_affiliate(&self) -> bool {
        self.is_affiliate
    }

    /// The source chosen, if any.
    pub closed spec fn chosen_source(&self) -> Option<Seq<char>> {
        match self.source {
            Some(s) => Some(s@),
            None => None,
        }
    }

    /// A builder of a link that is no affiliate link and has no source.
    pub fn new() -> (r: Self)
        ensures
            !r.chosen_affiliate(),
            r.chosen_source() is None,
    {
        LinkBuilder { is_affiliate: false, source: None }
    }

    /// The builder with the source `source`.
    pub fn source(self, source: &str) -> (r: Self)
        ensures
            r.chosen_affiliate() == self.chosen_affiliate(),
            r.chosen_source() == Some(source@),
    {
        LinkBuilder { source: Some(owned(source)), ..self }
    }

    /// The builder with the affiliate flag `is_affiliate`.
    pub fn is_affiliate(self, is_affiliate: bool) -> (r: Self)
        ensures
            r.chosen_affiliate() == is_affiliate,
            r.chosen_source() == self.chosen_source(),
    {
        LinkBuilder { is_affiliate, ..self }
    }

    /// The affiliate flag and the source to write.
    pub fn record(self) -> (r: (bool, String))
        ensures
            r.0 == self.chosen_affiliate(),
            r.1@ == match self.chosen_source() {
                Some(s) => s,
                None => default_source(),
            },
    {
        let source = match self.source {
            Some(s) => s,
            None => String::from_str("https://example.com"),
        };
        (self.is_affiliate, source)
    }
}

} // verus!
