//! The Eco-Movement endpoints and the paging through their results.
use vstd::prelude::*;

verus! {

/// How many records one page of the API holds.
pub const PER_PAGE_SIZE: usize = 1000;

/// An endpoint of the Eco-Movement API.
#[derive(Debug, Clone, Copy, PartialEq, Eq, Structural)]
pub enum Endpoint {
    Location,
    ConnectorPrice,
    Price,
}

/// The path of an endpoint below the API's URL.
pub open spec fn endpoint_path(e: Endpoint) -> Seq<char> {
    match e {
        Endpoint::Location => "api/ocpi/cpo/2.1.1/locations"@,
        Endpoint::ConnectorPrice => "prices/connector_prices"@,
        Endpoint::Price => "prices"@,
    }
}

impl Endpoint {
    /// The path of the endpoint, as it prints.
    pub fn path(&self) -> (r: &'static str)
        ensures
            r@ == endpoint_path(*self),
    {
        match self {
            Endpoint::Location => "api/ocpi/cpo/2.1.1/locations",
            Endpoint::ConnectorPrice => "prices/connector_prices",
            Endpoint::Price => "prices",
        }
    }
}

/// One page of an API answer.
#[derive(Debug)]
pub struct ResponseData<T> {
    pub data: Option<Vec<T>>,
}

/// What follows a page of an API answer.
#[derive(Debug, Clone, Copy, PartialEq, Eq, Structural)]
pub enum PageStep {
    /// Hand on the page and fetch the next one at this offset.
    Continue { next_offset: usize },
    /// Hand on the page; it is the last one.
    Last,
    /// The answer held no data: stop without handing anything on.
    Stop,
}

/// The largest offset that is still fetched.
pub open spec fn max_total_offset(max_request_pages: usize) -> int {
    PER_PAGE_SIZE * max_request_pages
}

/// What follows the page fetched at `offset` that held `page_len` records,
/// or no data at all: the next page is fetched while the page was full and
/// the offset stays within `max_request_pages` pages.
pub open spec fn page_step(offset: usize, max_request_pages: usize, page_len: Option<usize>) -> PageStep {
    match page_len {
        None => PageStep::Stop,
        Some(len) => {
            let next = offset + PER_PAGE_SIZE;
            if next > max_total_offset(max_request_pages) || len < PER_PAGE_SIZE {
                PageStep::Last
            } else {
                PageStep::Continue { next_offset: next as usize }
            }
        },
    }
}

/// What follows the page fetched at `offset`. A next page is always a full
/// page further and never beyond the last allowed offset, so a walk that
/// starts at offset zero fetches at most `max_request_pages + 1` pages.
pub fn next_page(offset: usize, max_request_pages: usize, page_len: Option<usize>) -> (r: PageStep)
    requires
        offset <= max_total_offset(max_request_pages),
        max_total_offset(max_request_pages) + PER_PAGE_SIZE <= usize::MAX,
    ensures
        r == page_step(offset, max_request_pages, page_len),
        r matches PageStep::Continue { next_offset } ==> next_offset == offset + PER_PAGE_SIZE
            && next_offset <= max_total_offset(max_request_pages),
{
    let max_total = PER_PAGE_SIZE * max_request_pages;
    match page_len {
        None => PageStep::Stop,
        Some(len) => {
            let next = offset + PER_PAGE_SIZE;
            if next > max_total || len < PER_PAGE_SIZE {
                PageStep::Last
            } else {
                PageStep::Continue { next_offset: next }
            }
        },
    }
}

/// The number of pages fetched from `offset` on when the API answers each
/// request in turn with a page of the given length, or with no data.
pub open spec fn pages_fetched(offset: usize, max_request_pages: usize, answers: Seq<Option<usize>>) -> nat
    decreases answers.len(),
{
    if answers.len() == 0 {
        0
    } else {
        match page_step(offset, max_request_pages, answers[0]) {
            PageStep::Continue { next_offset } => 1 + pages_fetched(
                next_offset,
                max_request_pages,
                answers.drop_first(),
            ),
            _ => 1,
        }
    }
}

/// Paging ends: whatever the API answers, a walk from offset zero fetches at
/// most `max_request_pages + 1` pages.
pub proof fn paging_is_bounded(max_request_pages: usize, answers: Seq<Option<usize>>)
    requires
        max_total_offset(max_request_pages) + PER_PAGE_SIZE <= usize::MAX,
    ensures
        pages_fetched(0, max_request_pages, answers) <= max_request_pages + 1,
{
    lemma_pages_fetched(0, max_request_pages, answers);
}

proof fn lemma_pages_fetched(offset: usize, max_request_pages: usize, answers: Seq<Option<usize>>)
    requires
        offset <= max_total_offset(max_request_pages),
        max_total_offset(max_request_pages) + PER_PAGE_SIZE <= usize::MAX,
    ensures
        pages_fetched(offset, max_request_pages, answers) * PER_PAGE_SIZE <= max_total_offset(
            max_request_pages,
        ) - offset + PER_PAGE_SIZE,
    decreases answers.len(),
{
    if answers.len() > 0 {
        match page_step(offset, max_request_pages, answers[0]) {
            PageStep::Continue { next_offset } => {
                lemma_pages_fetched(next_offset, max_request_pages, answers.drop_first());
            },
            _ => {},
        }
    }
}

} // verus!
