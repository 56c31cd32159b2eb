//! Which links between connectors and prices an import writes.
use vstd::prelude::*;

use crate::text::{owned, texts};

verus! {

/// The ids of the staged prices that a connector is newly linked to, in the
/// order of its pricing ids. For each pricing id the store answers `None`
/// when no staged price has that id, else the id of the staged price and
/// whether the connector is already linked to it.
pub open spec fn new_links(answers: Seq<Option<(String, bool)>>) -> Seq<Seq<char>>
    decreases answers.len(),
{
    if answers.len() == 0 {
        Seq::empty()
    } else {
        let rest = new_links(answers.drop_last());
        match answers.last() {
            Some((id, linked)) => if linked {
                rest
            } else {
                rest.push(id@)
            },
            None => rest,
        }
    }
}

/// The ids of the staged prices that a connector is newly linked to, given
/// whether its location and the connector itself are staged and the store's
/// answers for its pricing ids: nothing unless both are staged, else every
/// staged price it is not linked to yet, in the order of its pricing ids.
pub fn new_price_links(
    location_known: bool,
    connector_known: bool,
    answers: &Vec<Option<(String, bool)>>,
) -> (r: Vec<String>)
    ensures
        !(location_known && connector_known) ==> r@.len() == 0,
        location_known && connector_known ==> texts(r@) == new_links(answers@),
{
    let mut r: Vec<String> = Vec::new();
    if !(location_known && connector_known) {
        return r;
    }
    let n = answers.len();
    let mut i: usize = 0;
    while i < n
        invariant
            n == answers@.len(),
            i <= n,
            texts(r@) == new_links(answers@.take(i as int)),
        decreases n - i,
    {
        assert(answers@.take(i + 1).drop_last() =~= answers@.take(i as int));
        assert(answers@.take(i + 1).last() == answers@[i as int]);
        let ghost before = r@;
        match &answers[i] {
            Some((id, linked)) => {
                if !*linked {
                    r.push(owned(id.as_str()));
                    assert(texts(r@) =~= texts(before).push(id@));
                }
            },
            None => {},
        }
        assert(texts(r@) =~= new_links(answers@.take(i + 1)));
        i += 1;
    }
    assert(answers@.take(n as int) =~= answers@);
    r
}

} // verus!
