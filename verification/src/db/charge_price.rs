//! Prices of tariffs at operators: the import state and the grouping of
//! price cards by current.
use vstd::prelude::*;

use crate::db::plug::ChargeType;

verus! {

/// Whether a price import is running.
#[derive(Debug, Clone, Copy, PartialEq, Eq, Structural)]
pub enum ImportStatus {
    Waiting,
    InProgress,
}

/// The status of an import: in progress while the import lock is held.
pub open spec fn status_of(in_progress: bool) -> ImportStatus {
    if in_progress {
        ImportStatus::InProgress
    } else {
        ImportStatus::Waiting
    }
}

impl From<bool> for ImportStatus {
    fn from(value: bool) -> (r: Self) {
        match value {
            true => Self::InProgress,
            false => Self::Waiting,
        }
    }
}

impl vstd::std_specs::convert::FromSpecImpl<bool> for ImportStatus {
    open spec fn obeys_from_spec() -> bool {
        true
    }

    open spec fn from_spec(value: bool) -> ImportStatus {
        status_of(value)
    }
}

/// The items of `cards` whose charge type is `c`, in their order.
pub open spec fn cards_of<T>(cards: Seq<(ChargeType, T)>, c: ChargeType) -> Seq<T>
    decreases cards.len(),
{
    if cards.len() == 0 {
        Seq::empty()
    } else if cards.last().0 == c {
        cards_of(cards.drop_last(), c).push(cards.last().1)
    } else {
        cards_of(cards.drop_last(), c)
    }
}

proof fn lemma_cards_split<T>(cards: Seq<(ChargeType, T)>)
    ensures
        cards_of(cards, ChargeType::AC).len() + cards_of(cards, ChargeType::DC).len() == cards.len(),
    decreases cards.len(),
{
    if cards.len() > 0 {
        lemma_cards_split(cards.drop_last());
    }
}

/// Splits price cards into those for AC and those for DC, each in the order
/// they came. Every card lands in exactly one of the two lists.
pub fn split_by_charge_type<T>(cards: Vec<(ChargeType, T)>) -> (r: (Vec<T>, Vec<T>))
    ensures
        r.0@ == cards_of(cards@, ChargeType::AC),
        r.1@ == cards_of(cards@, ChargeType::DC),
        r.0@.len() + r.1@.len() == cards@.len(),
{
    let ghost all = cards@;
    let mut rest = cards;
    let mut ac: Vec<T> = Vec::new();
    let mut dc: Vec<T> = Vec::new();
    while rest.len() > 0
        invariant
            all == rest@ + (all.skip(rest@.len() as int)),
            rest@.len() <= all.len(),
            rest@ == all.take(rest@.len() as int),
            cards_of(all, ChargeType::AC) == cards_of(rest@, ChargeType::AC) + ac@,
            cards_of(all, ChargeType::DC) == cards_of(rest@, ChargeType::DC) + dc@,
        decreases rest@.len(),
    {
        let ghost before = rest@;
        let (c, card) = rest.pop().unwrap();
        assert(before.drop_last() == rest@);
        assert(before.last() == (c, card));
        match c {
            ChargeType::AC => {
                ac.insert(0, card);
                assert(cards_of(before, ChargeType::AC) + ac@.drop_first() == cards_of(rest@, ChargeType::AC) + ac@);
            },
            ChargeType::DC => {
                dc.insert(0, card);
                assert(cards_of(before, ChargeType::DC) + dc@.drop_first() == cards_of(rest@, ChargeType::DC) + dc@);
            },
        }
        assert(rest@ == all.take(rest@.len() as int));
    }
    proof {
        lemma_cards_split(all);
    }
    (ac, dc)
}

} // verus!
