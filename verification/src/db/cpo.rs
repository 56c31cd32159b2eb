//! Charge point operators of the legacy listing.
use vstd::prelude::*;

use crate::db::operator::type_names;
use crate::db::plug::{charge_type_name, ChargeType};
use crate::text::texts;

verus! {

/// A charge point operator of the legacy listing. `updated` is in seconds
/// since the epoch.
#[derive(Debug)]
pub struct CPO {
    pub id: i32,
    pub network: uuid::Uuid,
    pub pub_network: uuid::Uuid,
    pub is_enabled: bool,
    pub slug_name: String,
    pub name: String,
    pub hide: bool,
    pub supported_types: Vec<ChargeType>,
    pub updated: i64,
    pub power_ac: i32,
    pub power_dc: i32,
    pub url: Option<String>,
}

impl CPO {
    /// The names of the operator's supported charge types, as they are stored.
    pub fn supported_type_names(&self) -> (r: Vec<String>)
        ensures
            texts(r@) == type_names(self.supported_types@),
    {
        let mut names: Vec<String> = Vec::new();
        let n = self.supported_types.len();
        let mut i: usize = 0;
        while i < n
            invariant
                n == self.supported_types@.len(),
                i <= n,
                names@.len() == i,
                forall|k: int| 0 <= k < i ==> #[trigger] names@[k]@ == charge_type_name(self.supported_types@[k]),
            decreases n - i,
        {
            let t = self.supported_types[i];
            names.push(t.to_string());
            i += 1;
        }
        assert(texts(names@) =~= type_names(self.supported_types@));
        names
    }
}

/// Charging power metadata of a charge point operator.
#[derive(Debug, Clone, Copy, PartialEq, Eq, Structural)]
pub struct Meta {
    pub power: i32,
}

/// Which charge point operators a listing shows.
#[derive(Debug, Clone, Copy, PartialEq, Eq, Structural)]
pub enum Filter {
    All,
    Enabled,
    Disabled,
}

/// Whether a listing with this filter shows an operator whose enabled flag is
/// `enabled`.
pub open spec fn cpo_filter_keeps(f: Filter, enabled: bool) -> bool {
    match f {
        Filter::All => true,
        Filter::Enabled => enabled,
        Filter::Disabled => !enabled,
    }
}

impl Filter {
    /// Whether the listing shows an operator whose enabled flag is `enabled`.
    pub fn keeps(&self, enabled: bool) -> (r: bool)
        ensures
            r == cpo_filter_keeps(*self, enabled),
    {
        match self {
            Filter::All => true,
            Filter::Enabled => enabled,
            Filter::Disabled => !enabled,
        }
    }
}

/// An operator as the first version of the listing shows it.
#[derive(Debug)]
pub struct Operator {
    pub name: String,
    pub identifier: String,
    pub display_name: String,
}

/// Whether the operators without prices are hidden: not when they are all the
/// enabled operators there are, so that the listing never turns empty.
pub fn should_hide_inactive(enabled_count: usize, inactive_count: usize) -> (r: bool)
    ensures
        r == (enabled_count != inactive_count),
{
    enabled_count != inactive_count
}

/// The operators of `cpos` that a listing with `filter` shows, in their order.
pub open spec fn listed_cpos(cpos: Seq<CPO>, filter: Filter) -> Seq<CPO>
    decreases cpos.len(),
{
    if cpos.len() == 0 {
        Seq::empty()
    } else if cpo_filter_keeps(filter, cpos.last().is_enabled) {
        listed_cpos(cpos.drop_last(), filter).push(cpos.last())
    } else {
        listed_cpos(cpos.drop_last(), filter)
    }
}

/// The operators that a listing with `filter` shows, in their order.
pub fn filter_cpos(cpos: Vec<CPO>, filter: Filter) -> (r: Vec<CPO>)
    ensures
        r@ == listed_cpos(cpos@, filter),
{
    let ghost all = cpos@;
    let mut rest = cpos;
    let mut kept: Vec<CPO> = Vec::new();
    while rest.len() > 0
        invariant
            rest@.len() <= all.len(),
            rest@ == all.take(rest@.len() as int),
            listed_cpos(all, filter) == listed_cpos(rest@, filter) + kept@,
        decreases rest@.len(),
    {
        let ghost before = rest@;
        let cpo = rest.pop().unwrap();
        assert(before.drop_last() == rest@);
        assert(before.last() == cpo);
        if filter.keeps(cpo.is_enabled) {
            kept.insert(0, cpo);
            assert(listed_cpos(before, filter) + kept@.drop_first() == listed_cpos(rest@, filter) + kept@);
        }
        assert(rest@ == all.take(rest@.len() as int));
    }
    assert(all.take(0) =~= Seq::<CPO>::empty());
    assert(listed_cpos(all, filter) =~= kept@);
    kept
}

/// Every operator is in exactly one of the listings of enabled and disabled
/// operators, and the full listing holds them all.
pub proof fn cpo_listings_partition(cpos: Seq<CPO>)
    ensures
        listed_cpos(cpos, Filter::All) == cpos,
        listed_cpos(cpos, Filter::Enabled).len() + listed_cpos(cpos, Filter::Disabled).len()
            == cpos.len(),
    decreases cpos.len(),
{
    if cpos.len() > 0 {
        cpo_listings_partition(cpos.drop_last());
        assert(cpos.drop_last().push(cpos.last()) == cpos);
    }
}

} // verus!
