//! Charge point operators: their internal names and the listing filter.
use vstd::prelude::*;

use crate::db::plug::{charge_type_name, ChargeType};
use crate::db::tariff::{strip_matches, stripped};
use crate::text::{lowercased, owned, texts, to_lowercase};

verus! {

/// Charging power metadata of an operator.
#[derive(Debug, Clone, Copy, PartialEq, Eq, Structural)]
pub struct Meta {
    pub power: i32,
}

/// Which operators a listing shows.
#[derive(Debug, Clone, Copy, PartialEq, Eq, Structural)]
pub enum Filter {
    All,
    Enabled,
    Disabled,
}

/// Whether a listing with this filter shows an operator whose standard flag is
/// `standard`.
pub open spec fn filter_keeps(f: Filter, standard: bool) -> bool {
    match f {
        Filter::All => true,
        Filter::Enabled => standard,
        Filter::Disabled => !standard,
    }
}

impl Filter {
    /// Whether the listing shows an operator whose standard flag is `standard`.
    pub fn keeps(&self, standard: bool) -> (r: bool)
        ensures
            r == filter_keeps(*self, standard),
    {
        match self {
            Filter::All => true,
            Filter::Enabled => standard,
            Filter::Disabled => !standard,
        }
    }
}

/// The characters that internal operator names keep are those this class
/// does not match.
pub open spec fn internal_operator_pattern() -> Seq<char> {
    "[^A-Za-z0-9.+-]"@
}

/// The internal name of an operator: its name without the characters outside
/// letters, digits, `.`, `+` and `-`, lower-cased.
pub open spec fn internal_operator_name(slug_name: Seq<char>) -> Seq<char> {
    lowercased(stripped(internal_operator_pattern(), slug_name))
}

/// The internal name of an operator called `slug_name`.
pub fn normalize_internal_name(slug_name: &str) -> (r: String)
    ensures
        r@ == internal_operator_name(slug_name@),
{
    let stripped_name = strip_matches("[^A-Za-z0-9.+-]", slug_name);
    to_lowercase(stripped_name.as_str())
}

/// An operator as the admin pages edit it. `updated` is in seconds since the
/// epoch.
#[derive(Debug)]
pub struct AdminOperator {
    pub id: i32,
    pub network: uuid::Uuid,
    pub pub_network: uuid::Uuid,
    pub standard: bool,
    pub slug_name: String,
    pub name: String,
    pub hide: bool,
    pub supported_types: Vec<ChargeType>,
    pub updated: i64,
    pub power_ac: i32,
    pub power_dc: i32,
    pub sum_plug_count: i32,
    pub ccs_plug_count: i32,
    pub type2_plug_count: i32,
    pub image: Option<i32>,
    pub url: Option<String>,
}

/// Whether two operators agree on everything but their names, link and
/// update time.
pub open spec fn same_but_names(a: AdminOperator, b: AdminOperator) -> bool {
    &&& a.id == b.id
    &&& a.network == b.network
    &&& a.pub_network == b.pub_network
    &&& a.standard == b.standard
    &&& a.hide == b.hide
    &&& a.supported_types == b.supported_types
    &&& a.power_ac == b.power_ac
    &&& a.power_dc == b.power_dc
    &&& a.sum_plug_count == b.sum_plug_count
    &&& a.ccs_plug_count == b.ccs_plug_count
    &&& a.type2_plug_count == b.type2_plug_count
    &&& a.image == b.image
}

/// The names of charge types as they are stored.
pub open spec fn type_names(types: Seq<ChargeType>) -> Seq<Seq<char>> {
    types.map_values(|t: ChargeType| charge_type_name(t))
}

impl AdminOperator {
    /// Gets the operator ready to be written: its internal name is derived
    /// from its display name. Returns the names of its supported charge types.
    pub fn prepare_update(&mut self) -> (r: Vec<String>)
        ensures
            final(self).name@ == internal_operator_name(old(self).slug_name@),
            final(self).slug_name == old(self).slug_name,
            final(self).url == old(self).url,
            final(self).updated == old(self).updated,
            same_but_names(*final(self), *old(self)),
            texts(r@) == type_names(old(self).supported_types@),
    {
        let mut names: Vec<String> = Vec::new();
        let n = self.supported_types.len();
        let mut i: usize = 0;
        while i < n
            invariant
                n == self.supported_types@.len(),
                i <= n,
                names@.len() == i,
                forall|k: int| 0 <= k < i ==> #[trigger] names@[k]@ == charge_type_name(self.supported_types@[k]),
            decreases n - i,
        {
            let t = self.supported_types[i];
            names.push(t.to_string());
            i += 1;
        }
        assert(texts(names@) =~= type_names(self.supported_types@));
        self.name = normalize_internal_name(self.slug_name.as_str());
        names
    }

    /// Takes over what the price service tells of the operator's company: its
    /// link and update time always, its name only when the operator is not a
    /// standard operator, whose name is kept as it was edited.
    pub fn take_company(&mut self, company_name: &str, company_url: Option<String>, updated_at: i64)
        ensures
            final(self).url == company_url,
            final(self).updated == updated_at,
            same_but_names(*final(self), *old(self)),
            !old(self).standard ==> final(self).name@ == internal_operator_name(company_name@)
                && final(self).slug_name@ == company_name@,
            old(self).standard ==> final(self).name == old(self).name && final(self).slug_name
                == old(self).slug_name,
    {
        self.url = company_url;
        if !self.standard {
            self.name = normalize_internal_name(company_name);
            self.slug_name = owned(company_name);
        }
        self.updated = updated_at;
    }
}

/// The operators of `ops` that a listing with `filter` shows, in their order.
pub open spec fn listed(ops: Seq<AdminOperator>, filter: Filter) -> Seq<AdminOperator>
    decreases ops.len(),
{
    if ops.len() == 0 {
        Seq::empty()
    } else if filter_keeps(filter, ops.last().standard) {
        listed(ops.drop_last(), filter).push(ops.last())
    } else {
        listed(ops.drop_last(), filter)
    }
}

/// The operators that a listing with `filter` shows, in their order.
pub fn filter_operators(ops: Vec<AdminOperator>, filter: Filter) -> (r: Vec<AdminOperator>)
    ensures
        r@ == listed(ops@, filter),
{
    let ghost all = ops@;
    let mut rest = ops;
    let mut kept: Vec<AdminOperator> = Vec::new();
    while rest.len() > 0
        invariant
            rest@.len() <= all.len(),
            rest@ == all.take(rest@.len() as int),
            listed(all, filter) == listed(rest@, filter) + kept@,
        decreases rest@.len(),
    {
        let ghost before = rest@;
        let op = rest.pop().unwrap();
        assert(before.drop_last() == rest@);
        assert(before.last() == op);
        if filter.keeps(op.standard) {
            kept.insert(0, op);
            assert(listed(before, filter) + kept@.drop_first() == listed(rest@, filter) + kept@);
        }
        assert(rest@ == all.take(rest@.len() as int));
    }
    assert(all.take(0) =~= Seq::<AdminOperator>::empty());
    assert(listed(all, filter) =~= kept@);
    kept
}

/// Every operator is in exactly one of the listings of standard and other
/// operators, and the full listing holds them all.
pub proof fn listings_partition(ops: Seq<AdminOperator>)
    ensures
        listed(ops, Filter::All) == ops,
        listed(ops, Filter::Enabled).len() + listed(ops, Filter::Disabled).len() == ops.len(),
    decreases ops.len(),
{
    if ops.len() > 0 {
        listings_partition(ops.drop_last());
        assert(ops.drop_last().push(ops.last()) == ops);
    }
}

} // verus!
