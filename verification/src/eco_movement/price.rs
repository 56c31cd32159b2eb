//! Which Eco-Movement prices are imported, and how their durations are
//! brought to minutes.
use vstd::prelude::*;

use crate::eco_movement::response::{ComponentType, Elements, PriceData, Restrictions};
use crate::text::same_text;

verus! {

/// A price that passed the import filter, with the product id it is stored under.
#[derive(Debug)]
pub struct ImportablePrice {
    pub data: PriceData,
    pub product_id: uuid::Uuid,
}

/// The only currency that is imported.
pub open spec fn euro() -> Seq<char> {
    seq!['E', 'U', 'R']
}

/// Whether some element of the price has a flat (one-off) component.
pub open spec fn has_flat_component(p: PriceData) -> bool {
    exists|i: int, j: int|
        0 <= i < p.elements@.len() && 0 <= j < p.elements@[i].price_components@.len()
            && #[trigger] p.elements@[i].price_components@[j].price_type == ComponentType::Flat
}

/// The product id under which a price is imported, or `None` when it is not
/// imported: it needs a product id, the currency euro, and no flat component.
pub open spec fn importable_product(p: PriceData) -> Option<uuid::Uuid> {
    if p.tariff.id is None {
        None
    } else if p.tariff.currency@ != euro() {
        None
    } else if has_flat_component(p) {
        None
    } else {
        p.tariff.id
    }
}

/// Whether element `e` has a flat component.
fn element_has_flat(e: &Elements) -> (r: bool)
    ensures
        r == exists|j: int|
            0 <= j < e.price_components@.len() && #[trigger] e.price_components@[j].price_type
                == ComponentType::Flat,
{
    let n = e.price_components.len();
    let mut j: usize = 0;
    while j < n
        invariant
            n == e.price_components@.len(),
            j <= n,
            forall|k: int| 0 <= k < j ==> #[trigger] e.price_components@[k].price_type != ComponentType::Flat,
        decreases n - j,
    {
        if e.price_components[j].price_type == ComponentType::Flat {
            return true;
        }
        j += 1;
    }
    false
}

/// The product id under which `price` is imported, if it is imported at all.
pub fn is_importable(price: &PriceData) -> (r: Option<uuid::Uuid>)
    ensures
        r == importable_product(*price),
{
    let product_id = match price.tariff.id {
        Some(id) => id,
        None => {
            return None;
        },
    };
    let euro_text = "EUR";
    proof {
        reveal_strlit("EUR");
        assert(euro_text@ == euro());
    }
    if !same_text(price.tariff.currency.as_str(), euro_text) {
        return None;
    }
    let n = price.elements.len();
    let mut i: usize = 0;
    while i < n
        invariant
            n == price.elements@.len(),
            i <= n,
            forall|k: int, j: int|
                0 <= k < i && 0 <= j < price.elements@[k].price_components@.len()
                    ==> #[trigger] price.elements@[k].price_components@[j].price_type
                    != ComponentType::Flat,
        decreases n - i,
    {
        if element_has_flat(&price.elements[i]) {
            return None;
        }
        i += 1;
    }
    assert(!has_flat_component(*price)) by {
        if has_flat_component(*price) {
            let (a, b) = choose|a: int, b: int|
                0 <= a < price.elements@.len() && 0 <= b < price.elements@[a].price_components@.len()
                    && #[trigger] price.elements@[a].price_components@[b].price_type == ComponentType::Flat;
            assert(price.elements@[a].price_components@[b].price_type != ComponentType::Flat);
        }
    }
    Some(product_id)
}

/// Whether the list holds exactly one price whose first component of its first
/// element charges for parking time.
pub open spec fn is_parking_only_singleton(v: Seq<ImportablePrice>) -> bool {
    &&& v.len() == 1
    &&& v[0].data.elements@.len() > 0
    &&& v[0].data.elements@[0].price_components@.len() > 0
    &&& v[0].data.elements@[0].price_components@[0].price_type == ComponentType::ParkingTime
}

/// What is left of a list of prices once a parking-only singleton is dropped.
pub open spec fn after_parking_drop(v: Seq<ImportablePrice>) -> Seq<ImportablePrice> {
    if is_parking_only_singleton(v) {
        Seq::empty()
    } else {
        v
    }
}

/// Dropping a parking-only singleton a second time drops nothing more.
pub proof fn parking_drop_is_idempotent(v: Seq<ImportablePrice>)
    ensures
        after_parking_drop(after_parking_drop(v)) == after_parking_drop(v),
{
}

/// Empties the list when it holds a single price that starts with a parking
/// component; otherwise leaves it as it is.
pub fn drop_parking_only_singleton(filtered: &mut Vec<ImportablePrice>)
    ensures
        final(filtered)@ == after_parking_drop(old(filtered)@),
{
    if filtered.len() == 1 {
        let first = &filtered[0];
        if first.data.elements.len() > 0 {
            let element = &first.data.elements[0];
            if element.price_components.len() > 0 && element.price_components[0].price_type
                == ComponentType::ParkingTime {
                filtered.clear();
            }
        }
    }
}

/// The prices of `prices` that are imported, in their order, each with its
/// product id.
pub open spec fn importable_entries(prices: Seq<PriceData>) -> Seq<ImportablePrice>
    decreases prices.len(),
{
    if prices.len() == 0 {
        Seq::empty()
    } else {
        let rest = importable_entries(prices.drop_last());
        match importable_product(prices.last()) {
            Some(id) => rest.push(ImportablePrice { data: prices.last(), product_id: id }),
            None => rest,
        }
    }
}

/// The prices of one page of the feed that are imported: those that pass
/// `is_importable`, in their order and with their product ids, unless what
/// is left is a single parking-only price.
pub fn select_importable(prices: Vec<PriceData>) -> (r: Vec<ImportablePrice>)
    ensures
        r@ == after_parking_drop(importable_entries(prices@)),
{
    let ghost all = prices@;
    let mut rest = prices;
    let mut kept: Vec<ImportablePrice> = Vec::new();
    while rest.len() > 0
        invariant
            rest@.len() <= all.len(),
            rest@ == all.take(rest@.len() as int),
            importable_entries(all) == importable_entries(rest@) + kept@,
        decreases rest@.len(),
    {
        let ghost before = rest@;
        let price = rest.pop().unwrap();
        assert(before.drop_last() == rest@);
        assert(before.last() == price);
        match is_importable(&price) {
            Some(product_id) => {
                kept.insert(0, ImportablePrice { data: price, product_id });
                assert(importable_entries(before) + kept@.drop_first() == importable_entries(rest@)
                    + kept@);
            },
            None => {},
        }
        assert(rest@ == all.take(rest@.len() as int));
    }
    assert(all.take(0) =~= Seq::<PriceData>::empty());
    assert(importable_entries(all) =~= kept@);
    drop_parking_only_singleton(&mut kept);
    kept
}

/// The minimum duration in minutes: a value above 900 is taken to be seconds
/// and divided by 60, any other value stays.
pub open spec fn normalized_min_duration(m: Option<u32>) -> Option<u32> {
    match m {
        Some(d) => if d > 900 {
            Some((d / 60) as u32)
        } else {
            Some(d)
        },
        None => None,
    }
}

/// Restrictions with their minimum duration normalised.
pub open spec fn normalized_restrictions(r: Option<Restrictions>) -> Option<Restrictions> {
    match r {
        Some(x) => Some(
            Restrictions {
                min_duration: normalized_min_duration(x.min_duration),
                max_duration: x.max_duration,
                start_date: x.start_date,
                end_date: x.end_date,
                start_time: x.start_time,
                end_time: x.end_time,
                day_of_week: x.day_of_week,
                min_power: x.min_power,
                max_power: x.max_power,
            },
        ),
        None => None,
    }
}

/// An element with its restrictions normalised and its components unchanged.
pub open spec fn normalized_element(e: Elements) -> Elements {
    Elements { price_components: e.price_components, restrictions: normalized_restrictions(e.restrictions) }
}

/// Brings the minimum durations of all elements of `price` to minutes; every
/// other field stays as it is. The durations are the integer half of the
/// normalisation: parking prices above 0.95 per unit are per hour and are
/// divided by 60 too, but they are floats, carried here only as their bit
/// patterns, and that division is left to the caller.
pub fn normalize_durations(price: &mut PriceData)
    ensures
        final(price).id == old(price).id,
        final(price).provider_name == old(price).provider_name,
        final(price).tariff == old(price).tariff,
        final(price).elements@.len() == old(price).elements@.len(),
        forall|i: int|
            0 <= i < old(price).elements@.len() ==> #[trigger] final(price).elements@[i]
                == normalized_element(old(price).elements@[i]),
{
    let n = price.elements.len();
    let mut i: usize = 0;
    while i < n
        invariant
            n == price.elements@.len(),
            n == old(price).elements@.len(),
            i <= n,
            price.id == old(price).id,
            price.provider_name == old(price).provider_name,
            price.tariff == old(price).tariff,
            forall|k: int| 0 <= k < i ==> #[trigger] price.elements@[k] == normalized_element(old(price).elements@[k]),
            forall|k: int| i <= k < n ==> #[trigger] price.elements@[k] == old(price).elements@[k],
        decreases n - i,
    {
        let element = &mut price.elements[i];
        if let Some(restrictions) = &mut element.restrictions {
            if let Some(min_duration) = restrictions.min_duration {
                if min_duration > 900 {
                    restrictions.min_duration = Some(min_duration / 60);
                }
            }
        }
        i += 1;
    }
}

/// A price is imported exactly when it has a product id, is in euro, and no
/// component of any of its elements is a flat fee; it is imported under its
/// product id.
pub proof fn import_selects_euro_prices_without_flat_fees(p: PriceData)
    ensures
        (exists|i: int, j: int|
            0 <= i < p.elements@.len() && 0 <= j < p.elements@[i].price_components@.len()
                && #[trigger] p.elements@[i].price_components@[j].price_type == ComponentType::Flat)
            ==> importable_product(p) is None,
        p.tariff.id is None ==> importable_product(p) is None,
        p.tariff.currency@ != seq!['E', 'U', 'R'] ==> importable_product(p) is None,
        importable_product(p) matches Some(id) ==> p.tariff.id == Some(id),
        (p.tariff.id is Some && p.tariff.currency@ == seq!['E', 'U', 'R'] && forall|i: int, j: int|
            0 <= i < p.elements@.len() && 0 <= j < p.elements@[i].price_components@.len()
                ==> #[trigger] p.elements@[i].price_components@[j].price_type != ComponentType::Flat)
            ==> importable_product(p) == p.tariff.id,
{
}

} // verus!
