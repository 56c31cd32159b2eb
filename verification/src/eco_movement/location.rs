//! Which charging locations and connectors are taken over from Eco-Movement.
use vstd::prelude::*;

use crate::eco_movement::response::{
    Connector, ConnectorType, Evse, LocationData, LocationType, RestrictionType,
};
use crate::text::same_text;

verus! {

/// The only country whose locations are imported (ISO 3166 alpha-3).
pub open spec fn germany() -> Seq<char> {
    "DEU"@
}

/// Whether the restrictions of a location let it be imported: none given, or
/// each one a customer or time restriction.
pub open spec fn restrictions_allow(r: Option<Vec<RestrictionType>>) -> bool {
    match r {
        None => true,
        Some(v) => forall|i: int|
            0 <= i < v@.len() ==> allowed_restriction(#[trigger] v@[i]),
    }
}

/// Whether a restriction still lets a location be imported.
pub open spec fn allowed_restriction(r: RestrictionType) -> bool {
    r == RestrictionType::Customers || r == RestrictionType::TimeRestricted
}

/// Whether a location is imported: it lies in Germany, its restrictions allow
/// it, its kind is known, and it names its operator (a location without one
/// is skipped).
pub open spec fn location_importable(l: LocationData) -> bool {
    &&& l.country@ == germany()
    &&& restrictions_allow(l.restrictions)
    &&& l.location_type != LocationType::Other
    &&& l.operator is Some
}

/// Whether a connector is imported: its plug standard is known.
pub open spec fn connector_importable(c: Connector) -> bool {
    c.connector_type != ConnectorType::Other
}

impl LocationData {
    /// Whether the location is imported.
    pub fn is_importable(&self) -> (r: bool)
        ensures
            r == location_importable(*self),
    {
        let deu = "DEU";
        if !same_text(self.country.as_str(), deu) {
            return false;
        }
        match &self.restrictions {
            None => {},
            Some(restrictions) => {
                let n = restrictions.len();
                let mut i: usize = 0;
                while i < n
                    invariant
                        n == restrictions@.len(),
                        self.restrictions == Some(*restrictions),
                        i <= n,
                        forall|k: int| 0 <= k < i ==> allowed_restriction(#[trigger] restrictions@[k]),
                    decreases n - i,
                {
                    let r = restrictions[i];
                    if !(r == RestrictionType::Customers || r == RestrictionType::TimeRestricted) {
                        assert(!allowed_restriction(restrictions@[i as int]));
                        assert(!allowed_restriction((self.restrictions->0)@[i as int]));
                        return false;
                    }
                    i += 1;
                }
            },
        }
        self.location_type != LocationType::Other && self.operator.is_some()
    }
}

impl Connector {
    /// Whether the connector is imported.
    pub fn is_importable(&self) -> (r: bool)
        ensures
            r == connector_importable(*self),
    {
        self.connector_type != ConnectorType::Other
    }
}

/// The positions of the locations that are imported, in ascending order.
pub fn importable_locations(locations: &Vec<LocationData>) -> (r: Vec<usize>)
    ensures
        forall|k: int| 0 <= k < r@.len() ==> #[trigger] r@[k] < locations@.len(),
        forall|k: int| 0 <= k < r@.len() ==> location_importable(locations@[#[trigger] r@[k] as int]),
        forall|k: int, m: int| 0 <= k < m < r@.len() ==> #[trigger] r@[k] < #[trigger] r@[m],
        forall|i: int|
            0 <= i < locations@.len() && location_importable(#[trigger] locations@[i])
                ==> r@.contains(i as usize),
{
    let n = locations.len();
    let mut r: Vec<usize> = Vec::new();
    let mut i: usize = 0;
    while i < n
        invariant
            n == locations@.len(),
            i <= n,
            forall|k: int| 0 <= k < r@.len() ==> #[trigger] r@[k] < i,
            forall|k: int| 0 <= k < r@.len() ==> location_importable(locations@[#[trigger] r@[k] as int]),
            forall|k: int, m: int| 0 <= k < m < r@.len() ==> #[trigger] r@[k] < #[trigger] r@[m],
            forall|j: int|
                0 <= j < i && location_importable(#[trigger] locations@[j]) ==> r@.contains(j as usize),
        decreases n - i,
    {
        if locations[i].is_importable() {
            let ghost before = r@;
            r.push(i);
            assert forall|j: int|
                0 <= j < i + 1 && location_importable(#[trigger] locations@[j]) implies r@.contains(
                j as usize,
            ) by {
                if j < i {
                    let w = choose|w: int| 0 <= w < before.len() && before[w] == j as usize;
                    assert(r@[w] == j as usize);
                } else {
                    assert(r@[before.len() as int] == i);
                }
            }
        }
        i += 1;
    }
    r
}

/// The positions of the connectors of an EVSE that are imported, in
/// ascending order.
pub fn importable_connectors(evse: &Evse) -> (r: Vec<usize>)
    ensures
        forall|k: int| 0 <= k < r@.len() ==> #[trigger] r@[k] < evse.connectors@.len(),
        forall|k: int| 0 <= k < r@.len() ==> connector_importable(evse.connectors@[#[trigger] r@[k] as int]),
        forall|k: int, m: int| 0 <= k < m < r@.len() ==> #[trigger] r@[k] < #[trigger] r@[m],
        forall|i: int|
            0 <= i < evse.connectors@.len() && connector_importable(#[trigger] evse.connectors@[i])
                ==> r@.contains(i as usize),
{
    let n = evse.connectors.len();
    let mut r: Vec<usize> = Vec::new();
    let mut i: usize = 0;
    while i < n
        invariant
            n == evse.connectors@.len(),
            i <= n,
            forall|k: int| 0 <= k < r@.len() ==> #[trigger] r@[k] < i,
            forall|k: int| 0 <= k < r@.len() ==> connector_importable(evse.connectors@[#[trigger] r@[k] as int]),
            forall|k: int, m: int| 0 <= k < m < r@.len() ==> #[trigger] r@[k] < #[trigger] r@[m],
            forall|j: int|
                0 <= j < i && connector_importable(#[trigger] evse.connectors@[j]) ==> r@.contains(j as usize),
        decreases n - i,
    {
        if evse.connectors[i].is_importable() {
            let ghost before = r@;
            r.push(i);
            assert forall|j: int|
                0 <= j < i + 1 && connector_importable(#[trigger] evse.connectors@[j]) implies r@.contains(
                j as usize,
            ) by {
                if j < i {
                    let w = choose|w: int| 0 <= w < before.len() && before[w] == j as usize;
                    assert(r@[w] == j as usize);
                } else {
                    assert(r@[before.len() as int] == i);
                }
            }
        }
        i += 1;
    }
    r
}

/// A location is imported exactly when it lies in Germany (`DEU`), its kind
/// is known, it names its operator, and each of its restrictions, if it has
/// any, is a customer or a time restriction.
pub proof fn imported_locations_are_german_and_open(l: LocationData)
    ensures
        location_importable(l) <==> {
            &&& l.country@ == seq!['D', 'E', 'U']
            &&& l.location_type != LocationType::Other
            &&& l.operator is Some
            &&& (l.restrictions matches Some(v) ==> forall|i: int|
                0 <= i < v@.len() ==> (#[trigger] v@[i] == RestrictionType::Customers || v@[i]
                    == RestrictionType::TimeRestricted))
        },
{
    reveal_strlit("DEU");
    assert(germany() =~= seq!['D', 'E', 'U']);
}

} // verus!
