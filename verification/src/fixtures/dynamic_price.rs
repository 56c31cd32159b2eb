//! The records that a stored dynamic charge price ties together.
use vstd::prelude::*;

verus! {

/// A dynamic charge price as stored: its id and the location, operator and
/// tariff it belongs to.
#[derive(Debug, Clone, Copy, PartialEq, Eq, Structural)]
pub struct DynamicChargePrice {
    pub dynamic_price_id: i32,
    pub location_id: i64,
    pub operator_id: i32,
    pub tariff_id: i32,
}

} // verus!
