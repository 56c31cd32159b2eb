//! Charge types and plugs as the legacy price records use them.
use vstd::prelude::*;

use crate::text::owned;

verus! {

/// The current a legacy price applies to.
#[derive(Debug, Clone, Copy, PartialEq, Eq, PartialOrd, Ord, Structural)]
pub enum ChargeType {
    AC,
    DC,
}

/// A plug standard of the legacy price records.
#[derive(Debug, Clone, Copy, PartialEq, Eq, PartialOrd, Ord, Structural)]
pub enum Plug {
    TYPE2,
    CCS,
}

/// The charge type that a plug delivers: Type 2 charges AC, CCS charges DC.
pub open spec fn legacy_charge_type_of(p: Plug) -> ChargeType {
    match p {
        Plug::TYPE2 => ChargeType::AC,
        Plug::CCS => ChargeType::DC,
    }
}

/// The name that a legacy plug prints as.
pub open spec fn legacy_plug_name(p: Plug) -> Seq<char> {
    match p {
        Plug::TYPE2 => "TYPE2"@,
        Plug::CCS => "CCS"@,
    }
}

impl Plug {
    /// The name of the plug (`TYPE2` or `CCS`).
    pub fn to_string(&self) -> (r: String)
        ensures
            r@ == legacy_plug_name(*self),
    {
        match self {
            Plug::TYPE2 => owned("TYPE2"),
            Plug::CCS => owned("CCS"),
        }
    }
}

impl From<Plug> for ChargeType {
    fn from(p: Plug) -> (r: Self) {
        match p {
            Plug::TYPE2 => ChargeType::AC,
            Plug::CCS => ChargeType::DC,
        }
    }
}

impl vstd::std_specs::convert::FromSpecImpl<Plug> for ChargeType {
    open spec fn obeys_from_spec() -> bool {
        true
    }

    open spec fn from_spec(p: Plug) -> ChargeType {
        legacy_charge_type_of(p)
    }
}

} // verus!
