//! Charging currents and plug standards.
use vstd::prelude::*;

use crate::text::{owned, same_text};

verus! {

/// The current a tariff price applies to.
#[derive(Debug, Clone, Copy, PartialEq, Eq, Hash, Structural)]
pub enum ChargeType {
    AC,
    DC,
}

/// The name of a charge type, as its `Debug` and `Display` forms print it.
pub open spec fn charge_type_name(c: ChargeType) -> Seq<char> {
    match c {
        ChargeType::AC => "AC"@,
        ChargeType::DC => "DC"@,
    }
}

impl ChargeType {
    /// The name of the charge type (`AC` or `DC`).
    pub fn as_str(&self) -> (r: &'static str)
        ensures
            r@ == charge_type_name(*self),
    {
        match self {
            ChargeType::AC => "AC",
            ChargeType::DC => "DC",
        }
    }

    /// The name of the charge type as an owned string.
    pub fn to_string(&self) -> (r: String)
        ensures
            r@ == charge_type_name(*self),
    {
        owned(self.as_str())
    }
}

/// A plug standard.
#[derive(Debug, Clone, Copy, PartialEq, Eq, PartialOrd, Ord, Structural)]
pub enum Plug {
    TYPE2,
    CCS,
}

/// The plug that a lower-case plug name stands for.
pub open spec fn plug_named(s: Seq<char>) -> Result<Plug, ()> {
    if s == "type2"@ {
        Ok(Plug::TYPE2)
    } else if s == "ccs"@ {
        Ok(Plug::CCS)
    } else {
        Err(())
    }
}

/// The charge type that a plug delivers: Type 2 charges AC, CCS charges DC.
pub open spec fn charge_type_of(p: Plug) -> ChargeType {
    match p {
        Plug::TYPE2 => ChargeType::AC,
        Plug::CCS => ChargeType::DC,
    }
}

/// The name that a plug prints as.
pub open spec fn plug_name(p: Plug) -> Seq<char> {
    match p {
        Plug::TYPE2 => "TYPE2"@,
        Plug::CCS => "CCS"@,
    }
}

impl Plug {
    /// The plug that `s` names: `type2` or `ccs`, exactly.
    pub fn parse(s: &str) -> (r: Result<Plug, ()>)
        ensures
            r == plug_named(s@),
    {
        if same_text(s, "type2") {
            Ok(Plug::TYPE2)
        } else if same_text(s, "ccs") {
            Ok(Plug::CCS)
        } else {
            Err(())
        }
    }

    /// The name of the plug (`TYPE2` or `CCS`).
    pub fn to_string(&self) -> (r: String)
        ensures
            r@ == plug_name(*self),
    {
        match self {
            Plug::TYPE2 => owned("TYPE2"),
            Plug::CCS => owned("CCS"),
        }
    }

    /// The charge type that the plug delivers.
    pub fn charge_type(&self) -> (r: ChargeType)
        ensures
            r == charge_type_of(*self),
    {
        match self {
            Plug::TYPE2 => ChargeType::AC,
            Plug::CCS => ChargeType::DC,
        }
    }
}

impl std::str::FromStr for Plug {
    type Err = ();

    fn from_str(s: &str) -> (r: Result<Self, Self::Err>)
        ensures
            r == plug_named(s@),
    {
        Plug::parse(s)
    }
}

impl<'a> From<&'a Plug> for ChargeType {
    fn from(p: &'a Plug) -> (r: Self) {
        p.charge_type()
    }
}

impl<'a> vstd::std_specs::convert::FromSpecImpl<&'a Plug> for ChargeType {
    open spec fn obeys_from_spec() -> bool {
        true
    }

    open spec fn from_spec(p: &'a Plug) -> ChargeType {
        charge_type_of(*p)
    }
}

} // verus!
