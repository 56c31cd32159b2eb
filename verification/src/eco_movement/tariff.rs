//! Tariffs as they are taken over from Eco-Movement.
use vstd::prelude::*;

use crate::eco_movement::response::TariffType;
use crate::pattern::{any_pattern_finds, matches_any};

verus! {

/// The patterns whose case-insensitive match marks a staged tariff as one
/// that only customers can get: those of the provider tariffs, and `audi`
/// for the charging service of the car maker.
pub open spec fn staging_customer_only_pattern_texts() -> Seq<Seq<char>> {
    seq!["privat"@, "kunde"@, "business"@, "bestand"@, "profi"@, "plus"@, "audi"@]
}

/// Whether a text of a staged tariff marks it as customer-only.
pub open spec fn is_customer_only_text(t: Seq<char>) -> bool {
    any_pattern_finds(staging_customer_only_pattern_texts(), t)
}

/// Whether `text` marks a staged tariff as customer-only.
pub fn matches_customer_only(text: &str) -> (r: bool)
    ensures
        r == is_customer_only_text(text@),
{
    let patterns = vec!["privat", "kunde", "business", "bestand", "profi", "plus", "audi"];
    assert(patterns@.map_values(|p: &str| p@) =~= staging_customer_only_pattern_texts());
    matches_any(&patterns, text)
}

/// How a subscription fee compares with zero: `NotPositive` when the fee
/// compares less than or equal to zero, `Positive` otherwise (a fee that
/// compares with nothing counts as `Positive`).
#[derive(Debug, Clone, Copy, PartialEq, Eq, Structural)]
pub enum FeeSign {
    NotPositive,
    Positive,
}

/// A tariff of the staging tables, with the fields that decide how it is shown.
#[derive(Debug)]
pub struct EcoTariff {
    pub network: uuid::Uuid,
    pub name: String,
    pub description: Option<String>,
    pub tariff_type: TariffType,
    pub provider_name: String,
    pub subscription_fee: Option<FeeSign>,
}

/// Whether a tariff with this fee may be a standard tariff: no fee at all, or
/// one of at most zero.
pub open spec fn fee_allows_standard(fee: Option<FeeSign>) -> bool {
    match fee {
        None => true,
        Some(FeeSign::NotPositive) => true,
        Some(FeeSign::Positive) => false,
    }
}

/// Whether the description, the name or the provider of a tariff marks it as
/// bound to customers.
pub open spec fn eco_tariff_customer_only(t: EcoTariff) -> bool {
    ||| (t.description matches Some(d) && is_customer_only_text(d@))
    ||| is_customer_only_text(t.name@)
    ||| is_customer_only_text(t.provider_name@)
}

/// Whether a staged tariff is shown as a standard tariff.
pub open spec fn eco_tariff_standard(t: EcoTariff) -> bool {
    fee_allows_standard(t.subscription_fee) && !eco_tariff_customer_only(t)
}

/// A standard tariff is never one bound to customers, and never one with a
/// positive subscription fee.
pub proof fn standard_tariffs_are_open_and_free(t: EcoTariff)
    requires
        eco_tariff_standard(t),
    ensures
        !eco_tariff_customer_only(t),
        t.subscription_fee != Some(FeeSign::Positive),
{
}

impl EcoTariff {
    /// Whether the tariff is an ad-hoc tariff.
    pub fn is_ad_hoc(&self) -> (r: bool)
        ensures
            r == (self.tariff_type == TariffType::Adhoc),
    {
        self.tariff_type == TariffType::Adhoc
    }

    /// Whether the tariff is a standard tariff: free of subscription fee and
    /// not bound to customers.
    pub fn is_standard(&self) -> (r: bool)
        ensures
            r == eco_tariff_standard(*self),
    {
        let fee_ok = match self.subscription_fee {
            None => true,
            Some(FeeSign::NotPositive) => true,
            Some(FeeSign::Positive) => false,
        };
        fee_ok && !self.is_customer_only()
    }

    /// Whether the tariff is only for customers of its provider.
    pub fn is_customer_only(&self) -> (r: bool)
        ensures
            r == eco_tariff_customer_only(*self),
    {
        if let Some(desc) = &self.description {
            if matches_customer_only(desc.as_str()) {
                return true;
            }
        }
        matches_customer_only(self.name.as_str()) || matches_customer_only(self.provider_name.as_str())
    }
}

/// A staged tariff is standard exactly when it has no subscription fee or one
/// of at most zero, and it is not bound to customers.
pub proof fn standard_means_free_and_open(t: EcoTariff)
    ensures
        eco_tariff_standard(t) <==> ((t.subscription_fee is None || t.subscription_fee == Some(
            FeeSign::NotPositive,
        )) && !eco_tariff_customer_only(t)),
{
}

} // verus!
