use ladefuchs::eco_movement::response::TariffType;
use ladefuchs::eco_movement::tariff::{EcoTariff, FeeSign};

// A fee is carried by how it compares with zero.
fn fee_sign(fee: Option<f64>) -> Option<FeeSign> {
    fee.map(|f| if f <= 0.0 { FeeSign::NotPositive } else { FeeSign::Positive })
}

fn eco_tariff(
    name: &str,
    description: Option<&str>,
    provider_name: &str,
    tariff_type: TariffType,
    subscription_fee: Option<f64>,
) -> EcoTariff {
    EcoTariff {
        network: uuid::Uuid::new_v4(),
        name: name.to_string(),
        description: description.map(str::to_string),
        tariff_type,
        provider_name: provider_name.to_string(),
        subscription_fee: fee_sign(subscription_fee),
    }
}

#[test]
fn mod_is_ad_hoc_true_when_type_adhoc() {
    let t = eco_tariff("X", None, "Y", TariffType::Adhoc, Some(0.0));
    assert!(t.is_ad_hoc());
}

#[test]
fn mod_is_ad_hoc_false_for_msp() {
    let t = eco_tariff("X", None, "Y", TariffType::Msp, Some(0.0));
    assert!(!t.is_ad_hoc());
}

#[test]
fn mod_is_standard_false_when_subscription_fee_positive() {
    let t = eco_tariff("Neutral", None, "Neutral", TariffType::Msp, Some(5.0));
    assert!(!t.is_standard());
}

#[test]
fn mod_is_standard_true_when_fee_zero_and_not_customer_only() {
    let t = eco_tariff("Neutral", None, "Neutral", TariffType::Msp, Some(0.0));
    assert!(t.is_standard());
}

#[test]
fn mod_is_standard_false_when_customer_only_match() {
    let t = eco_tariff("BMW Business", None, "Neutral", TariffType::Msp, Some(0.0));
    assert!(!t.is_standard());
}

#[test]
fn mod_is_customer_only_matches_description() {
    let t = eco_tariff(
        "Neutral",
        Some("Nur für Kunden"),
        "Neutral",
        TariffType::Msp,
        Some(0.0),
    );

    assert!(t.is_customer_only());
}

#[test]
fn mod_is_customer_only_matches_provider_name() {
    let t = eco_tariff("Neutral", None, "Audi e-tron", TariffType::Msp, Some(0.0));
    assert!(t.is_customer_only());
}

#[test]
fn mod_is_customer_only_false_when_no_match() {
    let t = eco_tariff("Neutral", None, "Neutral", TariffType::Msp, Some(0.0));
    assert!(!t.is_customer_only());
}
