use ladefuchs::eco_movement::response::{ConnectorType, PowerType};
use ladefuchs::fixtures::connector::EcoConnectorBuilder;
use ladefuchs::fixtures::dynamic_price::DynamicChargePrice;
use ladefuchs::fixtures::link::LinkBuilder;

#[test]
fn connector_builder_defaults_and_numbering() {
    let record = EcoConnectorBuilder::new().record(4, 9);
    assert_eq!(record.id, "connector-4");
    assert_eq!(record.evse_uid, "evse-9");
    assert_eq!(record.power_type, PowerType::Dc);
    assert_eq!(record.max_power, 150);
    assert_eq!(record.connector_type, ConnectorType::CCS);
    let staging = record.staging();
    assert_eq!(staging.id, "connector-4");
    assert_eq!(staging.evse_uid, "evse-9");
}

#[test]
fn connector_builder_takes_chosen_values() {
    let record = EcoConnectorBuilder::new()
        .id("c1")
        .evse_uid("e1")
        .power_type(PowerType::Ac3Phase)
        .max_power(22)
        .connector_type(ConnectorType::Type2)
        .record(0, 0);
    assert_eq!(record.id, "c1");
    assert_eq!(record.evse_uid, "e1");
    assert_eq!(record.power_type, PowerType::Ac3Phase);
    assert_eq!(record.max_power, 22);
    assert_eq!(record.connector_type, ConnectorType::Type2);
}

#[test]
fn link_builder_defaults_source() {
    assert_eq!(LinkBuilder::new().record(), (false, "https://example.com".to_string()));
    assert_eq!(
        LinkBuilder::new().source("https://x.de").is_affiliate(true).record(),
        (true, "https://x.de".to_string())
    );
}

#[test]
fn dynamic_charge_price_record() {
    let p = DynamicChargePrice { dynamic_price_id: 1, location_id: 2, operator_id: 3, tariff_id: 4 };
    assert_eq!(p, p.clone());
}
