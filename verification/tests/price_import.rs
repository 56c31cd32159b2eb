use ladefuchs::eco_movement::price::{
    drop_parking_only_singleton, is_importable, normalize_durations, ImportablePrice,
};
use ladefuchs::eco_movement::response::{
    ComponentType, Components, Elements, PriceData, Restrictions, Tariff, TariffType,
};

fn tariff(currency: &str, id: Option<uuid::Uuid>) -> Tariff {
    Tariff {
        id,
        name: "Test".to_string(),
        description: String::new(),
        subscription_type: String::new(),
        subscription_fee_excl_vat: "0".to_string(),
        _type: TariffType::Msp,
        currency: currency.to_string(),
    }
}

fn component(price_type: ComponentType, price_excl_vat: f64) -> Components {
    Components {
        price_excl_vat_bits: price_excl_vat.to_bits(),
        vat: 19,
        step_size: 1,
        price_type,
    }
}

fn element(components: Vec<Components>, restrictions: Option<Restrictions>) -> Elements {
    Elements {
        price_components: components,
        restrictions,
    }
}

fn price(currency: &str, id: Option<uuid::Uuid>, elements: Vec<Elements>) -> PriceData {
    PriceData {
        id: "p1".to_string(),
        provider_name: "Provider".to_string(),
        tariff: tariff(currency, id),
        elements,
    }
}

fn min_duration_restrictions(min_duration: u32) -> Restrictions {
    Restrictions {
        min_duration: Some(min_duration),
        max_duration: None,
        start_date: None,
        end_date: None,
        start_time: None,
        end_time: None,
        day_of_week: None,
        min_power: None,
        max_power: None,
    }
}

#[test]
fn price_is_importable_keeps_eur_with_product_id_and_no_flat() {
    let id = uuid::Uuid::new_v4();
    let p = price(
        "EUR",
        Some(id),
        vec![element(vec![component(ComponentType::Energy, 0.5)], None)],
    );

    assert_eq!(is_importable(&p), Some(id));
}

#[test]
fn price_is_importable_drops_missing_product_id() {
    let p = price(
        "EUR",
        None,
        vec![element(vec![component(ComponentType::Energy, 0.5)], None)],
    );

    assert_eq!(is_importable(&p), None);
}

#[test]
fn price_is_importable_drops_non_eur_currency() {
    let p = price(
        "USD",
        Some(uuid::Uuid::new_v4()),
        vec![element(vec![component(ComponentType::Energy, 0.5)], None)],
    );

    assert_eq!(is_importable(&p), None);
}

#[test]
fn price_is_importable_drops_when_any_element_has_flat_component() {
    let p = price(
        "EUR",
        Some(uuid::Uuid::new_v4()),
        vec![
            element(vec![component(ComponentType::Energy, 0.5)], None),
            element(vec![component(ComponentType::Flat, 1.0)], None),
        ],
    );
    assert_eq!(is_importable(&p), None);
}

#[test]
fn price_drop_parking_only_singleton_clears_when_single_parking_only() {
    let id = uuid::Uuid::new_v4();

    let p = price(
        "EUR",
        Some(id),
        vec![element(vec![component(ComponentType::ParkingTime, 0.1)], None)],
    );

    let mut v = vec![ImportablePrice { data: p, product_id: id }];
    drop_parking_only_singleton(&mut v);

    assert!(v.is_empty());
}

#[test]
fn price_drop_parking_only_singleton_keeps_when_multiple() {
    let id = uuid::Uuid::new_v4();

    let p1 = price(
        "EUR",
        Some(id),
        vec![element(vec![component(ComponentType::ParkingTime, 0.1)], None)],
    );

    let p2 = price(
        "EUR",
        Some(id),
        vec![element(vec![component(ComponentType::ParkingTime, 0.1)], None)],
    );

    let mut v = vec![
        ImportablePrice { data: p1, product_id: id },
        ImportablePrice { data: p2, product_id: id },
    ];
    drop_parking_only_singleton(&mut v);

    assert_eq!(v.len(), 2);
}

#[test]
fn price_drop_parking_only_singleton_keeps_when_first_component_is_energy() {
    let id = uuid::Uuid::new_v4();

    let p = price(
        "EUR",
        Some(id),
        vec![element(vec![component(ComponentType::Energy, 0.5)], None)],
    );

    let mut v = vec![ImportablePrice { data: p, product_id: id }];
    drop_parking_only_singleton(&mut v);

    assert_eq!(v.len(), 1);
}

#[test]
fn price_normalize_durations_divides_min_duration_when_above_900() {
    let restrictions = min_duration_restrictions(3600);

    let mut p = price(
        "EUR",
        Some(uuid::Uuid::new_v4()),
        vec![element(
            vec![component(ComponentType::Energy, 0.5)],
            Some(restrictions),
        )],
    );

    normalize_durations(&mut p);

    assert_eq!(
        p.elements[0].restrictions.as_ref().unwrap().min_duration,
        Some(60)
    );
}

#[test]
fn price_normalize_durations_leaves_min_duration_when_at_900() {
    let restrictions = min_duration_restrictions(900);

    let mut p = price(
        "EUR",
        Some(uuid::Uuid::new_v4()),
        vec![element(
            vec![component(ComponentType::Energy, 0.5)],
            Some(restrictions),
        )],
    );

    normalize_durations(&mut p);

    assert_eq!(
        p.elements[0].restrictions.as_ref().unwrap().min_duration,
        Some(900)
    );
}
