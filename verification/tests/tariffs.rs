use ladefuchs::db::charge_price::{split_by_charge_type, ImportStatus};
use ladefuchs::db::cpo::{should_hide_inactive, Filter as CpoFilter};
use ladefuchs::db::msp::passes_filters;
use ladefuchs::db::operator::Filter as OperatorFilter;
use ladefuchs::db::plug::{ChargeType, Plug};
use ladefuchs::eco_movement::price::{drop_parking_only_singleton, ImportablePrice};
use ladefuchs::eco_movement::response::{
    ComponentType, Components, Elements, PriceData, Tariff, TariffType,
};
use ladefuchs::eco_movement::tariff::{EcoTariff, FeeSign};
use ladefuchs::db::tariff::{
    matches_customer_only, parse_url_from_base64_query, strip_matches, ChargePriceTariff,
    TariffWrite,
};

fn charge_price_tariff(slug_name: &str, provider_name: &str) -> ChargePriceTariff {
    ChargePriceTariff {
        id: 0,
        relationship_id: uuid::Uuid::new_v4(),
        provider_name: provider_name.to_string(),
        provider_id: uuid::Uuid::new_v4(),
        slug_name: slug_name.to_string(),
        monthly_fee_bits: 0.0f64.to_bits(),
        provider_customer_only: false,
        standard: true,
        ad_hoc: false,
        url: None,
        image: None,
    }
}

#[test]
fn provider_customer_only_list() {
    assert!(matches_customer_only("Privatkunden"));
    assert!(matches_customer_only("BestandsKUNDE"));
    assert!(!matches_customer_only("Audi e-tron"));
    assert!(!matches_customer_only("Ladetarif"));
}

#[test]
fn ad_hoc_by_flag_or_name() {
    assert!(charge_price_tariff("Ad-Hoc Laden", "EnBW").is_ad_hoc());
    assert!(charge_price_tariff("Laden AD-HOC", "EnBW").is_ad_hoc());
    assert!(!charge_price_tariff("Laden ad-hoc plus", "EnBW").is_ad_hoc());
    let mut flagged = charge_price_tariff("Laden", "EnBW");
    flagged.ad_hoc = true;
    assert!(flagged.is_ad_hoc());
}

#[test]
fn customer_only_provider_names_are_marked() {
    let mut t = charge_price_tariff("Basis", "Stadtwerke");
    t.provider_customer_only = true;
    t.fix_provider_only_slug_name();
    assert_eq!(t.slug_name, "Basis (Kundentarif)");

    let mut named = charge_price_tariff("Kundentarif Basis", "Stadtwerke");
    named.provider_customer_only = true;
    named.fix_provider_only_slug_name();
    assert_eq!(named.slug_name, "Kundentarif Basis");

    let mut open = charge_price_tariff("Basis", "Stadtwerke");
    open.fix_provider_only_slug_name();
    assert_eq!(open.slug_name, "Basis");
}

#[test]
fn internal_tariff_names() {
    let t = charge_price_tariff("x", "EnBW mobility+");
    assert_eq!(
        t.normalize_internal_name("Ladetarif S / M (neu)"),
        "enbwmobility+_ladetarifsmneu"
    );
    assert_eq!(strip_matches("[^a-z]", "a1b2"), "ab");
    assert_eq!(strip_matches("(", "a(b"), "a(b");
}

#[test]
fn save_plan_for_a_new_tariff() {
    let t = charge_price_tariff("Ladetarif", "EnBW");
    match t.plan_save(None, false, "Ladetarif", Some(9)) {
        TariffWrite::Insert { image, internal_name } => {
            assert_eq!(image, None);
            assert_eq!(internal_name, "enbw_ladetarif");
        }
        other => panic!("unexpected plan {:?}", other),
    }
    let ad_hoc = charge_price_tariff("Ad-hoc", "EnBW");
    match ad_hoc.plan_save(None, false, "Ad-hoc", Some(9)) {
        TariffWrite::Insert { image, internal_name } => {
            assert_eq!(image, Some(9));
            assert_eq!(internal_name, "lf_spontan");
        }
        other => panic!("unexpected plan {:?}", other),
    }
}

#[test]
fn save_plan_for_a_stored_tariff() {
    let t = charge_price_tariff("Ladetarif", "EnBW");
    let mut stored = charge_price_tariff("Ladetarif", "EnBW");
    stored.id = 42;
    stored.image = Some(3);
    stored.standard = false;
    // the stored tariff is not standard, so its listing differs
    assert!(matches!(
        t.plan_save(Some(&stored), true, "Ladetarif", None),
        TariffWrite::Update { id: 42, image: Some(3), standard: false }
    ));
    let mut same = charge_price_tariff("Ladetarif", "EnBW");
    same.provider_id = t.provider_id;
    same.id = 43;
    let mut t2 = charge_price_tariff("Ladetarif", "EnBW");
    t2.provider_id = t.provider_id;
    assert!(matches!(
        t2.plan_save(Some(&same), true, "Ladetarif", None),
        TariffWrite::Keep { id: 43 }
    ));
    assert!(matches!(
        t2.plan_save(Some(&same), false, "Ladetarif", None),
        TariffWrite::Update { id: 43, image: None, standard: true }
    ));
}

#[test]
fn finishing_a_save_reports_new_standard_tariffs_without_image() {
    let mut t = charge_price_tariff("Ladetarif", "EnBW");
    assert_eq!(
        t.finish_update(7, None, false, "enbw_ladetarif".to_string()),
        (7, Some("enbw_ladetarif".to_string()))
    );
    assert_eq!(t.id, 7);
    assert_eq!(t.finish_update(7, Some(1), false, "n".to_string()), (7, None));
    assert_eq!(t.image, Some(1));
    assert_eq!(t.finish_keep(8), (8, None));
    let mut n = charge_price_tariff("Ladetarif", "EnBW");
    assert_eq!(n.finish_insert(9, None, "x".to_string()), (9, Some("x".to_string())));
    assert_eq!(n.finish_insert(9, Some(2), "x".to_string()), (9, None));
}

#[test]
fn listing_equality_ignores_nothing_but_the_fee() {
    let a = charge_price_tariff("Ladetarif", "EnBW");
    let mut b = ChargePriceTariff {
        id: 5,
        relationship_id: a.relationship_id,
        provider_name: "EnBW".to_string(),
        provider_id: a.provider_id,
        slug_name: "Ladetarif".to_string(),
        monthly_fee_bits: 4.99f64.to_bits(),
        provider_customer_only: false,
        standard: true,
        ad_hoc: false,
        url: None,
        image: Some(1),
    };
    assert!(a.same_listing_as(&b));
    b.url = Some("https://x.de".to_string());
    assert!(!a.same_listing_as(&b));
}

#[test]
fn tracking_links_reveal_their_target() {
    let link = Some(
        "https://track.example/?token=dXJsPWh0dHBzOi8vbGFkZWZ1Y2hzLmFwcC94".to_string(),
    );
    assert_eq!(
        parse_url_from_base64_query(&link),
        Some("https://ladefuchs.app/x".to_string())
    );
    let with_more = Some(
        "https://track.example/?a=1&token=dXJsPWh0dHBzOi8vbGFkZWZ1Y2hzLmFwcC90YXJpZj9pZD0xJng9Mg=="
            .to_string(),
    );
    assert_eq!(
        parse_url_from_base64_query(&with_more),
        Some("https://ladefuchs.app/tarif?id=1".to_string())
    );
}

#[test]
fn tracking_links_without_target() {
    assert_eq!(parse_url_from_base64_query(&None), None);
    let no_token = Some("https://track.example/?a=1".to_string());
    assert_eq!(parse_url_from_base64_query(&no_token), None);
    let no_url = Some("https://track.example/?token=Zm9vPWJhcg==".to_string());
    assert_eq!(parse_url_from_base64_query(&no_url), None);
    let bad = Some("https://track.example/?token=***".to_string());
    assert_eq!(parse_url_from_base64_query(&bad), None);
}

#[test]
fn plugs_and_charge_types() {
    assert_eq!(Plug::parse("type2"), Ok(Plug::TYPE2));
    assert_eq!(Plug::parse("ccs"), Ok(Plug::CCS));
    assert_eq!(Plug::parse("CCS"), Err(()));
    assert_eq!("ccs".parse::<Plug>(), Ok(Plug::CCS));
    assert_eq!(Plug::TYPE2.to_string(), "TYPE2");
    assert_eq!(ChargeType::from(&Plug::CCS), ChargeType::DC);
    assert_eq!(ChargeType::AC.as_str(), "AC");
    assert_eq!(ChargeType::DC.to_string(), "DC");
    assert_eq!(ladefuchs::db::charging::ChargeType::from(ladefuchs::db::charging::Plug::TYPE2), ladefuchs::db::charging::ChargeType::AC);
    assert_eq!(ladefuchs::db::charging::Plug::CCS.to_string(), "CCS");
}

#[test]
fn price_cards_split_by_current_in_order() {
    let cards = vec![
        (ChargeType::AC, 1),
        (ChargeType::DC, 2),
        (ChargeType::AC, 3),
        (ChargeType::DC, 4),
        (ChargeType::DC, 5),
    ];
    assert_eq!(split_by_charge_type(cards), (vec![1, 3], vec![2, 4, 5]));
    assert_eq!(split_by_charge_type::<i32>(Vec::new()), (vec![], vec![]));
}

#[test]
fn import_status_from_lock() {
    assert_eq!(ImportStatus::from(true), ImportStatus::InProgress);
    assert_eq!(ImportStatus::from(false), ImportStatus::Waiting);
}

#[test]
fn listing_filters() {
    assert!(OperatorFilter::All.keeps(false));
    assert!(OperatorFilter::Enabled.keeps(true));
    assert!(!OperatorFilter::Enabled.keeps(false));
    assert!(OperatorFilter::Disabled.keeps(false));
    assert!(CpoFilter::Disabled.keeps(false));
    assert!(!CpoFilter::Disabled.keeps(true));
    assert!(should_hide_inactive(10, 3));
    assert!(!should_hide_inactive(3, 3));
}

#[test]
fn msp_filters_match_name_or_id() {
    let filters = vec!["^test".to_string(), "([".to_string(), "1234".to_string()];
    assert!(passes_filters(&filters, "Ladetarif", "abcd"));
    assert!(!passes_filters(&filters, "Test Tarif", "abcd"));
    assert!(!passes_filters(&filters, "Ladetarif", "x-1234-y"));
}

#[test]
fn standard_staged_tariffs_are_never_customer_only() {
    let names = ["Neutral", "Privat", "Audi Laden", "Basis"];
    for name in names {
        for fee in [None, Some(FeeSign::NotPositive), Some(FeeSign::Positive)] {
            let t = EcoTariff {
                network: uuid::Uuid::new_v4(),
                name: name.to_string(),
                description: None,
                tariff_type: TariffType::Msp,
                provider_name: "Neutral".to_string(),
                subscription_fee: fee,
            };
            if t.is_standard() {
                assert!(!t.is_customer_only());
                assert_ne!(fee, Some(FeeSign::Positive));
            }
        }
    }
}

#[test]
fn dropping_a_parking_singleton_twice_drops_nothing_more() {
    let id = uuid::Uuid::new_v4();
    let p = PriceData {
        id: "p".to_string(),
        provider_name: "P".to_string(),
        tariff: Tariff {
            id: Some(id),
            name: "T".to_string(),
            description: String::new(),
            subscription_type: String::new(),
            subscription_fee_excl_vat: "0".to_string(),
            _type: TariffType::Msp,
            currency: "EUR".to_string(),
        },
        elements: vec![Elements {
            price_components: vec![Components {
                price_excl_vat_bits: 0.1f64.to_bits(),
                vat: 19,
                step_size: 1,
                price_type: ComponentType::ParkingTime,
            }],
            restrictions: None,
        }],
    };
    let mut v = vec![ImportablePrice { data: p, product_id: id }];
    drop_parking_only_singleton(&mut v);
    assert!(v.is_empty());
    drop_parking_only_singleton(&mut v);
    assert!(v.is_empty());
}

fn energy_price(currency: &str, id: Option<uuid::Uuid>, first: ComponentType) -> PriceData {
    PriceData {
        id: "p".to_string(),
        provider_name: "P".to_string(),
        tariff: Tariff {
            id,
            name: "T".to_string(),
            description: String::new(),
            subscription_type: String::new(),
            subscription_fee_excl_vat: "0".to_string(),
            _type: TariffType::Msp,
            currency: currency.to_string(),
        },
        elements: vec![Elements {
            price_components: vec![Components {
                price_excl_vat_bits: 0.5f64.to_bits(),
                vat: 19,
                step_size: 1,
                price_type: first,
            }],
            restrictions: None,
        }],
    }
}

#[test]
fn selection_keeps_importable_prices_in_order() {
    let a = uuid::Uuid::new_v4();
    let b = uuid::Uuid::new_v4();
    let page = vec![
        energy_price("EUR", Some(a), ComponentType::Energy),
        energy_price("USD", Some(b), ComponentType::Energy),
        energy_price("EUR", None, ComponentType::Energy),
        energy_price("EUR", Some(b), ComponentType::ParkingTime),
    ];
    let selected = ladefuchs::eco_movement::price::select_importable(page);
    assert_eq!(selected.iter().map(|p| p.product_id).collect::<Vec<_>>(), vec![a, b]);
}

#[test]
fn selection_drops_a_lone_parking_price() {
    let a = uuid::Uuid::new_v4();
    let page = vec![
        energy_price("USD", Some(a), ComponentType::Energy),
        energy_price("EUR", Some(a), ComponentType::ParkingTime),
    ];
    assert!(ladefuchs::eco_movement::price::select_importable(page).is_empty());
}

#[test]
fn tariff_images_of_rows() {
    let none = ladefuchs::db::tariff::image_intern(None, Some("images/cards/a.png".to_string()));
    assert!(none.is_none());
    let with_path =
        ladefuchs::db::tariff::image_intern(Some("abc".to_string()), Some("images/cards/a.png".to_string()))
            .unwrap();
    assert_eq!(with_path.checksum, "abc");
    assert_eq!(with_path.filename, Some("a.png".to_string()));
    let without_path = ladefuchs::db::tariff::image_intern(Some("abc".to_string()), None).unwrap();
    assert_eq!(without_path.filename, None);
}
