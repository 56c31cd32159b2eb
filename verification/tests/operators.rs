use ladefuchs::db::cpo::{filter_cpos, Filter as CpoFilter, CPO};
use ladefuchs::db::operator::{filter_operators, AdminOperator, Filter};
use ladefuchs::db::plug::ChargeType;

fn admin_operator(id: i32, slug_name: &str, standard: bool) -> AdminOperator {
    AdminOperator {
        id,
        network: uuid::Uuid::new_v4(),
        pub_network: uuid::Uuid::new_v4(),
        standard,
        slug_name: slug_name.to_string(),
        name: String::new(),
        hide: false,
        supported_types: vec![ChargeType::AC, ChargeType::DC],
        updated: 0,
        power_ac: 22,
        power_dc: 150,
        sum_plug_count: 0,
        ccs_plug_count: 0,
        type2_plug_count: 0,
        image: None,
        url: None,
    }
}

fn cpo(id: i32, is_enabled: bool) -> CPO {
    CPO {
        id,
        network: uuid::Uuid::new_v4(),
        pub_network: uuid::Uuid::new_v4(),
        is_enabled,
        slug_name: format!("cpo {id}"),
        name: format!("cpo{id}"),
        hide: false,
        supported_types: vec![ChargeType::DC],
        updated: 0,
        power_ac: 0,
        power_dc: 50,
        url: None,
    }
}

#[test]
fn preparing_an_update_derives_the_internal_name() {
    let mut op = admin_operator(1, "EnBW mobility+", true);
    let types = op.prepare_update();
    assert_eq!(op.name, "enbwmobility+");
    assert_eq!(types, vec!["AC".to_string(), "DC".to_string()]);
}

#[test]
fn company_data_renames_only_non_standard_operators() {
    let mut custom = admin_operator(1, "Old", false);
    custom.take_company("New Name GmbH", Some("https://new.de".to_string()), 1_700_000_000);
    assert_eq!(custom.name, "newnamegmbh");
    assert_eq!(custom.slug_name, "New Name GmbH");
    assert_eq!(custom.url, Some("https://new.de".to_string()));
    assert_eq!(custom.updated, 1_700_000_000);

    let mut standard = admin_operator(2, "Kept", true);
    standard.name = "kept".to_string();
    standard.take_company("New Name GmbH", None, 5);
    assert_eq!(standard.name, "kept");
    assert_eq!(standard.slug_name, "Kept");
    assert_eq!(standard.url, None);
    assert_eq!(standard.updated, 5);
}

#[test]
fn operator_listing_filters_by_standard_in_order() {
    let ops = || vec![admin_operator(1, "a", true), admin_operator(2, "b", false), admin_operator(3, "c", true)];
    let ids = |v: Vec<AdminOperator>| v.iter().map(|o| o.id).collect::<Vec<_>>();
    assert_eq!(ids(filter_operators(ops(), Filter::All)), vec![1, 2, 3]);
    assert_eq!(ids(filter_operators(ops(), Filter::Enabled)), vec![1, 3]);
    assert_eq!(ids(filter_operators(ops(), Filter::Disabled)), vec![2]);
}

#[test]
fn cpo_listing_filters_by_enabled_in_order() {
    let cpos = || vec![cpo(1, false), cpo(2, true), cpo(3, true)];
    let ids = |v: Vec<CPO>| v.iter().map(|c| c.id).collect::<Vec<_>>();
    assert_eq!(ids(filter_cpos(cpos(), CpoFilter::All)), vec![1, 2, 3]);
    assert_eq!(ids(filter_cpos(cpos(), CpoFilter::Enabled)), vec![2, 3]);
    assert_eq!(ids(filter_cpos(cpos(), CpoFilter::Disabled)), vec![1]);
    assert_eq!(cpo(4, true).supported_type_names(), vec!["DC".to_string()]);
}
