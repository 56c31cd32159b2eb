use ladefuchs::db::tariff::{image_intern, ChargePriceTariff};
use ladefuchs::eco_movement::connector_price::new_price_links;
use ladefuchs::eco_movement::importer::{
    aborted_import_message, next_import_action, no_prices_message, rollback_notice, start_import,
    ImportAction, ImportStep,
};
use ladefuchs::emoji::Emoji;
use ladefuchs::file_watcher::{parse_filename, store_step, FilenameError, StoreStep};
use ladefuchs::fixtures::banner::{example_image_url_text, BannerBuilder, DEFAULT_EXPIRATION};

fn run(lock: bool, prices: usize, disabled: usize) -> Vec<ImportAction> {
    let mut steps = Vec::new();
    let mut action = start_import(lock);
    while action != ImportAction::Done {
        steps.push(action);
        let counted = match action {
            ImportAction::ImportPriceData => prices,
            ImportAction::ReportDisabledOperators => disabled,
            _ => 0,
        };
        action = next_import_action(action, counted);
    }
    steps
}

#[test]
fn a_full_import_takes_every_step_in_order() {
    assert_eq!(
        run(true, 500, 0),
        vec![
            ImportAction::ImportLocations,
            ImportAction::ImportPrices,
            ImportAction::ImportConnectorPrices,
            ImportAction::ImportOperators,
            ImportAction::ImportTariffs,
            ImportAction::ImportPriceData,
            ImportAction::ReportDisabledOperators,
            ImportAction::ImportDynamicPrices,
            ImportAction::Commit,
        ]
    );
}

#[test]
fn an_import_without_the_lock_is_skipped() {
    assert_eq!(run(false, 500, 0), vec![ImportAction::Skip]);
}

#[test]
fn an_import_rolls_back_on_its_checks() {
    let few = run(true, 199, 0);
    assert_eq!(few.last(), Some(&ImportAction::RollBack(ImportStep::TooFewPrices)));
    let disabled = run(true, 200, 3);
    assert_eq!(
        disabled.last(),
        Some(&ImportAction::RollBack(ImportStep::OperatorsWithoutPrices))
    );
    assert!(!disabled.contains(&ImportAction::Commit));
}

#[test]
fn a_known_checksum_means_a_rename() {
    assert_eq!(
        store_step("images/cards/b.png".to_string(), Some("images/cards/a.png".to_string())),
        StoreStep::Rename("images/cards/a.png".to_string(), "images/cards/b.png".to_string())
    );
    assert_eq!(
        store_step("images/cards/b.png".to_string(), None),
        StoreStep::Insert("images/cards/b.png".to_string())
    );
}

#[test]
fn parent_paths_have_no_file_name() {
    assert_eq!(parse_filename("images/cards/.."), Err(FilenameError::Unsupported));
    let img = image_intern(Some("abc".to_string()), Some("images/..".to_string())).unwrap();
    assert_eq!(img.filename, Some(String::new()));
}

fn tariff(slug: &str) -> ChargePriceTariff {
    ChargePriceTariff {
        id: 1,
        relationship_id: uuid::Uuid::new_v4(),
        provider_name: "EnBW".to_string(),
        provider_id: uuid::Uuid::new_v4(),
        slug_name: slug.to_string(),
        monthly_fee_bits: 0.0f64.to_bits(),
        provider_customer_only: false,
        standard: true,
        ad_hoc: false,
        url: None,
        image: None,
    }
}

#[test]
fn new_tariff_notices_stop_after_six() {
    let mut t = tariff("Ladetarif \"S\"");
    t.url = Some("https://track.example/?token=dXJsPWh0dHBzOi8vbGFkZWZ1Y2hzLmFwcC94".to_string());
    assert_eq!(t.link_target(), Some("https://ladefuchs.app/x".to_string()));
    assert_eq!(
        t.new_tariff_notice("@malik", "EnBW", "enbw_ladetarifs", Some("<https://ladefuchs.app/x|ladefuchs.app>"), 0),
        Some(
            "Hi @malik, I found a new card \"Ladetarif \\\"S\\\"\" without an image.\nHere are some useful information:\nCPO: EnBW\nName Internal: enbw_ladetarifs\nLink: <https://ladefuchs.app/x|ladefuchs.app>"
                .to_string()
        )
    );
    let notice = t.new_tariff_notice("@m", "EnBW", "n", None, 5).unwrap();
    assert!(notice.ends_with("Link: none link"));
    assert_eq!(t.new_tariff_notice("@m", "EnBW", "n", None, 6), None);
}

#[test]
fn new_tariff_notice_without_link_target_says_none_link() {
    let t = tariff("Basis");
    assert_eq!(t.link_target(), None);
    let notice = t.new_tariff_notice("@m", "EnBW", "n", Some("<ignored>"), 0).unwrap();
    assert!(notice.ends_with("Link: none link"));
}

#[test]
fn rollback_notices() {
    let (emoji, text) = rollback_notice(ImportStep::TooFewPrices).unwrap();
    assert_eq!(emoji, Emoji::Down);
    assert_eq!(text, no_prices_message());
    let (emoji, text) = rollback_notice(ImportStep::OperatorsWithoutPrices).unwrap();
    assert_eq!(emoji, Emoji::Warning);
    assert_eq!(text, aborted_import_message());
    assert!(rollback_notice(ImportStep::Proceed).is_none());
}

#[test]
fn banner_builder_defaults_and_name() {
    let record = BannerBuilder::new(1_700_000_000).record(3);
    assert_eq!(record.name, "Test Banner 3");
    assert_eq!(record.frequency, 1);
    assert_eq!(record.expiration, DEFAULT_EXPIRATION);
    assert_eq!(record.starts, 1_700_000_000);
    assert_eq!(record.updated, 1_700_000_000);
    assert_eq!(record.status, "active");
    assert_eq!(record.link_id, None);
    let named = BannerBuilder::new(0)
        .name("Sommer")
        .frequency(4)
        .link_id(7)
        .image(9)
        .impression(2)
        .status("inactive")
        .record(0);
    assert_eq!(named.name, "Sommer");
    assert_eq!(named.frequency, 4);
    assert_eq!(named.link_id, Some(7));
    assert_eq!(named.image, Some(9));
    assert_eq!(named.impression, 2);
    assert_eq!(named.status, "inactive");
    assert_eq!(example_image_url_text(12), "http://example.org/image/12.png");
}

#[test]
fn connector_price_links_only_new_known_prices() {
    let answers = vec![
        Some(("p1".to_string(), false)),
        None,
        Some(("p2".to_string(), true)),
        Some(("p3".to_string(), false)),
    ];
    assert_eq!(new_price_links(true, true, &answers), vec!["p1".to_string(), "p3".to_string()]);
    assert!(new_price_links(false, true, &answers).is_empty());
    assert!(new_price_links(true, false, &answers).is_empty());
}
