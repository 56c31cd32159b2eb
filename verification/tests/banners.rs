use ladefuchs::db::banner::{
    banner_entry, banner_image_url, banner_link, escape_url, link_lookup_text, platform_of,
    BannerPathVersion, BannerRow, BannerV3, PlatformType,
};

#[test]
fn platform_from_user_agent() {
    assert_eq!(platform_of("Mozilla/5.0 (Linux; Android 14)"), PlatformType::Android);
    assert_eq!(platform_of("Mozilla/5.0 (iPhone; CPU iPhone OS 17_0)"), PlatformType::IOS);
    assert_eq!(platform_of("Mozilla/5.0 (iPad; CPU OS 16_0)"), PlatformType::IOS);
    assert_eq!(platform_of("Mozilla/5.0 (Windows NT 10.0)"), PlatformType::Web);
    assert_eq!(platform_of("Android on iPhone"), PlatformType::Android);
}

#[test]
fn escape_url_keeps_only_alphanumerics() {
    assert_eq!(escape_url("https://a.b/c?d=1"), "https%3A%2F%2Fa%2Eb%2Fc%3Fd%3D1");
    assert_eq!(escape_url("ü"), "%C3%BC");
}

#[test]
fn link_lookup_drops_one_trailing_slash() {
    assert_eq!(link_lookup_text("https://x.de/"), "https://x.de");
    assert_eq!(link_lookup_text("https://x.de//"), "https://x.de/");
    assert_eq!(link_lookup_text("https://x.de"), "https://x.de");
}

#[test]
fn banner_image_urls_per_version() {
    assert_eq!(
        banner_image_url("https://api.ladefuchs.app/", BannerPathVersion::V2, "abc"),
        Some("https://api.ladefuchs.app/img/banner/abc".to_string())
    );
    assert_eq!(
        banner_image_url("https://api.ladefuchs.app/", BannerPathVersion::V3, "abc"),
        Some("https://api.ladefuchs.app/image/abc".to_string())
    );
}

#[test]
fn banner_affiliate_link() {
    assert_eq!(
        banner_link("https://api.ladefuchs.app/", "https://x.de", "7"),
        Some("https://api.ladefuchs.app/affiliate?url=https%253A%252F%252Fx%252Ede&banner=7".to_string())
    );
    assert_eq!(banner_link("no url", "https://x.de", "7"), None);
}

#[test]
fn banner_entry_from_row() {
    let id = uuid::Uuid::parse_str("67e55044-10b1-426f-9247-bb680e5fe0c8").unwrap();
    let row = BannerRow {
        id: id.as_u128(),
        checksum: "abc".to_string(),
        source: "https://x.de".to_string(),
        image: "images/banners/banner_sommer.png".to_string(),
        is_affiliate: true,
        frequency: 3,
        updated: 1_700_000_000,
    };
    let entry = banner_entry("https://api.ladefuchs.app/", BannerPathVersion::V2, row).unwrap();
    assert_eq!(entry.image, "https://api.ladefuchs.app/img/banner/abc");
    assert_eq!(
        entry.link,
        "https://api.ladefuchs.app/affiliate?url=https%253A%252F%252Fx%252Ede&banner=67e55044-10b1-426f-9247-bb680e5fe0c8"
    );
    assert_eq!(entry.filename, "banner_sommer.png");
    assert_eq!(entry.frequency, 3);
    assert!(entry.is_affiliate);
    let v3: BannerV3 = entry.into();
    assert_eq!(v3.image_url, "https://api.ladefuchs.app/img/banner/abc");
    assert_eq!(v3.last_updated_date, 1_700_000_000);
    assert_eq!(v3.id, id.as_u128());
}
