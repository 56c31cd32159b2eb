use ladefuchs::db::image::{format_url, image_file_name};
use ladefuchs::file_watcher::{
    is_image_filename, parse_filename, parse_image_filename, plan_fs_event,
    to_relative_image_path, FilenameError, FsAction, FsEventKind,
};
use ladefuchs::image::{checked_card_name, checksum_of, is_supported_image_mime, ImageFileError};
use ladefuchs::image_import::{
    ignored_message, not_a_folder_message, unknown_operator_message, unrecognized_message,
    BannerFolder, CardFolder, ImageFolder, OperatorFolder,
};
use ladefuchs::emoji::Emoji;

#[test]
fn relative_image_path_starts_at_images_folder() {
    assert_eq!(
        to_relative_image_path("/srv/app/images/cards/card_EnBW.png"),
        Some("images/cards/card_EnBW.png".to_string())
    );
    assert_eq!(
        to_relative_image_path("./Images/CPOS/cpo_x.svg"),
        Some("Images/CPOS/cpo_x.svg".to_string())
    );
}

#[test]
fn relative_image_path_none_outside_image_folders() {
    assert_eq!(to_relative_image_path("/srv/app/images/other/x.png"), None);
    assert_eq!(to_relative_image_path("/tmp/x.png"), None);
}

#[test]
fn parse_filename_strips_prefix_and_extension() {
    assert_eq!(
        parse_filename("/srv/images/cards/card_EnBW-mobility.png"),
        Ok("EnBW-mobility".to_string())
    );
    assert_eq!(parse_filename("images/cpos/cpo_ionity.SVG"), Ok("ionity".to_string()));
    assert_eq!(parse_filename("banner_sommer_2024.jpeg"), Ok("sommer_2024".to_string()));
}

#[test]
fn parse_filename_refuses_other_extensions() {
    assert_eq!(
        parse_filename("/srv/images/cards/notes.txt"),
        Err(FilenameError::WrongFormat("notes.txt".to_string()))
    );
}

#[test]
fn parse_filename_refuses_paths_without_file_name() {
    assert_eq!(parse_filename(".."), Err(FilenameError::Unsupported));
    assert_eq!(parse_filename("images/.."), Err(FilenameError::Unsupported));
}

#[test]
fn filename_error_messages() {
    assert_eq!(FilenameError::Unsupported.message(), "Unsupported filename");
    assert_eq!(
        FilenameError::WrongFormat("a b.png".to_string()).message(),
        "Wrong formatted filename: a b.png"
    );
}

#[test]
fn parse_image_filename_takes_one_prefix_only() {
    assert_eq!(parse_image_filename("card_card_x.png"), Ok("card_x".to_string()));
}

#[test]
fn image_filename_check() {
    assert!(is_image_filename("card_Tarif.gif"));
    assert!(!is_image_filename("card_Tarif.webp"));
}

#[test]
fn fs_event_create_stores_relative_path() {
    let paths = vec!["/srv/images/cards/card_a.png".to_string()];
    assert_eq!(
        plan_fs_event(FsEventKind::CreateFile, &paths),
        FsAction::Store("images/cards/card_a.png".to_string())
    );
    assert_eq!(
        plan_fs_event(FsEventKind::ModifyData, &paths),
        FsAction::Store("images/cards/card_a.png".to_string())
    );
}

#[test]
fn fs_event_remove_and_other() {
    let paths = vec!["/srv/images/banners/b.png".to_string()];
    assert_eq!(
        plan_fs_event(FsEventKind::RemoveFile, &paths),
        FsAction::Remove("images/banners/b.png".to_string())
    );
    assert_eq!(plan_fs_event(FsEventKind::Other, &paths), FsAction::Ignore);
    assert_eq!(plan_fs_event(FsEventKind::CreateFile, &Vec::new()), FsAction::Ignore);
    let outside = vec!["/tmp/b.png".to_string()];
    assert_eq!(plan_fs_event(FsEventKind::RemoveFile, &outside), FsAction::Ignore);
}

#[test]
fn fs_event_rename_needs_two_image_paths() {
    let both = vec![
        "/srv/images/cards/card_a.png".to_string(),
        "/srv/images/cards/card_b.png".to_string(),
    ];
    assert_eq!(
        plan_fs_event(FsEventKind::RenameBoth, &both),
        FsAction::Rename(
            "images/cards/card_a.png".to_string(),
            "images/cards/card_b.png".to_string()
        )
    );
    let one = vec!["/tmp/a.png".to_string(), "/srv/images/cards/card_b.png".to_string()];
    assert_eq!(plan_fs_event(FsEventKind::RenameBoth, &one), FsAction::Ignore);
}

#[test]
fn card_filename_allows_repeated_prefix() {
    assert_eq!(ladefuchs::image::parse_filename("card_card_abc-ß.png"), Ok("abc-ß".to_string()));
    assert_eq!(
        ladefuchs::image::parse_filename("abc_def.png"),
        Err(FilenameError::WrongFormat("abc_def.png".to_string()))
    );
}

#[test]
fn supported_mime_types() {
    assert!(is_supported_image_mime(Some("image/png")));
    assert!(is_supported_image_mime(Some("IMAGE/JPEG")));
    assert!(is_supported_image_mime(Some("image/svg+xml")));
    assert!(is_supported_image_mime(Some("image/gif")));
    assert!(!is_supported_image_mime(Some("image/webp")));
    assert!(!is_supported_image_mime(Some("text/plain")));
    assert!(!is_supported_image_mime(None));
}

#[test]
fn checked_card_name_checks_in_order() {
    assert_eq!(
        checked_card_name(None, Some("image/png")),
        Err(ImageFileError::Name(FilenameError::Unsupported))
    );
    assert_eq!(
        checked_card_name(Some("card_x.png"), Some("text/plain")),
        Err(ImageFileError::UnsupportedType)
    );
    assert_eq!(
        checked_card_name(Some("x y.png"), Some("image/png")),
        Err(ImageFileError::Name(FilenameError::WrongFormat("x y.png".to_string())))
    );
    assert_eq!(checked_card_name(Some("card_x.png"), Some("image/png")), Ok("x".to_string()));
}

#[test]
fn checksum_is_blake3_hex() {
    assert_eq!(
        checksum_of(b""),
        "af1349b9f5f9a1a6a0404dea36dcc9499bcb25c9adc112b7cc9a93cae41f3262"
    );
    assert_eq!(
        checksum_of(b"abc"),
        "6437b3ac38465133ffb63b75273a8db548c558465d79db03fd359c6cd5bd9d85"
    );
}

#[test]
fn image_folders_have_their_places_and_labels() {
    let cards = CardFolder::new();
    assert_eq!(cards.folder_parent(), "./images/cards");
    assert_eq!(cards.id(), ("card", Emoji::ImageFrame));
    let cpos = OperatorFolder::new();
    assert_eq!(cpos.folder_parent(), "./images/cpos");
    assert_eq!(cpos.id(), ("CPO", Emoji::ElectricPlug));
    let banners = BannerFolder::new();
    assert_eq!(banners.folder_parent(), "./images/banners");
    assert_eq!(banners.id(), ("Banner", Emoji::Art));
}

#[test]
fn image_import_messages() {
    assert_eq!(unrecognized_message("abc"), "Tariff for filename \"abc\" was not recognized");
    assert_eq!(unknown_operator_message("abc"), "CPO for filename \"abc\" was not recognized");
    assert_eq!(
        ignored_message("x.png", "boom"),
        "Ignoring image filename x.png, error: boom"
    );
    assert_eq!(not_a_folder_message("./images/cards"), "./images/cards is not a folder");
}

#[test]
fn image_url_and_file_name() {
    assert_eq!(
        format_url("https://api.ladefuchs.app/", "abc123"),
        Some("https://api.ladefuchs.app/image/abc123".to_string())
    );
    assert_eq!(format_url("not a url", "abc"), None);
    assert_eq!(image_file_name("enbw_ladetarif", Some("card")), "card_enbw_ladetarif");
    assert_eq!(image_file_name("enbw_ladetarif", None), "enbw_ladetarif");
}
