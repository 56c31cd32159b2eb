use ladefuchs::feedback_infos::{
    count_line_text, kind_to_str, kinds_text, last_run, offenders_text, should_send_summary,
    summary_message, FeedbackKind, KindCountRow, PriceOffenderRow,
};
use ladefuchs::fuchs_middleware::{
    check_admin, check_token, knows_token, thirty_minutes_duration, AdminAccess, AuthParams,
    TokenCheck,
};

fn tokens() -> Vec<String> {
    vec!["alpha".to_string(), "beta".to_string()]
}

#[test]
fn header_token_is_checked_first() {
    let params = AuthParams { api_key: Some("beta".to_string()) };
    assert_eq!(check_token(Some("alpha".to_string()), &params, &tokens()), TokenCheck::Granted);
    assert_eq!(
        check_token(Some("gamma".to_string()), &params, &tokens()),
        TokenCheck::WrongToken("gamma".to_string())
    );
}

#[test]
fn query_token_is_used_without_header() {
    let params = AuthParams { api_key: Some("beta".to_string()) };
    assert_eq!(check_token(None, &params, &tokens()), TokenCheck::Granted);
    let wrong = AuthParams { api_key: Some("Beta".to_string()) };
    assert_eq!(check_token(None, &wrong, &tokens()), TokenCheck::WrongToken("Beta".to_string()));
}

#[test]
fn missing_token_is_refused() {
    let params = AuthParams { api_key: None };
    assert_eq!(check_token(None, &params, &tokens()), TokenCheck::MissingToken);
    assert!(!knows_token(&Vec::new(), ""));
}

#[test]
fn tokens_reload_every_thirty_minutes() {
    assert_eq!(thirty_minutes_duration(), 1800);
}

#[test]
fn admin_pages_need_a_session_except_preflight() {
    assert_eq!(check_admin(true, false), AdminAccess::Pass);
    assert_eq!(check_admin(false, true), AdminAccess::Pass);
    assert_eq!(check_admin(false, false), AdminAccess::Login);
}

#[test]
fn feedback_kind_labels() {
    assert_eq!(kind_to_str(FeedbackKind::WrongPrice), "Falscher Preis");
    assert_eq!(kind_to_str(FeedbackKind::Other), "Sonstiges");
}

#[test]
fn summary_window_starts_at_six_pm_utc_the_day_before() {
    // 2023-11-14 22:13:20 UTC
    assert_eq!(last_run(1_700_000_000), 1_699_898_400);
    // exactly midnight
    assert_eq!(last_run(1_699_920_000), 1_699_898_400);
    // before the epoch: 1969-12-31 12:00 UTC
    assert_eq!(last_run(-43_200), -86_400 - 21_600);
}

#[test]
fn count_lines() {
    assert_eq!(count_line_text("ionity", 12), "- ionity: 12");
    assert_eq!(count_line_text("x", -3), "- x: -3");
}

#[test]
fn summary_message_lists_everything() {
    let operators = vec![
        PriceOffenderRow { slug_name: "enbw".to_string(), cnt: 3 },
        PriceOffenderRow { slug_name: "ionity".to_string(), cnt: 1 },
    ];
    let tariffs = vec![PriceOffenderRow { slug_name: "adac".to_string(), cnt: 2 }];
    let kinds = vec![
        KindCountRow { kind: FeedbackKind::WrongPrice, cnt: 4 },
        KindCountRow { kind: FeedbackKind::Other, cnt: 1 },
    ];
    assert_eq!(offenders_text(&operators), "- enbw: 3\n- ionity: 1");
    assert_eq!(kinds_text(&kinds), "- Falscher Preis: 4\n- Sonstiges: 1");
    let msg = summary_message("13.11.2023 um 19:00 Uhr", 5, &operators, &tariffs, &kinds);
    let expected = "\n# Feedback-Zusammenfassung seit dem letzten Lauf (13.11.2023 um 19:00 Uhr)\n\nAnzahl eingegangener Feedbacks: 5\n\n## :moneybag: Top 5 Betreiber mit falschen Preisen:\n\n- enbw: 3\n- ionity: 1\n\n## :fire: Top 5 Tarife mit falschen Preisen:\n\n- adac: 2\n\n## :low_battery: Top 5 Feedback-Arten:\n\n- Falscher Preis: 4\n- Sonstiges: 1\n";
    assert_eq!(msg, expected);
}

#[test]
fn summary_is_sent_only_with_feedback() {
    assert!(!should_send_summary(0));
    assert!(should_send_summary(1));
}
