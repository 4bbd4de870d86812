//! Shell-command helper tests.

use suiperchat_core::commands::{GetMessageHistoryParams, GreetingRequest, get_app_version, greet,
    normalize_history_params};

#[test]
fn greeting_embeds_the_name_and_time() {
    let r = greet(GreetingRequest { name: "ユーザー名".to_string() }, 1_700_000_000);
    assert_eq!(r.message, "こんにちは、ユーザー名さん！");
    assert_eq!(r.timestamp, 1_700_000_000);
}

#[test]
fn version_report_carries_the_build_facts() {
    let r = get_app_version(
        "0.1.0".to_string(),
        "dev".to_string(),
        "2024-01-01T00:00:00Z".to_string(),
    );
    assert_eq!(r.version, "0.1.0");
    assert_eq!(r.build_id, "dev");
    assert_eq!(r.build_date, "2024-01-01T00:00:00Z");
}

#[test]
fn history_params_default_sensibly() {
    let p = GetMessageHistoryParams { limit: None, offset: None, session_id: None, sort_asc: None };
    assert_eq!(normalize_history_params(&p), (100, 0, true));

    let p = GetMessageHistoryParams {
        limit: Some(7),
        offset: Some(3),
        session_id: Some("s".to_string()),
        sort_asc: Some(false),
    };
    assert_eq!(normalize_history_params(&p), (7, 3, false));
}
