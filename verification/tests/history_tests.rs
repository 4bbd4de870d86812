//! History pagination and encoding tests.

use suiperchat_core::history::{Message, clamp_fetch_params, effective_limit, paginate,
    serialize_history};

fn row(n: i64) -> Message {
    Message {
        id: format!("id-{}", n),
        timestamp: n,
        display_name: format!("user-{}", n),
        content: format!("text-{}", n),
        amount_nanos: None,
        coin: None,
        tx_hash: None,
        wallet_address: None,
        session_id: Some("s".to_string()),
    }
}

#[test]
fn one_more_row_than_asked_means_more_exist() {
    // the store answered with limit + 1 rows, newest first
    let rows: Vec<Message> = (0..4).map(|i| row(100 - i)).collect();
    let (page, has_more) = paginate(rows, 3);
    assert!(has_more);
    assert_eq!(page.len(), 3);
    // the page is the three newest, oldest first
    assert_eq!(page[0].timestamp, 98);
    assert_eq!(page[1].timestamp, 99);
    assert_eq!(page[2].timestamp, 100);
}

#[test]
fn exactly_as_many_rows_as_asked_means_no_more() {
    let rows: Vec<Message> = (0..3).map(|i| row(100 - i)).collect();
    let (page, has_more) = paginate(rows, 3);
    assert!(!has_more);
    assert_eq!(page.len(), 3);
    assert_eq!(page[0].timestamp, 98);
    assert_eq!(page[2].timestamp, 100);
}

#[test]
fn fewer_rows_than_asked_are_all_returned() {
    let rows: Vec<Message> = vec![row(7)];
    let (page, has_more) = paginate(rows, 50);
    assert!(!has_more);
    assert_eq!(page.len(), 1);
    assert_eq!(page[0].timestamp, 7);

    let (page, has_more) = paginate(Vec::new(), 50);
    assert!(!has_more);
    assert!(page.is_empty());
}

#[test]
fn limits_are_clamped() {
    assert_eq!(effective_limit(None), 50);
    assert_eq!(effective_limit(Some(0)), 50);
    assert_eq!(effective_limit(Some(-3)), 50);
    assert_eq!(effective_limit(Some(20)), 20);
    assert_eq!(effective_limit(Some(1000)), 1000);
    assert_eq!(effective_limit(Some(1001)), 1000);

    assert_eq!(clamp_fetch_params(-1, -5), (100, 0));
    assert_eq!(clamp_fetch_params(0, 2), (100, 2));
    assert_eq!(clamp_fetch_params(3, 0), (3, 0));
    assert_eq!(clamp_fetch_params(5000, 1), (1000, 1));
}

#[test]
fn history_answer_has_documented_shape() {
    let empty: Vec<Message> = Vec::new();
    assert_eq!(
        serialize_history(&empty, false),
        "{\"type\":\"HISTORY_DATA\",\"messages\":[],\"has_more\":false}"
    );

    let one = vec![Message {
        id: "m1".to_string(),
        timestamp: 5,
        display_name: "u".to_string(),
        content: "hi".to_string(),
        amount_nanos: None,
        coin: None,
        tx_hash: None,
        wallet_address: None,
        session_id: Some("s".to_string()),
    }];
    assert_eq!(
        serialize_history(&one, true),
        "{\"type\":\"HISTORY_DATA\",\"messages\":[\
         {\"type\":\"chat\",\"id\":\"m1\",\"display_name\":\"u\",\"message\":\"hi\",\"timestamp\":5}\
         ],\"has_more\":true}"
    );
}

#[test]
fn paid_rows_are_encoded_as_superchats() {
    let rows = vec![Message {
        id: "m2".to_string(),
        timestamp: 9,
        display_name: "p".to_string(),
        content: "thanks".to_string(),
        amount_nanos: Some(2_000_000_000),
        coin: Some("SUI".to_string()),
        tx_hash: Some("0xabc".to_string()),
        wallet_address: Some("0xdef".to_string()),
        session_id: None,
    }];
    let json = serialize_history(&rows, false);
    assert!(json.contains("\"type\":\"superchat\""));
    assert!(json.contains("\"amount\":2,"));
    assert!(json.contains("\"coin\":\"SUI\""));
}
