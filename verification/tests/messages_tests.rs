//! Wire codec tests: serialization, parsing, and their round trip.

use suiperchat_core::messages::{ChatMessage, ClientMessage, MessageType, SuperchatData,
    SuperchatMessage};
use suiperchat_core::encode::{serialize_chat_message, serialize_superchat_message,
    serialize_error};
use suiperchat_core::decode::parse_client_message;

#[test]
fn test_chat_message_serialization() {
    let chat_message = ChatMessage {
        message_type: MessageType::Chat,
        id: "test-chat-id-123".to_string(),
        display_name: "テストユーザー".to_string(),
        content: "こんにちは、世界！".to_string(),
        timestamp: Some(1679400000000_i64),
    };

    let json = serialize_chat_message(&chat_message);

    let parsed = parse_client_message(&json).expect("the serialized chat message must parse");
    match parsed {
        ClientMessage::Chat(parsed_chat) => {
            assert_eq!(parsed_chat.message_type, MessageType::Chat);
            assert_eq!(parsed_chat.id, "test-chat-id-123");
            assert_eq!(parsed_chat.display_name, "テストユーザー");
            assert_eq!(parsed_chat.content, "こんにちは、世界！");
            assert_eq!(parsed_chat.timestamp, Some(1679400000000_i64));
        },
        _ => panic!("the chat message did not parse as a chat message"),
    }
}

#[test]
fn test_superchat_message_serialization() {
    let superchat_data = SuperchatData {
        amount_nanos: 10 * 1_000_000_000,
        coin: "SUI".to_string(),
        tx_hash: "0x1234567890abcdef".to_string(),
        wallet_address: "0xabcdef1234567890".to_string(),
    };

    let superchat_message = SuperchatMessage {
        message_type: MessageType::Superchat,
        id: "test-superchat-id-456".to_string(),
        display_name: "スパチャユーザー".to_string(),
        content: "大応援してます！".to_string(),
        superchat: superchat_data,
        timestamp: Some(1679401800000_i64),
    };

    let json = serialize_superchat_message(&superchat_message);

    let parsed = parse_client_message(&json).expect("the serialized superchat must parse");
    match parsed {
        ClientMessage::Superchat(parsed_superchat) => {
            assert_eq!(parsed_superchat.message_type, MessageType::Superchat);
            assert_eq!(parsed_superchat.id, "test-superchat-id-456");
            assert_eq!(parsed_superchat.display_name, "スパチャユーザー");
            assert_eq!(parsed_superchat.content, "大応援してます！");
            assert_eq!(parsed_superchat.superchat.amount_nanos, 10 * 1_000_000_000);
            assert_eq!(parsed_superchat.superchat.coin, "SUI");
            assert_eq!(parsed_superchat.superchat.tx_hash, "0x1234567890abcdef");
            assert_eq!(parsed_superchat.superchat.wallet_address, "0xabcdef1234567890");
            assert_eq!(parsed_superchat.timestamp, Some(1679401800000_i64));
        },
        _ => panic!("the superchat message did not parse as a superchat message"),
    }
}

#[test]
fn test_frontend_compatibility() {
    let frontend_chat_json = r#"{
            "type": "chat",
            "id": "frontend-chat-uuid",
            "display_name": "WebユーザーA",
            "message": "こんにちは、配信見てます！",
            "timestamp": 1700000000000
        }"#;

    let frontend_superchat_json = r#"{
            "type": "superchat",
            "id": "frontend-superchat-uuid",
            "display_name": "WebユーザーB",
            "message": "頑張ってください！",
            "superchat": {
                "amount": 5.0,
                "coin": "SUI",
                "tx_hash": "0x9876543210fedcba",
                "wallet_address": "0xfedcba9876543210"
            },
            "timestamp": 1700000050000
        }"#;

    let parsed_chat =
        parse_client_message(frontend_chat_json).expect("the frontend chat message must parse");
    match parsed_chat {
        ClientMessage::Chat(chat) => {
            assert_eq!(chat.message_type, MessageType::Chat);
            assert_eq!(chat.id, "frontend-chat-uuid");
            assert_eq!(chat.display_name, "WebユーザーA");
            assert_eq!(chat.content, "こんにちは、配信見てます！");
            assert_eq!(chat.timestamp, Some(1700000000000));
        },
        _ => panic!("the chat message did not parse as a chat message"),
    }

    let parsed_superchat = parse_client_message(frontend_superchat_json)
        .expect("the frontend superchat must parse");
    match parsed_superchat {
        ClientMessage::Superchat(superchat) => {
            assert_eq!(superchat.message_type, MessageType::Superchat);
            assert_eq!(superchat.id, "frontend-superchat-uuid");
            assert_eq!(superchat.display_name, "WebユーザーB");
            assert_eq!(superchat.content, "頑張ってください！");
            assert_eq!(superchat.superchat.amount_nanos, 5 * 1_000_000_000);
            assert_eq!(superchat.superchat.coin, "SUI");
            assert_eq!(superchat.superchat.tx_hash, "0x9876543210fedcba");
            assert_eq!(superchat.superchat.wallet_address, "0xfedcba9876543210");
            assert_eq!(superchat.timestamp, Some(1700000050000));
        },
        _ => panic!("the superchat message did not parse as a superchat message"),
    }
}

#[test]
fn chat_without_timestamp_round_trips() {
    let m = ChatMessage {
        message_type: MessageType::Chat,
        id: "id-1".to_string(),
        display_name: "a\"b\\c".to_string(),
        content: "line1\nline2\ttab".to_string(),
        timestamp: None,
    };
    let json = serialize_chat_message(&m);
    assert_eq!(
        json,
        "{\"type\":\"chat\",\"id\":\"id-1\",\"display_name\":\"a\\\"b\\\\c\",\
         \"message\":\"line1\\nline2\\ttab\"}"
    );
    match parse_client_message(&json).expect("must parse") {
        ClientMessage::Chat(c) => {
            assert_eq!(c.display_name, "a\"b\\c");
            assert_eq!(c.content, "line1\nline2\ttab");
            assert_eq!(c.timestamp, None);
        },
        _ => panic!("wrong message kind"),
    }
}

#[test]
fn fractional_amount_round_trips() {
    let m = SuperchatMessage {
        message_type: MessageType::Superchat,
        id: "x".to_string(),
        display_name: "d".to_string(),
        content: "c".to_string(),
        superchat: SuperchatData {
            amount_nanos: 10_500_000_000,
            coin: "SUI".to_string(),
            tx_hash: "t".to_string(),
            wallet_address: "w".to_string(),
        },
        timestamp: None,
    };
    let json = serialize_superchat_message(&m);
    assert!(json.contains("\"amount\":10.5,"));
    match parse_client_message(&json).expect("must parse") {
        ClientMessage::Superchat(s) => assert_eq!(s.superchat.amount_nanos, 10_500_000_000),
        _ => panic!("wrong message kind"),
    }
}

#[test]
fn malformed_frames_are_rejected() {
    assert!(parse_client_message("not json").is_err());
    assert!(parse_client_message("{}").is_err());
    assert!(parse_client_message("{\"type\":\"chat\"}").is_err());
    assert!(parse_client_message("{\"type\":\"unknown\"}").is_err());
    assert!(parse_client_message("").is_err());
}

#[test]
fn get_history_variants_parse() {
    match parse_client_message("{\"type\":\"GET_HISTORY\"}").expect("must parse") {
        ClientMessage::GetHistory { limit, before_timestamp } => {
            assert_eq!(limit, None);
            assert_eq!(before_timestamp, None);
        },
        _ => panic!("wrong message kind"),
    }
    match parse_client_message(
        "{\"type\":\"GET_HISTORY\",\"limit\":20,\"before_timestamp\":1700000000000}",
    )
    .expect("must parse")
    {
        ClientMessage::GetHistory { limit, before_timestamp } => {
            assert_eq!(limit, Some(20));
            assert_eq!(before_timestamp, Some(1700000000000));
        },
        _ => panic!("wrong message kind"),
    }
    match parse_client_message("{\"type\":\"GET_HISTORY\",\"limit\":null}").expect("must parse") {
        ClientMessage::GetHistory { limit, before_timestamp } => {
            assert_eq!(limit, None);
            assert_eq!(before_timestamp, None);
        },
        _ => panic!("wrong message kind"),
    }
}

#[test]
fn error_response_has_documented_shape() {
    let e = serialize_error("boom", "2024-01-01T00:00:00Z");
    assert_eq!(
        e,
        "{\"type\":\"error\",\"message\":\"boom\",\"timestamp\":\"2024-01-01T00:00:00Z\"}"
    );
}
