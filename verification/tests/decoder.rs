//! Tests for the update envelope decoder and the accessors over updates.

use tgbot::errors::DecodeError;
use tgbot::types::{
    CallbackQuery, Chat, ChatType, ChosenInlineResult, InlineQuery, Message, PreCheckoutQuery,
    ShippingQuery, User,
};
use tgbot::update::{decode_batch, decode_update, RawUpdate, Update, UpdateKind};

fn sample_user(id: i64) -> User {
    User {
        id,
        is_bot: false,
        first_name: "test".to_string(),
        last_name: None,
        username: None,
        language_code: None,
    }
}

fn sample_chat(id: i64) -> Chat {
    Chat {
        id,
        chat_type: ChatType::Private,
        title: None,
        username: Some("testchat".to_string()),
        first_name: Some("test".to_string()),
        last_name: None,
    }
}

fn sample_message(id: i64) -> Message {
    Message {
        id,
        date: 0,
        from: Some(sample_user(1)),
        chat: sample_chat(1),
        text: Some("test".to_string()),
    }
}

fn sample_inline_query() -> InlineQuery {
    InlineQuery {
        id: "q1".to_string(),
        from: sample_user(2),
        query: "hello".to_string(),
        offset: "".to_string(),
    }
}

fn sample_chosen_inline_result() -> ChosenInlineResult {
    ChosenInlineResult {
        result_id: "r1".to_string(),
        from: sample_user(3),
        inline_message_id: None,
        query: "hello".to_string(),
    }
}

fn sample_callback_query() -> CallbackQuery {
    CallbackQuery {
        id: "c1".to_string(),
        from: sample_user(4),
        message: None,
        inline_message_id: None,
        data: Some("pressed".to_string()),
    }
}

fn sample_shipping_query() -> ShippingQuery {
    ShippingQuery { id: "s1".to_string(), from: sample_user(5), invoice_payload: "p".to_string() }
}

fn sample_pre_checkout_query() -> PreCheckoutQuery {
    PreCheckoutQuery {
        id: "pc1".to_string(),
        from: sample_user(6),
        currency: "EUR".to_string(),
        total_amount: 100,
        invoice_payload: "p".to_string(),
        shipping_option_id: None,
    }
}

fn empty_raw(update_id: i64) -> RawUpdate {
    RawUpdate {
        update_id,
        message: None,
        edited_message: None,
        channel_post: None,
        edited_channel_post: None,
        inline_query: None,
        chosen_inline_result: None,
        callback_query: None,
        shipping_query: None,
        pre_checkout_query: None,
    }
}

#[test]
fn decode_message_kind() {
    let mut raw = empty_raw(10);
    raw.message = Some(sample_message(7));
    let u = decode_update(raw).unwrap();
    assert_eq!(u.id, 10);
    assert_eq!(u.kind, UpdateKind::Message(sample_message(7)));
}

#[test]
fn decode_edited_message_kind() {
    let mut raw = empty_raw(11);
    raw.edited_message = Some(sample_message(8));
    let u = decode_update(raw).unwrap();
    assert_eq!(u.id, 11);
    assert_eq!(u.kind, UpdateKind::EditedMessage(sample_message(8)));
}

#[test]
fn decode_channel_post_kind() {
    let mut raw = empty_raw(12);
    raw.channel_post = Some(sample_message(9));
    let u = decode_update(raw).unwrap();
    assert_eq!(u.kind, UpdateKind::ChannelPost(sample_message(9)));
}

#[test]
fn decode_edited_channel_post_kind() {
    let mut raw = empty_raw(13);
    raw.edited_channel_post = Some(sample_message(9));
    let u = decode_update(raw).unwrap();
    assert_eq!(u.kind, UpdateKind::EditedChannelPost(sample_message(9)));
}

#[test]
fn decode_inline_query_kind() {
    let mut raw = empty_raw(14);
    raw.inline_query = Some(sample_inline_query());
    let u = decode_update(raw).unwrap();
    assert_eq!(u.kind, UpdateKind::InlineQuery(sample_inline_query()));
}

#[test]
fn decode_chosen_inline_result_kind() {
    let mut raw = empty_raw(15);
    raw.chosen_inline_result = Some(sample_chosen_inline_result());
    let u = decode_update(raw).unwrap();
    assert_eq!(u.kind, UpdateKind::ChosenInlineResult(sample_chosen_inline_result()));
}

#[test]
fn decode_callback_query_kind() {
    let mut raw = empty_raw(16);
    raw.callback_query = Some(sample_callback_query());
    let u = decode_update(raw).unwrap();
    assert_eq!(u.kind, UpdateKind::CallbackQuery(sample_callback_query()));
}

#[test]
fn decode_shipping_query_kind() {
    let mut raw = empty_raw(17);
    raw.shipping_query = Some(sample_shipping_query());
    let u = decode_update(raw).unwrap();
    assert_eq!(u.kind, UpdateKind::ShippingQuery(sample_shipping_query()));
}

#[test]
fn decode_pre_checkout_query_kind() {
    let mut raw = empty_raw(18);
    raw.pre_checkout_query = Some(sample_pre_checkout_query());
    let u = decode_update(raw).unwrap();
    assert_eq!(u.kind, UpdateKind::PreCheckoutQuery(sample_pre_checkout_query()));
}

#[test]
fn decode_no_kind_fails() {
    let raw = empty_raw(19);
    assert_eq!(decode_update(raw), Err(DecodeError::UnknownKind));
}

#[test]
fn decode_two_kinds_takes_earliest() {
    let mut raw = empty_raw(20);
    raw.message = Some(sample_message(1));
    raw.callback_query = Some(sample_callback_query());
    let u = decode_update(raw).unwrap();
    assert_eq!(u.kind, UpdateKind::Message(sample_message(1)));

    let mut raw = empty_raw(21);
    raw.shipping_query = Some(sample_shipping_query());
    raw.pre_checkout_query = Some(sample_pre_checkout_query());
    let u = decode_update(raw).unwrap();
    assert_eq!(u.kind, UpdateKind::ShippingQuery(sample_shipping_query()));
}

#[test]
fn accessors_over_kinds() {
    let mut raw = empty_raw(22);
    raw.message = Some(sample_message(1));
    let u = decode_update(raw).unwrap();
    assert_eq!(u.get_chat_id(), Some(1));
    assert_eq!(u.get_chat_username(), Some("testchat"));
    assert_eq!(u.get_user().map(|x| x.id), Some(1));

    let mut raw = empty_raw(23);
    raw.inline_query = Some(sample_inline_query());
    let u = decode_update(raw).unwrap();
    assert_eq!(u.get_chat_id(), None);
    assert_eq!(u.get_chat_username(), None);
    assert_eq!(u.get_user().map(|x| x.id), Some(2));

    let mut raw = empty_raw(24);
    raw.pre_checkout_query = Some(sample_pre_checkout_query());
    let u = decode_update(raw).unwrap();
    assert_eq!(u.get_user().map(|x| x.id), Some(6));
}

#[test]
fn batch_skips_malformed_items() {
    let mut a = empty_raw(1);
    a.message = Some(sample_message(1));
    let b = empty_raw(2);
    let mut c = empty_raw(3);
    c.callback_query = Some(sample_callback_query());
    let updates = decode_batch(vec![a, b, c]);
    assert_eq!(updates.len(), 2);
    assert_eq!(updates[0].id, 1);
    assert_eq!(updates[1].id, 3);
}

#[test]
fn batch_keeps_order() {
    let mut a = empty_raw(5);
    a.message = Some(sample_message(1));
    let mut b = empty_raw(6);
    b.edited_message = Some(sample_message(2));
    let updates = decode_batch(vec![a, b]);
    let ids: Vec<i64> = updates.iter().map(|u| u.id).collect();
    assert_eq!(ids, vec![5, 6]);
}

fn opt_string(v: &serde_json::Value, key: &str) -> Option<String> {
    v.get(key).and_then(|x| x.as_str()).map(|s| s.to_string())
}

fn user_from_value(v: &serde_json::Value) -> User {
    User {
        id: v.get("id").unwrap().as_i64().unwrap(),
        is_bot: v.get("is_bot").unwrap().as_bool().unwrap(),
        first_name: v.get("first_name").unwrap().as_str().unwrap().to_string(),
        last_name: opt_string(v, "last_name"),
        username: opt_string(v, "username"),
        language_code: opt_string(v, "language_code"),
    }
}

fn chat_from_value(v: &serde_json::Value) -> Chat {
    let chat_type = match v.get("type").unwrap().as_str().unwrap() {
        "private" => ChatType::Private,
        "group" => ChatType::Group,
        "supergroup" => ChatType::Supergroup,
        _ => ChatType::Channel,
    };
    Chat {
        id: v.get("id").unwrap().as_i64().unwrap(),
        chat_type,
        title: opt_string(v, "title"),
        username: opt_string(v, "username"),
        first_name: opt_string(v, "first_name"),
        last_name: opt_string(v, "last_name"),
    }
}

fn message_from_value(v: &serde_json::Value) -> Message {
    Message {
        id: v.get("message_id").unwrap().as_i64().unwrap(),
        date: v.get("date").unwrap().as_i64().unwrap(),
        from: v.get("from").map(user_from_value),
        chat: chat_from_value(v.get("chat").unwrap()),
        text: opt_string(v, "text"),
    }
}

fn raw_update_from_json(input: &str) -> RawUpdate {
    let v: serde_json::Value = serde_json::from_str(input).unwrap();
    let mut raw = empty_raw(v.get("update_id").unwrap().as_i64().unwrap());
    raw.message = v.get("message").map(message_from_value);
    raw.edited_message = v.get("edited_message").map(message_from_value);
    raw.channel_post = v.get("channel_post").map(message_from_value);
    raw.edited_channel_post = v.get("edited_channel_post").map(message_from_value);
    raw
}

#[test]
fn test_deserialize() {
    let input = r#"{
        "update_id": 1,
        "message": {
            "message_id": 1,
            "date": 0,
            "from": {
                "id": 1,
                "is_bot": false,
                "first_name": "test"
            },
            "chat": {
                "id": 1,
                "type": "private",
                "first_name": "test"
            },
            "text": "test"
        }
    }"#;
    let update: Update = decode_update(raw_update_from_json(input)).unwrap();
    assert_eq!(update.get_chat_id(), Some(1));
    assert_eq!(update.get_user().map(|u| u.id), Some(1));
    match &update {
        Update { id, kind: UpdateKind::Message(msg) } => {
            assert_eq!(*id, 1);
            assert_eq!(msg.id, 1);
        }
        _ => panic!("Unexpected update {:?}", update),
    }
}

#[test]
fn end_to_end_message_update() {
    let input = r#"{"update_id":1,"message":{"message_id":1,"date":0,"from":{"id":1,"is_bot":false,"first_name":"test"},"chat":{"id":1,"type":"private","first_name":"test"},"text":"test"}}"#;
    let update = decode_update(raw_update_from_json(input)).unwrap();
    assert_eq!(update.id, 1);
    assert!(matches!(update.kind, UpdateKind::Message(_)));
    assert_eq!(update.get_chat_id(), Some(1));
    let user = update.get_user().unwrap();
    assert_eq!(user.id, 1);
    assert_eq!(user.first_name, "test");
}
