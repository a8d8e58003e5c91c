use serde_json::Value;
use yewchat::protocol::{
    decode, decode_chat_entry, encode, encode_chat_entry, MessageData, DecodeError, WebSocketMessage, MsgTypes,
};

fn text(s: &str) -> Value {
    Value::String(s.to_string())
}

fn object(members: Vec<(&str, Value)>) -> Value {
    let mut map = serde_json::Map::new();
    for (key, value) in members {
        map.insert(key.to_string(), value);
    }
    Value::Object(map)
}

fn users(names: &[&str]) -> WebSocketMessage {
    WebSocketMessage {
        message_type: MsgTypes::Users,
        data_array: Some(names.iter().map(|name| name.to_string()).collect()),
        data: None,
    }
}

fn register(name: &str) -> WebSocketMessage {
    WebSocketMessage { message_type: MsgTypes::Register, data_array: None, data: Some(name.to_string()) }
}

fn message(payload: &str) -> WebSocketMessage {
    WebSocketMessage { message_type: MsgTypes::Message, data_array: None, data: Some(payload.to_string()) }
}

#[test]
fn kind_tokens_are_lowercase_words() {
    assert_eq!(MsgTypes::Users.token(), "users");
    assert_eq!(MsgTypes::Register.token(), "register");
    assert_eq!(MsgTypes::Message.token(), "message");
}

#[test]
fn kinds_are_read_from_their_tokens_only() {
    assert_eq!(MsgTypes::from_token("users"), Some(MsgTypes::Users));
    assert_eq!(MsgTypes::from_token("register"), Some(MsgTypes::Register));
    assert_eq!(MsgTypes::from_token("message"), Some(MsgTypes::Message));
    assert_eq!(MsgTypes::from_token("Users"), None);
    assert_eq!(MsgTypes::from_token("user"), None);
    assert_eq!(MsgTypes::from_token("users "), None);
    assert_eq!(MsgTypes::from_token(""), None);
}

#[test]
fn register_frame_is_written_as_an_object_of_three_members() {
    let written = encode(&register("alice"));
    assert_eq!(written, r#"{"data":"alice","dataArray":null,"messageType":"register"}"#);
}

#[test]
fn users_frame_is_written_with_its_names_in_order() {
    let written = encode(&users(&["b", "a", "b"]));
    assert_eq!(written, r#"{"data":null,"dataArray":["b","a","b"],"messageType":"users"}"#);
}

#[test]
fn users_frame_without_names_is_written_with_an_empty_array() {
    let written = encode(&users(&[]));
    assert_eq!(written, r#"{"data":null,"dataArray":[],"messageType":"users"}"#);
}

#[test]
fn frame_value_has_the_wire_keys() {
    let value = register("alice").to_value();
    let wanted = object(vec![
        ("messageType", text("register")),
        ("dataArray", Value::Null),
        ("data", text("alice")),
    ]);
    assert_eq!(value, wanted);
    let value = users(&["a", "b"]).to_value();
    let wanted = object(vec![
        ("messageType", text("users")),
        ("dataArray", Value::Array(vec![text("a"), text("b")])),
        ("data", Value::Null),
    ]);
    assert_eq!(value, wanted);
}

#[test]
fn frame_is_read_from_a_value() {
    let value = object(vec![
        ("messageType", text("users")),
        ("dataArray", Value::Array(vec![text("a"), text("b")])),
    ]);
    assert_eq!(WebSocketMessage::from_value(&value), Ok(users(&["a", "b"])));
    let value = object(vec![("messageType", text("message")), ("data", text("{}"))]);
    assert_eq!(WebSocketMessage::from_value(&value), Ok(message("{}")));
}

#[test]
fn frame_is_not_read_from_a_value_of_another_shape() {
    assert_eq!(WebSocketMessage::from_value(&Value::Null), Err(DecodeError::Shape));
    assert_eq!(WebSocketMessage::from_value(&text("users")), Err(DecodeError::Shape));
    assert_eq!(WebSocketMessage::from_value(&Value::Bool(true)), Err(DecodeError::Shape));
    assert_eq!(WebSocketMessage::from_value(&Value::from(7)), Err(DecodeError::Shape));
    assert_eq!(WebSocketMessage::from_value(&Value::Array(vec![text("users")])), Err(DecodeError::Shape));
    assert_eq!(WebSocketMessage::from_value(&object(vec![])), Err(DecodeError::Shape));
    let value = object(vec![("messageType", Value::from(1))]);
    assert_eq!(WebSocketMessage::from_value(&value), Err(DecodeError::Shape));
    let value = object(vec![("messageType", Value::Null)]);
    assert_eq!(WebSocketMessage::from_value(&value), Err(DecodeError::Shape));
    let value = object(vec![("messageType", text("users")), ("dataArray", text("a"))]);
    assert_eq!(WebSocketMessage::from_value(&value), Err(DecodeError::Shape));
    let value = object(vec![
        ("messageType", text("users")),
        ("dataArray", Value::Array(vec![text("a"), Value::from(2)])),
    ]);
    assert_eq!(WebSocketMessage::from_value(&value), Err(DecodeError::Shape));
    let value = object(vec![("messageType", text("message")), ("data", Value::Bool(false))]);
    assert_eq!(WebSocketMessage::from_value(&value), Err(DecodeError::Shape));
    let value = object(vec![("messageType", text("message")), ("data", object(vec![]))]);
    assert_eq!(WebSocketMessage::from_value(&value), Err(DecodeError::Shape));
}

#[test]
fn decode_reads_what_a_server_sends() {
    let sent = r#"{"messageType":"users","dataArray":["alice","bob"]}"#;
    assert_eq!(decode(sent), Ok(users(&["alice", "bob"])));
    let sent = r#"{"messageType":"message","data":"{\"from\":\"alice\",\"message\":\"hi\"}"}"#;
    assert_eq!(decode(sent), Ok(message(r#"{"from":"alice","message":"hi"}"#)));
    let sent = r#"{"messageType":"register","data":"alice","dataArray":null}"#;
    assert_eq!(decode(sent), Ok(register("alice")));
}

#[test]
fn decode_takes_spaces_any_order_and_members_it_does_not_know() {
    let sent = " {\n \"seq\" : 4, \"data\" : null,\t\"dataArray\" : [ \"a\" ] , \"messageType\" : \"users\" }\n";
    assert_eq!(decode(sent), Ok(users(&["a"])));
}

#[test]
fn decode_takes_a_frame_without_names_or_payload() {
    let bare = WebSocketMessage { message_type: MsgTypes::Users, data_array: None, data: None };
    assert_eq!(decode(r#"{"messageType":"users"}"#), Ok(bare));
    let bare = WebSocketMessage { message_type: MsgTypes::Message, data_array: None, data: None };
    assert_eq!(decode(r#"{"messageType":"message","data":null}"#), Ok(bare));
}

#[test]
fn decode_keeps_both_names_and_payload() {
    let both = WebSocketMessage {
        message_type: MsgTypes::Register,
        data_array: Some(vec!["a".to_string()]),
        data: Some("b".to_string()),
    };
    assert_eq!(decode(r#"{"messageType":"register","dataArray":["a"],"data":"b"}"#), Ok(both));
}

#[test]
fn decode_refuses_what_is_not_json() {
    assert_eq!(decode(""), Err(DecodeError::Syntax));
    assert_eq!(decode("hello"), Err(DecodeError::Syntax));
    assert_eq!(decode("{"), Err(DecodeError::Syntax));
    assert_eq!(decode(r#"{"messageType":"users""#), Err(DecodeError::Syntax));
    assert_eq!(decode(r#"{"messageType":"users"} x"#), Err(DecodeError::Syntax));
    assert_eq!(decode(r#"{messageType:"users"}"#), Err(DecodeError::Syntax));
}

#[test]
fn decode_refuses_json_of_another_shape() {
    assert_eq!(decode("null"), Err(DecodeError::Shape));
    assert_eq!(decode("[]"), Err(DecodeError::Shape));
    assert_eq!(decode("{}"), Err(DecodeError::Shape));
    assert_eq!(decode(r#""users""#), Err(DecodeError::Shape));
    assert_eq!(decode(r#"{"messageType":"shout"}"#), Err(DecodeError::Shape));
    assert_eq!(decode(r#"{"messageType":"USERS"}"#), Err(DecodeError::Shape));
    assert_eq!(decode(r#"{"message_type":"users"}"#), Err(DecodeError::Shape));
    assert_eq!(decode(r#"{"messageType":"users","dataArray":[1]}"#), Err(DecodeError::Shape));
    assert_eq!(decode(r#"{"messageType":"users","dataArray":{}}"#), Err(DecodeError::Shape));
    assert_eq!(decode(r#"{"messageType":"message","data":5}"#), Err(DecodeError::Shape));
    assert_eq!(decode(r#"{"messageType":"message","data":["a"]}"#), Err(DecodeError::Shape));
}

#[test]
fn frames_are_read_back_from_their_text() {
    let frames = vec![
        register("alice"),
        register(""),
        users(&[]),
        users(&["a", "b", "a"]),
        message(r#"{"from":"a","message":"hi"}"#),
        message("not json at all"),
        message("quote \" backslash \\ slash / newline \n tab \t bell \u{7} del \u{7f}"),
        message("snowman \u{2603} clef \u{1d11e} line separator \u{2028}"),
        WebSocketMessage { message_type: MsgTypes::Users, data_array: None, data: None },
        WebSocketMessage { message_type: MsgTypes::Message, data_array: None, data: None },
        WebSocketMessage {
            message_type: MsgTypes::Register,
            data_array: Some(vec!["x".to_string(), "".to_string()]),
            data: Some("y".to_string()),
        },
    ];
    for frame in frames {
        assert_eq!(decode(&encode(&frame)), Ok(frame));
    }
}

#[test]
fn chat_entry_is_written_as_an_object_of_two_members() {
    let entry = MessageData { from: "a".to_string(), message: "hi".to_string() };
    assert_eq!(encode_chat_entry(&entry), r#"{"from":"a","message":"hi"}"#);
    assert_eq!(entry.to_value(), object(vec![("from", text("a")), ("message", text("hi"))]));
}

#[test]
fn chat_entry_is_read_from_its_text() {
    let entry = MessageData { from: "alice".to_string(), message: "party.gif".to_string() };
    assert_eq!(decode_chat_entry(r#"{"message":"party.gif","from":"alice","at":12}"#), Ok(entry));
}

#[test]
fn chat_entry_is_read_from_a_value() {
    let value = object(vec![("from", text("a")), ("message", text(""))]);
    let entry = MessageData { from: "a".to_string(), message: "".to_string() };
    assert_eq!(MessageData::from_value(&value), Ok(entry));
}

#[test]
fn chat_entry_needs_both_members_as_strings() {
    assert_eq!(decode_chat_entry("hi there"), Err(DecodeError::Syntax));
    assert_eq!(decode_chat_entry(""), Err(DecodeError::Syntax));
    assert_eq!(decode_chat_entry("{}"), Err(DecodeError::Shape));
    assert_eq!(decode_chat_entry(r#"{"from":"a"}"#), Err(DecodeError::Shape));
    assert_eq!(decode_chat_entry(r#"{"message":"hi"}"#), Err(DecodeError::Shape));
    assert_eq!(decode_chat_entry(r#"{"from":null,"message":"hi"}"#), Err(DecodeError::Shape));
    assert_eq!(decode_chat_entry(r#"{"from":"a","message":1}"#), Err(DecodeError::Shape));
    assert_eq!(decode_chat_entry(r#"["a","hi"]"#), Err(DecodeError::Shape));
    assert_eq!(decode_chat_entry(r#""hi""#), Err(DecodeError::Shape));
    assert_eq!(MessageData::from_value(&Value::Null), Err(DecodeError::Shape));
}

#[test]
fn chat_entries_are_read_back_from_their_text() {
    let entries = vec![
        MessageData { from: "a".to_string(), message: "hi".to_string() },
        MessageData { from: "".to_string(), message: "".to_string() },
        MessageData { from: "\"q\"".to_string(), message: "line\nbreak \\ \u{1f600}".to_string() },
    ];
    for entry in entries {
        assert_eq!(decode_chat_entry(&encode_chat_entry(&entry)), Ok(entry));
    }
}

#[test]
fn written_frame_holds_the_frame_s_document() {
    let frame = users(&["a", "b"]);
    let read: Value = serde_json::from_str(&encode(&frame)).unwrap();
    assert_eq!(read, frame.to_value());
}
