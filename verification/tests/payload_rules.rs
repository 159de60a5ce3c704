use signaling::error::DecodeError;
use signaling::json::Json;
use signaling::locale::LocaleValue;
use signaling::payloads::{
    GetChatUnit, GetLocale, GetRoom, GetUserId, RoomList, SetRoom, SetUserId,
};

fn s(x: &str) -> Json {
    Json::Str(x.to_string())
}

fn obj(fields: Vec<(&str, Json)>) -> Json {
    Json::Obj(fields.into_iter().map(|(k, v)| (k.to_string(), v)).collect())
}

#[test]
fn locale_query_decodes_the_vocabulary() {
    let p = GetLocale::from_value(&obj(vec![("locale", s("en"))])).unwrap();
    assert_eq!(p.locale, LocaleValue::En);
    let q = GetLocale::from_value(&obj(vec![("locale", s("ru"))])).unwrap();
    assert_eq!(q.locale, LocaleValue::Ru);
}

#[test]
fn unknown_locale_is_invalid_enum() {
    match GetLocale::from_value(&obj(vec![("locale", s("xx"))])) {
        Err(DecodeError::InvalidEnumValue { field, got }) => {
            assert_eq!(field, "locale");
            assert_eq!(got, "xx");
        }
        other => panic!("expected InvalidEnumValue, got {:?}", other),
    }
}

#[test]
fn missing_locale_is_malformed() {
    match GetLocale::from_value(&obj(vec![])) {
        Err(DecodeError::MalformedPayload { field }) => assert_eq!(field, "locale"),
        other => panic!("expected MalformedPayload locale, got {:?}", other),
    }
}

#[test]
fn null_locale_is_malformed_too() {
    match GetLocale::from_value(&obj(vec![("locale", Json::Null)])) {
        Err(DecodeError::MalformedPayload { field }) => assert_eq!(field, "locale"),
        other => panic!("expected MalformedPayload locale, got {:?}", other),
    }
}

#[test]
fn chat_unit_needs_user_and_locale() {
    let p =
        GetChatUnit::from_value(&obj(vec![("userId", s("u1")), ("locale", s("en"))])).unwrap();
    assert_eq!(p.userId, "u1");
    assert_eq!(p.locale, LocaleValue::En);
    match GetChatUnit::from_value(&obj(vec![("locale", s("en"))])) {
        Err(DecodeError::MalformedPayload { field }) => assert_eq!(field, "userId"),
        other => panic!("expected MalformedPayload userId, got {:?}", other),
    }
}

#[test]
fn user_id_query_takes_the_optional_room_flag() {
    let v = obj(vec![
        ("isRoom", Json::Bool(true)),
        ("userName", s("alice")),
        ("locale", s("en")),
    ]);
    let p = GetUserId::from_value(&v).unwrap();
    assert_eq!(p.isRoom, Some(true));
    assert_eq!(p.userName, "alice");
    let w = obj(vec![("userName", s("alice")), ("locale", s("en"))]);
    let q = GetUserId::from_value(&w).unwrap();
    assert_eq!(q.isRoom, None);
}

#[test]
fn user_id_query_without_user_name_is_malformed() {
    match GetUserId::from_value(&obj(vec![("locale", s("en"))])) {
        Err(DecodeError::MalformedPayload { field }) => assert_eq!(field, "userName"),
        other => panic!("expected MalformedPayload userName, got {:?}", other),
    }
}

#[test]
fn room_query_needs_all_three_fields() {
    let v = obj(vec![
        ("userId", s("u1")),
        ("mimeType", s("video/webm")),
        ("isPublic", Json::Bool(false)),
    ]);
    let p = GetRoom::from_value(&v).unwrap();
    assert_eq!(p.userId, "u1");
    assert_eq!(p.mimeType, "video/webm");
    assert!(!p.isPublic);
    match GetRoom::from_value(&obj(vec![("userId", s("u1")), ("mimeType", s("video/webm"))])) {
        Err(DecodeError::MalformedPayload { field }) => assert_eq!(field, "isPublic"),
        other => panic!("expected MalformedPayload isPublic, got {:?}", other),
    }
}

#[test]
fn wrong_typed_is_public_is_malformed() {
    let v = obj(vec![
        ("userId", s("u1")),
        ("mimeType", s("video/webm")),
        ("isPublic", s("yes")),
    ]);
    match GetRoom::from_value(&v) {
        Err(DecodeError::MalformedPayload { field }) => assert_eq!(field, "isPublic"),
        other => panic!("expected MalformedPayload isPublic, got {:?}", other),
    }
}

#[test]
fn queries_re_encode_equal() {
    let v = obj(vec![
        ("isRoom", Json::Bool(false)),
        ("userName", s("bob")),
        ("locale", s("ru")),
    ]);
    let p = GetUserId::from_value(&v).unwrap();
    let back = GetUserId::from_value(&p.to_value()).unwrap();
    assert_eq!(back.isRoom, p.isRoom);
    assert_eq!(back.userName, p.userName);
    assert_eq!(back.locale, p.locale);

    let w = obj(vec![("userId", s("u1")), ("locale", s("en"))]);
    let q = GetChatUnit::from_value(&w).unwrap();
    let qback = GetChatUnit::from_value(&q.to_value()).unwrap();
    assert_eq!(qback.userId, q.userId);
    assert_eq!(qback.locale, q.locale);
}

#[test]
fn set_user_id_encodes_its_name() {
    let p = SetUserId { name: "alice".to_string() };
    match p.to_value() {
        Json::Obj(fields) => {
            assert_eq!(fields.len(), 1);
            assert_eq!(fields[0].0, "name");
            match &fields[0].1 {
                Json::Str(x) => assert_eq!(x, "alice"),
                other => panic!("expected string, got {:?}", other),
            }
        }
        other => panic!("expected object, got {:?}", other),
    }
}

#[test]
fn set_room_encodes_owner_and_asked() {
    let p = SetRoom { isOwner: true, asked: vec!["a".to_string(), "b".to_string()] };
    match p.to_value() {
        Json::Obj(fields) => {
            assert_eq!(fields.len(), 2);
            assert_eq!(fields[0].0, "isOwner");
            assert!(matches!(fields[0].1, Json::Bool(true)));
            assert_eq!(fields[1].0, "asked");
            match &fields[1].1 {
                Json::Arr(items) => {
                    assert_eq!(items.len(), 2);
                    assert!(matches!(&items[0], Json::Str(x) if x == "a"));
                    assert!(matches!(&items[1], Json::Str(x) if x == "b"));
                }
                other => panic!("expected array, got {:?}", other),
            }
        }
        other => panic!("expected object, got {:?}", other),
    }
}

#[test]
fn room_list_encodes_room_and_users() {
    let p = RoomList { room_id: "r1".to_string(), users: vec!["u1".to_string()] };
    match p.to_value() {
        Json::Obj(fields) => {
            assert_eq!(fields.len(), 2);
            assert_eq!(fields[0].0, "room_id");
            assert!(matches!(&fields[0].1, Json::Str(x) if x == "r1"));
            assert_eq!(fields[1].0, "users");
            match &fields[1].1 {
                Json::Arr(items) => {
                    assert_eq!(items.len(), 1);
                    assert!(matches!(&items[0], Json::Str(x) if x == "u1"));
                }
                other => panic!("expected array, got {:?}", other),
            }
        }
        other => panic!("expected object, got {:?}", other),
    }
}
