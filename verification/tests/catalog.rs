use signaling::error::DecodeError;
use signaling::kind::MessageType;

fn all_kinds() -> Vec<MessageType> {
    vec![
        MessageType::SET_LOCALE,
        MessageType::GET_LOCALE,
        MessageType::GET_USER_ID,
        MessageType::SET_USER_ID,
        MessageType::GET_LOGIN,
        MessageType::TOKEN,
        MessageType::OFFER,
        MessageType::CANDIDATE,
        MessageType::ANSWER,
        MessageType::GET_ROOM,
        MessageType::SET_ROOM,
        MessageType::GET_CHAT_UNIT,
        MessageType::GET_SETTINGS_UNIT,
        MessageType::SET_ERROR,
        MessageType::GET_ROOM_GUESTS,
        MessageType::SET_ROOM_GUESTS,
        MessageType::SET_CHANGE_UNIT,
        MessageType::GET_MUTE,
        MessageType::SET_MUTE,
        MessageType::GET_NEED_RECONNECT,
        MessageType::GET_CLOSE_PEER_CONNECTION,
        MessageType::SET_CLOSE_PEER_CONNECTION,
        MessageType::GET_ROOM_MESSAGE,
        MessageType::SET_ROOM_MESSAGE,
        MessageType::SET_CHAT_UNIT,
        MessageType::SET_SETTINGS_UNIT,
        MessageType::GET_CHAT_MESSAGES,
        MessageType::SET_CHAT_MESSAGES,
        MessageType::GET_EDIT_MESSAGE,
        MessageType::SET_EDIT_MESSAGE,
        MessageType::GET_CREATE_MESSAGE,
        MessageType::SET_CREATE_MESSAGE,
        MessageType::GET_CREATE_QUOTE,
        MessageType::SET_CREATE_QUOTE,
        MessageType::GET_DELETE_MESSAGE,
        MessageType::SET_DELETE_MESSAGE,
        MessageType::GET_TO_MUTE,
        MessageType::GET_TO_BAN,
        MessageType::GET_TO_UNMUTE,
        MessageType::GET_TO_UNBAN,
        MessageType::SET_BAN_LIST,
        MessageType::SET_MUTE_LIST,
        MessageType::GET_RECORD,
        MessageType::SET_RECORDING,
        MessageType::GET_VIDEO_FIND_MANY,
        MessageType::SET_VIDEO_FIND_MANY,
        MessageType::GET_VIDEO_FIND_FIRST,
        MessageType::SET_VIDEO_FIND_FIRST,
        MessageType::GET_ASK_FLOOR,
        MessageType::SET_ASK_FLOOR,
        MessageType::GET_MUTE_FOR_ALL,
        MessageType::SET_MUTE_FOR_ALL,
        MessageType::GET_BLOCK_CHAT,
        MessageType::SET_BLOCK_CHAT,
        MessageType::GET_VIDEO_TRACK,
        MessageType::SET_VIDEO_TRACK,
        MessageType::GET_TO_ADMIN,
        MessageType::SET_TO_ADMIN,
        MessageType::GET_VIDEO_SETTINGS,
        MessageType::SET_CREATE_VIDEO,
        MessageType::GET_VIDEO_DELETE,
        MessageType::SET_VIDEO_DELETE,
        MessageType::GET_VIDEO_UPDATE,
        MessageType::SET_VIDEO_UPDATE,
    ]
}

#[test]
fn every_wire_token_names_its_kind_again() {
    let kinds = all_kinds();
    assert_eq!(kinds.len(), 64);
    for k in kinds {
        let token = k.as_str();
        assert_eq!(MessageType::from_str(token).unwrap(), k);
    }
}

#[test]
fn wire_tokens_are_spelled_exactly() {
    assert_eq!(MessageType::GET_LOCALE.as_str(), "GET_LOCALE");
    assert_eq!(MessageType::SET_LOCALE.as_str(), "SET_LOCALE");
    assert_eq!(MessageType::OFFER.as_str(), "OFFER");
    assert_eq!(MessageType::ANSWER.as_str(), "ANSWER");
    assert_eq!(MessageType::CANDIDATE.as_str(), "CANDIDATE");
    assert_eq!(MessageType::TOKEN.as_str(), "TOKEN");
    assert_eq!(
        MessageType::GET_CLOSE_PEER_CONNECTION.as_str(),
        "GET_CLOSE_PEER_CONNECTION"
    );
    assert_eq!(MessageType::SET_VIDEO_UPDATE.as_str(), "SET_VIDEO_UPDATE");
}

#[test]
fn wire_tokens_are_pairwise_distinct() {
    let kinds = all_kinds();
    for i in 0..kinds.len() {
        for j in 0..kinds.len() {
            if i != j {
                assert_ne!(kinds[i].as_str(), kinds[j].as_str());
            }
        }
    }
}

#[test]
fn token_outside_the_catalog_is_unknown_kind() {
    match MessageType::from_str("NOT_A_KIND") {
        Err(DecodeError::UnknownKind { got }) => assert_eq!(got, "NOT_A_KIND"),
        other => panic!("expected UnknownKind, got {:?}", other),
    }
}

#[test]
fn matching_is_case_sensitive() {
    assert!(MessageType::from_str("get_locale").is_err());
    assert!(MessageType::from_str("Offer").is_err());
    assert!(MessageType::from_str("").is_err());
}
