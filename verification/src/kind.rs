//! The closed catalog of message kinds and its wire-token mapping.
//!
//! Every signaling message carries one of these tags; each tag owns exactly
//! one upper-snake-case wire token, and the token text is a compatibility
//! contract with existing clients.

use vstd::prelude::*;

use crate::error::{DecodeError, DecodeErrorV};
use crate::json::str_eq;

verus! {

/// The closed catalog of signaling-message kinds.
#[allow(non_camel_case_types)]
#[derive(Debug, Clone, Copy, PartialEq, Eq, Structural)]
pub enum MessageType {
    SET_LOCALE,
    GET_LOCALE,
    GET_USER_ID,
    SET_USER_ID,
    GET_LOGIN,
    TOKEN,
    OFFER,
    CANDIDATE,
    ANSWER,
    GET_ROOM,
    SET_ROOM,
    GET_CHAT_UNIT,
    GET_SETTINGS_UNIT,
    SET_ERROR,
    GET_ROOM_GUESTS,
    SET_ROOM_GUESTS,
    SET_CHANGE_UNIT,
    GET_MUTE,
    SET_MUTE,
    GET_NEED_RECONNECT,
    GET_CLOSE_PEER_CONNECTION,
    SET_CLOSE_PEER_CONNECTION,
    GET_ROOM_MESSAGE,
    SET_ROOM_MESSAGE,
    SET_CHAT_UNIT,
    SET_SETTINGS_UNIT,
    GET_CHAT_MESSAGES,
    SET_CHAT_MESSAGES,
    GET_EDIT_MESSAGE,
    SET_EDIT_MESSAGE,
    GET_CREATE_MESSAGE,
    SET_CREATE_MESSAGE,
    GET_CREATE_QUOTE,
    SET_CREATE_QUOTE,
    GET_DELETE_MESSAGE,
    SET_DELETE_MESSAGE,
    GET_TO_MUTE,
    GET_TO_BAN,
    GET_TO_UNMUTE,
    GET_TO_UNBAN,
    SET_BAN_LIST,
    SET_MUTE_LIST,
    GET_RECORD,
    SET_RECORDING,
    GET_VIDEO_FIND_MANY,
    SET_VIDEO_FIND_MANY,
    GET_VIDEO_FIND_FIRST,
    SET_VIDEO_FIND_FIRST,
    GET_ASK_FLOOR,
    SET_ASK_FLOOR,
    GET_MUTE_FOR_ALL,
    SET_MUTE_FOR_ALL,
    GET_BLOCK_CHAT,
    SET_BLOCK_CHAT,
    GET_VIDEO_TRACK,
    SET_VIDEO_TRACK,
    GET_TO_ADMIN,
    SET_TO_ADMIN,
    GET_VIDEO_SETTINGS,
    SET_CREATE_VIDEO,
    GET_VIDEO_DELETE,
    SET_VIDEO_DELETE,
    GET_VIDEO_UPDATE,
    SET_VIDEO_UPDATE,
}

/// The canonical wire token of `k`: total and exhaustive.
pub open spec fn wire_token(k: MessageType) -> Seq<char> {
    match k {
        MessageType::SET_LOCALE => "SET_LOCALE"@,
        MessageType::GET_LOCALE => "GET_LOCALE"@,
        MessageType::GET_USER_ID => "GET_USER_ID"@,
        MessageType::SET_USER_ID => "SET_USER_ID"@,
        MessageType::GET_LOGIN => "GET_LOGIN"@,
        MessageType::TOKEN => "TOKEN"@,
        MessageType::OFFER => "OFFER"@,
        MessageType::CANDIDATE => "CANDIDATE"@,
        MessageType::ANSWER => "ANSWER"@,
        MessageType::GET_ROOM => "GET_ROOM"@,
        MessageType::SET_ROOM => "SET_ROOM"@,
        MessageType::GET_CHAT_UNIT => "GET_CHAT_UNIT"@,
        MessageType::GET_SETTINGS_UNIT => "GET_SETTINGS_UNIT"@,
        MessageType::SET_ERROR => "SET_ERROR"@,
        MessageType::GET_ROOM_GUESTS => "GET_ROOM_GUESTS"@,
        MessageType::SET_ROOM_GUESTS => "SET_ROOM_GUESTS"@,
        MessageType::SET_CHANGE_UNIT => "SET_CHANGE_UNIT"@,
        MessageType::GET_MUTE => "GET_MUTE"@,
        MessageType::SET_MUTE => "SET_MUTE"@,
        MessageType::GET_NEED_RECONNECT => "GET_NEED_RECONNECT"@,
        MessageType::GET_CLOSE_PEER_CONNECTION => "GET_CLOSE_PEER_CONNECTION"@,
        MessageType::SET_CLOSE_PEER_CONNECTION => "SET_CLOSE_PEER_CONNECTION"@,
        MessageType::GET_ROOM_MESSAGE => "GET_ROOM_MESSAGE"@,
        MessageType::SET_ROOM_MESSAGE => "SET_ROOM_MESSAGE"@,
        MessageType::SET_CHAT_UNIT => "SET_CHAT_UNIT"@,
        MessageType::SET_SETTINGS_UNIT => "SET_SETTINGS_UNIT"@,
        MessageType::GET_CHAT_MESSAGES => "GET_CHAT_MESSAGES"@,
        MessageType::SET_CHAT_MESSAGES => "SET_CHAT_MESSAGES"@,
        MessageType::GET_EDIT_MESSAGE => "GET_EDIT_MESSAGE"@,
        MessageType::SET_EDIT_MESSAGE => "SET_EDIT_MESSAGE"@,
        MessageType::GET_CREATE_MESSAGE => "GET_CREATE_MESSAGE"@,
        MessageType::SET_CREATE_MESSAGE => "SET_CREATE_MESSAGE"@,
        MessageType::GET_CREATE_QUOTE => "GET_CREATE_QUOTE"@,
        MessageType::SET_CREATE_QUOTE => "SET_CREATE_QUOTE"@,
        MessageType::GET_DELETE_MESSAGE => "GET_DELETE_MESSAGE"@,
        MessageType::SET_DELETE_MESSAGE => "SET_DELETE_MESSAGE"@,
        MessageType::GET_TO_MUTE => "GET_TO_MUTE"@,
        MessageType::GET_TO_BAN => "GET_TO_BAN"@,
        MessageType::GET_TO_UNMUTE => "GET_TO_UNMUTE"@,
        MessageType::GET_TO_UNBAN => "GET_TO_UNBAN"@,
        MessageType::SET_BAN_LIST => "SET_BAN_LIST"@,
        MessageType::SET_MUTE_LIST => "SET_MUTE_LIST"@,
        MessageType::GET_RECORD => "GET_RECORD"@,
        MessageType::SET_RECORDING => "SET_RECORDING"@,
        MessageType::GET_VIDEO_FIND_MANY => "GET_VIDEO_FIND_MANY"@,
        MessageType::SET_VIDEO_FIND_MANY => "SET_VIDEO_FIND_MANY"@,
        MessageType::GET_VIDEO_FIND_FIRST => "GET_VIDEO_FIND_FIRST"@,
        MessageType::SET_VIDEO_FIND_FIRST => "SET_VIDEO_FIND_FIRST"@,
        MessageType::GET_ASK_FLOOR => "GET_ASK_FLOOR"@,
        MessageType::SET_ASK_FLOOR => "SET_ASK_FLOOR"@,
        MessageType::GET_MUTE_FOR_ALL => "GET_MUTE_FOR_ALL"@,
        MessageType::SET_MUTE_FOR_ALL => "SET_MUTE_FOR_ALL"@,
        MessageType::GET_BLOCK_CHAT => "GET_BLOCK_CHAT"@,
        MessageType::SET_BLOCK_CHAT => "SET_BLOCK_CHAT"@,
        MessageType::GET_VIDEO_TRACK => "GET_VIDEO_TRACK"@,
        MessageType::SET_VIDEO_TRACK => "SET_VIDEO_TRACK"@,
        MessageType::GET_TO_ADMIN => "GET_TO_ADMIN"@,
        MessageType::SET_TO_ADMIN => "SET_TO_ADMIN"@,
        MessageType::GET_VIDEO_SETTINGS => "GET_VIDEO_SETTINGS"@,
        MessageType::SET_CREATE_VIDEO => "SET_CREATE_VIDEO"@,
        MessageType::GET_VIDEO_DELETE => "GET_VIDEO_DELETE"@,
        MessageType::SET_VIDEO_DELETE => "SET_VIDEO_DELETE"@,
        MessageType::GET_VIDEO_UPDATE => "GET_VIDEO_UPDATE"@,
        MessageType::SET_VIDEO_UPDATE => "SET_VIDEO_UPDATE"@,
    }
}

/// The kind a wire token names, by exact, case-sensitive match; `None` for
/// a token outside the catalog.
pub open spec fn from_wire_token(s: Seq<char>) -> Option<MessageType> {
    if s == "GET_LOCALE"@ {
        Some(MessageType::GET_LOCALE)
    } else if s == "SET_LOCALE"@ {
        Some(MessageType::SET_LOCALE)
    } else if s == "GET_USER_ID"@ {
        Some(MessageType::GET_USER_ID)
    } else if s == "SET_USER_ID"@ {
        Some(MessageType::SET_USER_ID)
    } else if s == "GET_LOGIN"@ {
        Some(MessageType::GET_LOGIN)
    } else if s == "TOKEN"@ {
        Some(MessageType::TOKEN)
    } else if s == "OFFER"@ {
        Some(MessageType::OFFER)
    } else if s == "ANSWER"@ {
        Some(MessageType::ANSWER)
    } else if s == "CANDIDATE"@ {
        Some(MessageType::CANDIDATE)
    } else if s == "GET_ROOM"@ {
        Some(MessageType::GET_ROOM)
    } else if s == "SET_ROOM"@ {
        Some(MessageType::SET_ROOM)
    } else if s == "GET_CHAT_UNIT"@ {
        Some(MessageType::GET_CHAT_UNIT)
    } else if s == "GET_SETTINGS_UNIT"@ {
        Some(MessageType::GET_SETTINGS_UNIT)
    } else if s == "SET_ERROR"@ {
        Some(MessageType::SET_ERROR)
    } else if s == "GET_ROOM_GUESTS"@ {
        Some(MessageType::GET_ROOM_GUESTS)
    } else if s == "SET_ROOM_GUESTS"@ {
        Some(MessageType::SET_ROOM_GUESTS)
    } else if s == "SET_CHANGE_UNIT"@ {
        Some(MessageType::SET_CHANGE_UNIT)
    } else if s == "GET_MUTE"@ {
        Some(MessageType::GET_MUTE)
    } else if s == "GET_NEED_RECONNECT"@ {
        Some(MessageType::GET_NEED_RECONNECT)
    } else if s == "SET_MUTE"@ {
        Some(MessageType::SET_MUTE)
    } else if s == "GET_CLOSE_PEER_CONNECTION"@ {
        Some(MessageType::GET_CLOSE_PEER_CONNECTION)
    } else if s == "SET_CLOSE_PEER_CONNECTION"@ {
        Some(MessageType::SET_CLOSE_PEER_CONNECTION)
    } else if s == "GET_ROOM_MESSAGE"@ {
        Some(MessageType::GET_ROOM_MESSAGE)
    } else if s == "SET_ROOM_MESSAGE"@ {
        Some(MessageType::SET_ROOM_MESSAGE)
    } else if s == "SET_CHAT_UNIT"@ {
        Some(MessageType::SET_CHAT_UNIT)
    } else if s == "SET_SETTINGS_UNIT"@ {
        Some(MessageType::SET_SETTINGS_UNIT)
    } else if s == "GET_CHAT_MESSAGES"@ {
        Some(MessageType::GET_CHAT_MESSAGES)
    } else if s == "SET_CHAT_MESSAGES"@ {
        Some(MessageType::SET_CHAT_MESSAGES)
    } else if s == "GET_EDIT_MESSAGE"@ {
        Some(MessageType::GET_EDIT_MESSAGE)
    } else if s == "SET_EDIT_MESSAGE"@ {
        Some(MessageType::SET_EDIT_MESSAGE)
    } else if s == "GET_CREATE_MESSAGE"@ {
        Some(MessageType::GET_CREATE_MESSAGE)
    } else if s == "SET_CREATE_MESSAGE"@ {
        Some(MessageType::SET_CREATE_MESSAGE)
    } else if s == "GET_CREATE_QUOTE"@ {
        Some(MessageType::GET_CREATE_QUOTE)
    } else if s == "SET_CREATE_QUOTE"@ {
        Some(MessageType::SET_CREATE_QUOTE)
    } else if s == "GET_DELETE_MESSAGE"@ {
        Some(MessageType::GET_DELETE_MESSAGE)
    } else if s == "SET_DELETE_MESSAGE"@ {
        Some(MessageType::SET_DELETE_MESSAGE)
    } else if s == "GET_TO_MUTE"@ {
        Some(MessageType::GET_TO_MUTE)
    } else if s == "GET_TO_BAN"@ {
        Some(MessageType::GET_TO_BAN)
    } else if s == "GET_TO_UNMUTE"@ {
        Some(MessageType::GET_TO_UNMUTE)
    } else if s == "GET_TO_UNBAN"@ {
        Some(MessageType::GET_TO_UNBAN)
    } else if s == "SET_BAN_LIST"@ {
        Some(MessageType::SET_BAN_LIST)
    } else if s == "SET_MUTE_LIST"@ {
        Some(MessageType::SET_MUTE_LIST)
    } else if s == "GET_RECORD"@ {
        Some(MessageType::GET_RECORD)
    } else if s == "SET_RECORDING"@ {
        Some(MessageType::SET_RECORDING)
    } else if s == "GET_VIDEO_FIND_MANY"@ {
        Some(MessageType::GET_VIDEO_FIND_MANY)
    } else if s == "SET_VIDEO_FIND_MANY"@ {
        Some(MessageType::SET_VIDEO_FIND_MANY)
    } else if s == "GET_VIDEO_FIND_FIRST"@ {
        Some(MessageType::GET_VIDEO_FIND_FIRST)
    } else if s == "SET_VIDEO_FIND_FIRST"@ {
        Some(MessageType::SET_VIDEO_FIND_FIRST)
    } else if s == "GET_ASK_FLOOR"@ {
        Some(MessageType::GET_ASK_FLOOR)
    } else if s == "SET_ASK_FLOOR"@ {
        Some(MessageType::SET_ASK_FLOOR)
    } else if s == "GET_MUTE_FOR_ALL"@ {
        Some(MessageType::GET_MUTE_FOR_ALL)
    } else if s == "SET_MUTE_FOR_ALL"@ {
        Some(MessageType::SET_MUTE_FOR_ALL)
    } else if s == "GET_BLOCK_CHAT"@ {
        Some(MessageType::GET_BLOCK_CHAT)
    } else if s == "SET_BLOCK_CHAT"@ {
        Some(MessageType::SET_BLOCK_CHAT)
    } else if s == "GET_VIDEO_TRACK"@ {
        Some(MessageType::GET_VIDEO_TRACK)
    } else if s == "SET_VIDEO_TRACK"@ {
        Some(MessageType::SET_VIDEO_TRACK)
    } else if s == "GET_TO_ADMIN"@ {
        Some(MessageType::GET_TO_ADMIN)
    } else if s == "SET_TO_ADMIN"@ {
        Some(MessageType::SET_TO_ADMIN)
    } else if s == "GET_VIDEO_SETTINGS"@ {
        Some(MessageType::GET_VIDEO_SETTINGS)
    } else if s == "SET_CREATE_VIDEO"@ {
        Some(MessageType::SET_CREATE_VIDEO)
    } else if s == "GET_VIDEO_DELETE"@ {
        Some(MessageType::GET_VIDEO_DELETE)
    } else if s == "SET_VIDEO_DELETE"@ {
        Some(MessageType::SET_VIDEO_DELETE)
    } else if s == "GET_VIDEO_UPDATE"@ {
        Some(MessageType::GET_VIDEO_UPDATE)
    } else if s == "SET_VIDEO_UPDATE"@ {
        Some(MessageType::SET_VIDEO_UPDATE)
    } else {
        None
    }
}

impl MessageType {
    /// The canonical wire token of this kind.
    pub fn as_str(&self) -> (r: &'static str)
        ensures
            r@ == wire_token(*self),
    {
        match self {
            MessageType::SET_LOCALE => "SET_LOCALE",
            MessageType::GET_LOCALE => "GET_LOCALE",
            MessageType::GET_USER_ID => "GET_USER_ID",
            MessageType::SET_USER_ID => "SET_USER_ID",
            MessageType::GET_LOGIN => "GET_LOGIN",
            MessageType::TOKEN => "TOKEN",
            MessageType::OFFER => "OFFER",
            MessageType::CANDIDATE => "CANDIDATE",
            MessageType::ANSWER => "ANSWER",
            MessageType::GET_ROOM => "GET_ROOM",
            MessageType::SET_ROOM => "SET_ROOM",
            MessageType::GET_CHAT_UNIT => "GET_CHAT_UNIT",
            MessageType::GET_SETTINGS_UNIT => "GET_SETTINGS_UNIT",
            MessageType::SET_ERROR => "SET_ERROR",
            MessageType::GET_ROOM_GUESTS => "GET_ROOM_GUESTS",
            MessageType::SET_ROOM_GUESTS => "SET_ROOM_GUESTS",
            MessageType::SET_CHANGE_UNIT => "SET_CHANGE_UNIT",
            MessageType::GET_MUTE => "GET_MUTE",
            MessageType::SET_MUTE => "SET_MUTE",
            MessageType::GET_NEED_RECONNECT => "GET_NEED_RECONNECT",
            MessageType::GET_CLOSE_PEER_CONNECTION => "GET_CLOSE_PEER_CONNECTION",
            MessageType::SET_CLOSE_PEER_CONNECTION => "SET_CLOSE_PEER_CONNECTION",
            MessageType::GET_ROOM_MESSAGE => "GET_ROOM_MESSAGE",
            MessageType::SET_ROOM_MESSAGE => "SET_ROOM_MESSAGE",
            MessageType::SET_CHAT_UNIT => "SET_CHAT_UNIT",
            MessageType::SET_SETTINGS_UNIT => "SET_SETTINGS_UNIT",
            MessageType::GET_CHAT_MESSAGES => "GET_CHAT_MESSAGES",
            MessageType::SET_CHAT_MESSAGES => "SET_CHAT_MESSAGES",
            MessageType::GET_EDIT_MESSAGE => "GET_EDIT_MESSAGE",
            MessageType::SET_EDIT_MESSAGE => "SET_EDIT_MESSAGE",
            MessageType::GET_CREATE_MESSAGE => "GET_CREATE_MESSAGE",
            MessageType::SET_CREATE_MESSAGE => "SET_CREATE_MESSAGE",
            MessageType::GET_CREATE_QUOTE => "GET_CREATE_QUOTE",
            MessageType::SET_CREATE_QUOTE => "SET_CREATE_QUOTE",
            MessageType::GET_DELETE_MESSAGE => "GET_DELETE_MESSAGE",
            MessageType::SET_DELETE_MESSAGE => "SET_DELETE_MESSAGE",
            MessageType::GET_TO_MUTE => "GET_TO_MUTE",
            MessageType::GET_TO_BAN => "GET_TO_BAN",
            MessageType::GET_TO_UNMUTE => "GET_TO_UNMUTE",
            MessageType::GET_TO_UNBAN => "GET_TO_UNBAN",
            MessageType::SET_BAN_LIST => "SET_BAN_LIST",
            MessageType::SET_MUTE_LIST => "SET_MUTE_LIST",
            MessageType::GET_RECORD => "GET_RECORD",
            MessageType::SET_RECORDING => "SET_RECORDING",
            MessageType::GET_VIDEO_FIND_MANY => "GET_VIDEO_FIND_MANY",
            MessageType::SET_VIDEO_FIND_MANY => "SET_VIDEO_FIND_MANY",
            MessageType::GET_VIDEO_FIND_FIRST => "GET_VIDEO_FIND_FIRST",
            MessageType::SET_VIDEO_FIND_FIRST => "SET_VIDEO_FIND_FIRST",
            MessageType::GET_ASK_FLOOR => "GET_ASK_FLOOR",
            MessageType::SET_ASK_FLOOR => "SET_ASK_FLOOR",
            MessageType::GET_MUTE_FOR_ALL => "GET_MUTE_FOR_ALL",
            MessageType::SET_MUTE_FOR_ALL => "SET_MUTE_FOR_ALL",
            MessageType::GET_BLOCK_CHAT => "GET_BLOCK_CHAT",
            MessageType::SET_BLOCK_CHAT => "SET_BLOCK_CHAT",
            MessageType::GET_VIDEO_TRACK => "GET_VIDEO_TRACK",
            MessageType::SET_VIDEO_TRACK => "SET_VIDEO_TRACK",
            MessageType::GET_TO_ADMIN => "GET_TO_ADMIN",
            MessageType::SET_TO_ADMIN => "SET_TO_ADMIN",
            MessageType::GET_VIDEO_SETTINGS => "GET_VIDEO_SETTINGS",
            MessageType::SET_CREATE_VIDEO => "SET_CREATE_VIDEO",
            MessageType::GET_VIDEO_DELETE => "GET_VIDEO_DELETE",
            MessageType::SET_VIDEO_DELETE => "SET_VIDEO_DELETE",
            MessageType::GET_VIDEO_UPDATE => "GET_VIDEO_UPDATE",
            MessageType::SET_VIDEO_UPDATE => "SET_VIDEO_UPDATE",
        }
    }

    /// The kind named by `input`, by exact, case-sensitive match against the
    /// catalog; a token outside the catalog is refused as `UnknownKind`.
    pub fn from_str(input: &str) -> (r: Result<MessageType, DecodeError>)
        ensures
            match r {
                Ok(k) => from_wire_token(input@) == Some(k),
                Err(e) => from_wire_token(input@) is None && e@ == (DecodeErrorV::UnknownKind {
                    got: input@,
                }),
            },
    {
        if str_eq(input, "GET_LOCALE") {
            return Ok(MessageType::GET_LOCALE);
        }
        if str_eq(input, "SET_LOCALE") {
            return Ok(MessageType::SET_LOCALE);
        }
        if str_eq(input, "GET_USER_ID") {
            return Ok(MessageType::GET_USER_ID);
        }
        if str_eq(input, "SET_USER_ID") {
            return Ok(MessageType::SET_USER_ID);
        }
        if str_eq(input, "GET_LOGIN") {
            return Ok(MessageType::GET_LOGIN);
        }
        if str_eq(input, "TOKEN") {
            return Ok(MessageType::TOKEN);
        }
        if str_eq(input, "OFFER") {
            return Ok(MessageType::OFFER);
        }
        if str_eq(input, "ANSWER") {
            return Ok(MessageType::ANSWER);
        }
        if str_eq(input, "CANDIDATE") {
            return Ok(MessageType::CANDIDATE);
        }
        if str_eq(input, "GET_ROOM") {
            return Ok(MessageType::GET_ROOM);
        }
        if str_eq(input, "SET_ROOM") {
            return Ok(MessageType::SET_ROOM);
        }
        if str_eq(input, "GET_CHAT_UNIT") {
            return Ok(MessageType::GET_CHAT_UNIT);
        }
        if str_eq(input, "GET_SETTINGS_UNIT") {
            return Ok(MessageType::GET_SETTINGS_UNIT);
        }
        if str_eq(input, "SET_ERROR") {
            return Ok(MessageType::SET_ERROR);
        }
        if str_eq(input, "GET_ROOM_GUESTS") {
            return Ok(MessageType::GET_ROOM_GUESTS);
        }
        if str_eq(input, "SET_ROOM_GUESTS") {
            return Ok(MessageType::SET_ROOM_GUESTS);
        }
        if str_eq(input, "SET_CHANGE_UNIT") {
            return Ok(MessageType::SET_CHANGE_UNIT);
        }
        if str_eq(input, "GET_MUTE") {
            return Ok(MessageType::GET_MUTE);
        }
        if str_eq(input, "GET_NEED_RECONNECT") {
            return Ok(MessageType::GET_NEED_RECONNECT);
        }
        if str_eq(input, "SET_MUTE") {
            return Ok(MessageType::SET_MUTE);
        }
        if str_eq(input, "GET_CLOSE_PEER_CONNECTION") {
            return Ok(MessageType::GET_CLOSE_PEER_CONNECTION);
        }
        if str_eq(input, "SET_CLOSE_PEER_CONNECTION") {
            return Ok(MessageType::SET_CLOSE_PEER_CONNECTION);
        }
        if str_eq(input, "GET_ROOM_MESSAGE") {
            return Ok(MessageType::GET_ROOM_MESSAGE);
        }
        if str_eq(input, "SET_ROOM_MESSAGE") {
            return Ok(MessageType::SET_ROOM_MESSAGE);
        }
        if str_eq(input, "SET_CHAT_UNIT") {
            return Ok(MessageType::SET_CHAT_UNIT);
        }
        if str_eq(input, "SET_SETTINGS_UNIT") {
            return Ok(MessageType::SET_SETTINGS_UNIT);
        }
        if str_eq(input, "GET_CHAT_MESSAGES") {
            return Ok(MessageType::GET_CHAT_MESSAGES);
        }
        if str_eq(input, "SET_CHAT_MESSAGES") {
            return Ok(MessageType::SET_CHAT_MESSAGES);
        }
        if str_eq(input, "GET_EDIT_MESSAGE") {
            return Ok(MessageType::GET_EDIT_MESSAGE);
        }
        if str_eq(input, "SET_EDIT_MESSAGE") {
            return Ok(MessageType::SET_EDIT_MESSAGE);
        }
        if str_eq(input, "GET_CREATE_MESSAGE") {
            return Ok(MessageType::GET_CREATE_MESSAGE);
        }
        if str_eq(input, "SET_CREATE_MESSAGE") {
            return Ok(MessageType::SET_CREATE_MESSAGE);
        }
        if str_eq(input, "GET_CREATE_QUOTE") {
            return Ok(MessageType::GET_CREATE_QUOTE);
        }
        if str_eq(input, "SET_CREATE_QUOTE") {
            return Ok(MessageType::SET_CREATE_QUOTE);
        }
        if str_eq(input, "GET_DELETE_MESSAGE") {
            return Ok(MessageType::GET_DELETE_MESSAGE);
        }
        if str_eq(input, "SET_DELETE_MESSAGE") {
            return Ok(MessageType::SET_DELETE_MESSAGE);
        }
        if str_eq(input, "GET_TO_MUTE") {
            return Ok(MessageType::GET_TO_MUTE);
        }
        if str_eq(input, "GET_TO_BAN") {
            return Ok(MessageType::GET_TO_BAN);
        }
        if str_eq(input, "GET_TO_UNMUTE") {
            return Ok(MessageType::GET_TO_UNMUTE);
        }
        if str_eq(input, "GET_TO_UNBAN") {
            return Ok(MessageType::GET_TO_UNBAN);
        }
        if str_eq(input, "SET_BAN_LIST") {
            return Ok(MessageType::SET_BAN_LIST);
        }
        if str_eq(input, "SET_MUTE_LIST") {
            return Ok(MessageType::SET_MUTE_LIST);
        }
        if str_eq(input, "GET_RECORD") {
            return Ok(MessageType::GET_RECORD);
        }
        if str_eq(input, "SET_RECORDING") {
            return Ok(MessageType::SET_RECORDING);
        }
        if str_eq(input, "GET_VIDEO_FIND_MANY") {
            return Ok(MessageType::GET_VIDEO_FIND_MANY);
        }
        if str_eq(input, "SET_VIDEO_FIND_MANY") {
            return Ok(MessageType::SET_VIDEO_FIND_MANY);
        }
        if str_eq(input, "GET_VIDEO_FIND_FIRST") {
            return Ok(MessageType::GET_VIDEO_FIND_FIRST);
        }
        if str_eq(input, "SET_VIDEO_FIND_FIRST") {
            return Ok(MessageType::SET_VIDEO_FIND_FIRST);
        }
        if str_eq(input, "GET_ASK_FLOOR") {
            return Ok(MessageType::GET_ASK_FLOOR);
        }
        if str_eq(input, "SET_ASK_FLOOR") {
            return Ok(MessageType::SET_ASK_FLOOR);
        }
        if str_eq(input, "GET_MUTE_FOR_ALL") {
            return Ok(MessageType::GET_MUTE_FOR_ALL);
        }
        if str_eq(input, "SET_MUTE_FOR_ALL") {
            return Ok(MessageType::SET_MUTE_FOR_ALL);
        }
        if str_eq(input, "GET_BLOCK_CHAT") {
            return Ok(MessageType::GET_BLOCK_CHAT);
        }
        if str_eq(input, "SET_BLOCK_CHAT") {
            return Ok(MessageType::SET_BLOCK_CHAT);
        }
        if str_eq(input, "GET_VIDEO_TRACK") {
            return Ok(MessageType::GET_VIDEO_TRACK);
        }
        if str_eq(input, "SET_VIDEO_TRACK") {
            return Ok(MessageType::SET_VIDEO_TRACK);
        }
        if str_eq(input, "GET_TO_ADMIN") {
            return Ok(MessageType::GET_TO_ADMIN);
        }
        if str_eq(input, "SET_TO_ADMIN") {
            return Ok(MessageType::SET_TO_ADMIN);
        }
        if str_eq(input, "GET_VIDEO_SETTINGS") {
            return Ok(MessageType::GET_VIDEO_SETTINGS);
        }
        if str_eq(input, "SET_CREATE_VIDEO") {
            return Ok(MessageType::SET_CREATE_VIDEO);
        }
        if str_eq(input, "GET_VIDEO_DELETE") {
            return Ok(MessageType::GET_VIDEO_DELETE);
        }
        if str_eq(input, "SET_VIDEO_DELETE") {
            return Ok(MessageType::SET_VIDEO_DELETE);
        }
        if str_eq(input, "GET_VIDEO_UPDATE") {
            return Ok(MessageType::GET_VIDEO_UPDATE);
        }
        if str_eq(input, "SET_VIDEO_UPDATE") {
            return Ok(MessageType::SET_VIDEO_UPDATE);
        }
        Err(DecodeError::UnknownKind { got: input.to_owned() })
    }
}

proof fn token_names_set_locale()
    ensures
        from_wire_token(wire_token(MessageType::SET_LOCALE)) == Some(MessageType::SET_LOCALE),
{
    reveal_strlit("SET_LOCALE");
    reveal_strlit("GET_LOCALE");
    assert(("GET_LOCALE"@)[0] != ("SET_LOCALE"@)[0]);
}

proof fn token_names_get_locale()
    ensures
        from_wire_token(wire_token(MessageType::GET_LOCALE)) == Some(MessageType::GET_LOCALE),
{
    reveal_strlit("GET_LOCALE");
}

proof fn token_names_get_user_id()
    ensures
        from_wire_token(wire_token(MessageType::GET_USER_ID)) == Some(MessageType::GET_USER_ID),
{
    reveal_strlit("GET_USER_ID");
    reveal_strlit("GET_LOCALE");
    assert(("GET_LOCALE"@).len() != ("GET_USER_ID"@).len());
    reveal_strlit("SET_LOCALE");
    assert(("SET_LOCALE"@).len() != ("GET_USER_ID"@).len());
}

proof fn token_names_set_user_id()
    ensures
        from_wire_token(wire_token(MessageType::SET_USER_ID)) == Some(MessageType::SET_USER_ID),
{
    reveal_strlit("SET_USER_ID");
    reveal_strlit("GET_LOCALE");
    assert(("GET_LOCALE"@).len() != ("SET_USER_ID"@).len());
    reveal_strlit("SET_LOCALE");
    assert(("SET_LOCALE"@).len() != ("SET_USER_ID"@).len());
    reveal_strlit("GET_USER_ID");
    assert(("GET_USER_ID"@)[0] != ("SET_USER_ID"@)[0]);
}

proof fn token_names_get_login()
    ensures
        from_wire_token(wire_token(MessageType::GET_LOGIN)) == Some(MessageType::GET_LOGIN),
{
    reveal_strlit("GET_LOGIN");
    reveal_strlit("GET_LOCALE");
    assert(("GET_LOCALE"@).len() != ("GET_LOGIN"@).len());
    reveal_strlit("SET_LOCALE");
    assert(("SET_LOCALE"@).len() != ("GET_LOGIN"@).len());
    reveal_strlit("GET_USER_ID");
    assert(("GET_USER_ID"@).len() != ("GET_LOGIN"@).len());
    reveal_strlit("SET_USER_ID");
    assert(("SET_USER_ID"@).len() != ("GET_LOGIN"@).len());
}

proof fn token_names_token()
    ensures
        from_wire_token(wire_token(MessageType::TOKEN)) == Some(MessageType::TOKEN),
{
    reveal_strlit("TOKEN");
    reveal_strlit("GET_LOCALE");
    assert(("GET_LOCALE"@).len() != ("TOKEN"@).len());
    reveal_strlit("SET_LOCALE");
    assert(("SET_LOCALE"@).len() != ("TOKEN"@).len());
    reveal_strlit("GET_USER_ID");
    assert(("GET_USER_ID"@).len() != ("TOKEN"@).len());
    reveal_strlit("SET_USER_ID");
    assert(("SET_USER_ID"@).len() != ("TOKEN"@).len());
    reveal_strlit("GET_LOGIN");
    assert(("GET_LOGIN"@).len() != ("TOKEN"@).len());
}

proof fn token_names_offer()
    ensures
        from_wire_token(wire_token(MessageType::OFFER)) == Some(MessageType::OFFER),
{
    reveal_strlit("OFFER");
    reveal_strlit("GET_LOCALE");
    assert(("GET_LOCALE"@).len() != ("OFFER"@).len());
    reveal_strlit("SET_LOCALE");
    assert(("SET_LOCALE"@).len() != ("OFFER"@).len());
    reveal_strlit("GET_USER_ID");
    assert(("GET_USER_ID"@).len() != ("OFFER"@).len());
    reveal_strlit("SET_USER_ID");
    assert(("SET_USER_ID"@).len() != ("OFFER"@).len());
    reveal_strlit("GET_LOGIN");
    assert(("GET_LOGIN"@).len() != ("OFFER"@).len());
    reveal_strlit("TOKEN");
    assert(("TOKEN"@)[0] != ("OFFER"@)[0]);
}

proof fn token_names_candidate()
    ensures
        from_wire_token(wire_token(MessageType::CANDIDATE)) == Some(MessageType::CANDIDATE),
{
    reveal_strlit("CANDIDATE");
    reveal_strlit("GET_LOCALE");
    assert(("GET_LOCALE"@).len() != ("CANDIDATE"@).len());
    reveal_strlit("SET_LOCALE");
    assert(("SET_LOCALE"@).len() != ("CANDIDATE"@).len());
    reveal_strlit("GET_USER_ID");
    assert(("GET_USER_ID"@).len() != ("CANDIDATE"@).len());
    reveal_strlit("SET_USER_ID");
    assert(("SET_USER_ID"@).len() != ("CANDIDATE"@).len());
    reveal_strlit("GET_LOGIN");
    assert(("GET_LOGIN"@)[0] != ("CANDIDATE"@)[0]);
    reveal_strlit("TOKEN");
    assert(("TOKEN"@).len() != ("CANDIDATE"@).len());
    reveal_strlit("OFFER");
    assert(("OFFER"@).len() != ("CANDIDATE"@).len());
    reveal_strlit("ANSWER");
    assert(("ANSWER"@).len() != ("CANDIDATE"@).len());
}

proof fn token_names_answer()
    ensures
        from_wire_token(wire_token(MessageType::ANSWER)) == Some(MessageType::ANSWER),
{
    reveal_strlit("ANSWER");
    reveal_strlit("GET_LOCALE");
    assert(("GET_LOCALE"@).len() != ("ANSWER"@).len());
    reveal_strlit("SET_LOCALE");
    assert(("SET_LOCALE"@).len() != ("ANSWER"@).len());
    reveal_strlit("GET_USER_ID");
    assert(("GET_USER_ID"@).len() != ("ANSWER"@).len());
    reveal_strlit("SET_USER_ID");
    assert(("SET_USER_ID"@).len() != ("ANSWER"@).len());
    reveal_strlit("GET_LOGIN");
    assert(("GET_LOGIN"@).len() != ("ANSWER"@).len());
    reveal_strlit("TOKEN");
    assert(("TOKEN"@).len() != ("ANSWER"@).len());
    reveal_strlit("OFFER");
    assert(("OFFER"@).len() != ("ANSWER"@).len());
}

proof fn token_names_get_room()
    ensures
        from_wire_token(wire_token(MessageType::GET_ROOM)) == Some(MessageType::GET_ROOM),
{
    reveal_strlit("GET_ROOM");
    reveal_strlit("GET_LOCALE");
    assert(("GET_LOCALE"@).len() != ("GET_ROOM"@).len());
    reveal_strlit("SET_LOCALE");
    assert(("SET_LOCALE"@).len() != ("GET_ROOM"@).len());
    reveal_strlit("GET_USER_ID");
    assert(("GET_USER_ID"@).len() != ("GET_ROOM"@).len());
    reveal_strlit("SET_USER_ID");
    assert(("SET_USER_ID"@).len() != ("GET_ROOM"@).len());
    reveal_strlit("GET_LOGIN");
    assert(("GET_LOGIN"@).len() != ("GET_ROOM"@).len());
    reveal_strlit("TOKEN");
    assert(("TOKEN"@).len() != ("GET_ROOM"@).len());
    reveal_strlit("OFFER");
    assert(("OFFER"@).len() != ("GET_ROOM"@).len());
    reveal_strlit("ANSWER");
    assert(("ANSWER"@).len() != ("GET_ROOM"@).len());
    reveal_strlit("CANDIDATE");
    assert(("CANDIDATE"@).len() != ("GET_ROOM"@).len());
}

proof fn token_names_set_room()
    ensures
        from_wire_token(wire_token(MessageType::SET_ROOM)) == Some(MessageType::SET_ROOM),
{
    reveal_strlit("SET_ROOM");
    reveal_strlit("GET_LOCALE");
    assert(("GET_LOCALE"@).len() != ("SET_ROOM"@).len());
    reveal_strlit("SET_LOCALE");
    assert(("SET_LOCALE"@).len() != ("SET_ROOM"@).len());
    reveal_strlit("GET_USER_ID");
    assert(("GET_USER_ID"@).len() != ("SET_ROOM"@).len());
    reveal_strlit("SET_USER_ID");
    assert(("SET_USER_ID"@).len() != ("SET_ROOM"@).len());
    reveal_strlit("GET_LOGIN");
    assert(("GET_LOGIN"@).len() != ("SET_ROOM"@).len());
    reveal_strlit("TOKEN");
    assert(("TOKEN"@).len() != ("SET_ROOM"@).len());
    reveal_strlit("OFFER");
    assert(("OFFER"@).len() != ("SET_ROOM"@).len());
    reveal_strlit("ANSWER");
    assert(("ANSWER"@).len() != ("SET_ROOM"@).len());
    reveal_strlit("CANDIDATE");
    assert(("CANDIDATE"@).len() != ("SET_ROOM"@).len());
    reveal_strlit("GET_ROOM");
    assert(("GET_ROOM"@)[0] != ("SET_ROOM"@)[0]);
}

proof fn token_names_get_chat_unit()
    ensures
        from_wire_token(wire_token(MessageType::GET_CHAT_UNIT)) == Some(MessageType::GET_CHAT_UNIT),
{
    reveal_strlit("GET_CHAT_UNIT");
    reveal_strlit("GET_LOCALE");
    assert(("GET_LOCALE"@).len() != ("GET_CHAT_UNIT"@).len());
    reveal_strlit("SET_LOCALE");
    assert(("SET_LOCALE"@).len() != ("GET_CHAT_UNIT"@).len());
    reveal_strlit("GET_USER_ID");
    assert(("GET_USER_ID"@).len() != ("GET_CHAT_UNIT"@).len());
    reveal_strlit("SET_USER_ID");
    assert(("SET_USER_ID"@).len() != ("GET_CHAT_UNIT"@).len());
    reveal_strlit("GET_LOGIN");
    assert(("GET_LOGIN"@).len() != ("GET_CHAT_UNIT"@).len());
    reveal_strlit("TOKEN");
    assert(("TOKEN"@).len() != ("GET_CHAT_UNIT"@).len());
    reveal_strlit("OFFER");
    assert(("OFFER"@).len() != ("GET_CHAT_UNIT"@).len());
    reveal_strlit("ANSWER");
    assert(("ANSWER"@).len() != ("GET_CHAT_UNIT"@).len());
    reveal_strlit("CANDIDATE");
    assert(("CANDIDATE"@).len() != ("GET_CHAT_UNIT"@).len());
    reveal_strlit("GET_ROOM");
    assert(("GET_ROOM"@).len() != ("GET_CHAT_UNIT"@).len());
    reveal_strlit("SET_ROOM");
    assert(("SET_ROOM"@).len() != ("GET_CHAT_UNIT"@).len());
}

proof fn token_names_get_settings_unit()
    ensures
        from_wire_token(wire_token(MessageType::GET_SETTINGS_UNIT)) == Some(MessageType::GET_SETTINGS_UNIT),
{
    reveal_strlit("GET_SETTINGS_UNIT");
    reveal_strlit("GET_LOCALE");
    assert(("GET_LOCALE"@).len() != ("GET_SETTINGS_UNIT"@).len());
    reveal_strlit("SET_LOCALE");
    assert(("SET_LOCALE"@).len() != ("GET_SETTINGS_UNIT"@).len());
    reveal_strlit("GET_USER_ID");
    assert(("GET_USER_ID"@).len() != ("GET_SETTINGS_UNIT"@).len());
    reveal_strlit("SET_USER_ID");
    assert(("SET_USER_ID"@).len() != ("GET_SETTINGS_UNIT"@).len());
    reveal_strlit("GET_LOGIN");
    assert(("GET_LOGIN"@).len() != ("GET_SETTINGS_UNIT"@).len());
    reveal_strlit("TOKEN");
    assert(("TOKEN"@).len() != ("GET_SETTINGS_UNIT"@).len());
    reveal_strlit("OFFER");
    assert(("OFFER"@).len() != ("GET_SETTINGS_UNIT"@).len());
    reveal_strlit("ANSWER");
    assert(("ANSWER"@).len() != ("GET_SETTINGS_UNIT"@).len());
    reveal_strlit("CANDIDATE");
    assert(("CANDIDATE"@).len() != ("GET_SETTINGS_UNIT"@).len());
    reveal_strlit("GET_ROOM");
    assert(("GET_ROOM"@).len() != ("GET_SETTINGS_UNIT"@).len());
    reveal_strlit("SET_ROOM");
    assert(("SET_ROOM"@).len() != ("GET_SETTINGS_UNIT"@).len());
    reveal_strlit("GET_CHAT_UNIT");
    assert(("GET_CHAT_UNIT"@).len() != ("GET_SETTINGS_UNIT"@).len());
}

proof fn token_names_set_error()
    ensures
        from_wire_token(wire_token(MessageType::SET_ERROR)) == Some(MessageType::SET_ERROR),
{
    reveal_strlit("SET_ERROR");
    reveal_strlit("GET_LOCALE");
    assert(("GET_LOCALE"@).len() != ("SET_ERROR"@).len());
    reveal_strlit("SET_LOCALE");
    assert(("SET_LOCALE"@).len() != ("SET_ERROR"@).len());
    reveal_strlit("GET_USER_ID");
    assert(("GET_USER_ID"@).len() != ("SET_ERROR"@).len());
    reveal_strlit("SET_USER_ID");
    assert(("SET_USER_ID"@).len() != ("SET_ERROR"@).len());
    reveal_strlit("GET_LOGIN");
    assert(("GET_LOGIN"@)[0] != ("SET_ERROR"@)[0]);
    reveal_strlit("TOKEN");
    assert(("TOKEN"@).len() != ("SET_ERROR"@).len());
    reveal_strlit("OFFER");
    assert(("OFFER"@).len() != ("SET_ERROR"@).len());
    reveal_strlit("ANSWER");
    assert(("ANSWER"@).len() != ("SET_ERROR"@).len());
    reveal_strlit("CANDIDATE");
    assert(("CANDIDATE"@)[0] != ("SET_ERROR"@)[0]);
    reveal_strlit("GET_ROOM");
    assert(("GET_ROOM"@).len() != ("SET_ERROR"@).len());
    reveal_strlit("SET_ROOM");
    assert(("SET_ROOM"@).len() != ("SET_ERROR"@).len());
    reveal_strlit("GET_CHAT_UNIT");
    assert(("GET_CHAT_UNIT"@).len() != ("SET_ERROR"@).len());
    reveal_strlit("GET_SETTINGS_UNIT");
    assert(("GET_SETTINGS_UNIT"@).len() != ("SET_ERROR"@).len());
}

proof fn token_names_get_room_guests()
    ensures
        from_wire_token(wire_token(MessageType::GET_ROOM_GUESTS)) == Some(MessageType::GET_ROOM_GUESTS),
{
    reveal_strlit("GET_ROOM_GUESTS");
    reveal_strlit("GET_LOCALE");
    assert(("GET_LOCALE"@).len() != ("GET_ROOM_GUESTS"@).len());
    reveal_strlit("SET_LOCALE");
    assert(("SET_LOCALE"@).len() != ("GET_ROOM_GUESTS"@).len());
    reveal_strlit("GET_USER_ID");
    assert(("GET_USER_ID"@).len() != ("GET_ROOM_GUESTS"@).len());
    reveal_strlit("SET_USER_ID");
    assert(("SET_USER_ID"@).len() != ("GET_ROOM_GUESTS"@).len());
    reveal_strlit("GET_LOGIN");
    assert(("GET_LOGIN"@).len() != ("GET_ROOM_GUESTS"@).len());
    reveal_strlit("TOKEN");
    assert(("TOKEN"@).len() != ("GET_ROOM_GUESTS"@).len());
    reveal_strlit("OFFER");
    assert(("OFFER"@).len() != ("GET_ROOM_GUESTS"@).len());
    reveal_strlit("ANSWER");
    assert(("ANSWER"@).len() != ("GET_ROOM_GUESTS"@).len());
    reveal_strlit("CANDIDATE");
    assert(("CANDIDATE"@).len() != ("GET_ROOM_GUESTS"@).len());
    reveal_strlit("GET_ROOM");
    assert(("GET_ROOM"@).len() != ("GET_ROOM_GUESTS"@).len());
    reveal_strlit("SET_ROOM");
    assert(("SET_ROOM"@).len() != ("GET_ROOM_GUESTS"@).len());
    reveal_strlit("GET_CHAT_UNIT");
    assert(("GET_CHAT_UNIT"@).len() != ("GET_ROOM_GUESTS"@).len());
    reveal_strlit("GET_SETTINGS_UNIT");
    assert(("GET_SETTINGS_UNIT"@).len() != ("GET_ROOM_GUESTS"@).len());
    reveal_strlit("SET_ERROR");
    assert(("SET_ERROR"@).len() != ("GET_ROOM_GUESTS"@).len());
}

proof fn token_names_set_room_guests()
    ensures
        from_wire_token(wire_token(MessageType::SET_ROOM_GUESTS)) == Some(MessageType::SET_ROOM_GUESTS),
{
    reveal_strlit("SET_ROOM_GUESTS");
    reveal_strlit("GET_LOCALE");
    assert(("GET_LOCALE"@).len() != ("SET_ROOM_GUESTS"@).len());
    reveal_strlit("SET_LOCALE");
    assert(("SET_LOCALE"@).len() != ("SET_ROOM_GUESTS"@).len());
    reveal_strlit("GET_USER_ID");
    assert(("GET_USER_ID"@).len() != ("SET_ROOM_GUESTS"@).len());
    reveal_strlit("SET_USER_ID");
    assert(("SET_USER_ID"@).len() != ("SET_ROOM_GUESTS"@).len());
    reveal_strlit("GET_LOGIN");
    assert(("GET_LOGIN"@).len() != ("SET_ROOM_GUESTS"@).len());
    reveal_strlit("TOKEN");
    assert(("TOKEN"@).len() != ("SET_ROOM_GUESTS"@).len());
    reveal_strlit("OFFER");
    assert(("OFFER"@).len() != ("SET_ROOM_GUESTS"@).len());
    reveal_strlit("ANSWER");
    assert(("ANSWER"@).len() != ("SET_ROOM_GUESTS"@).len());
    reveal_strlit("CANDIDATE");
    assert(("CANDIDATE"@).len() != ("SET_ROOM_GUESTS"@).len());
    reveal_strlit("GET_ROOM");
    assert(("GET_ROOM"@).len() != ("SET_ROOM_GUESTS"@).len());
    reveal_strlit("SET_ROOM");
    assert(("SET_ROOM"@).len() != ("SET_ROOM_GUESTS"@).len());
    reveal_strlit("GET_CHAT_UNIT");
    assert(("GET_CHAT_UNIT"@).len() != ("SET_ROOM_GUESTS"@).len());
    reveal_strlit("GET_SETTINGS_UNIT");
    assert(("GET_SETTINGS_UNIT"@).len() != ("SET_ROOM_GUESTS"@).len());
    reveal_strlit("SET_ERROR");
    assert(("SET_ERROR"@).len() != ("SET_ROOM_GUESTS"@).len());
    reveal_strlit("GET_ROOM_GUESTS");
    assert(("GET_ROOM_GUESTS"@)[0] != ("SET_ROOM_GUESTS"@)[0]);
}

proof fn token_names_set_change_unit()
    ensures
        from_wire_token(wire_token(MessageType::SET_CHANGE_UNIT)) == Some(MessageType::SET_CHANGE_UNIT),
{
    reveal_strlit("SET_CHANGE_UNIT");
    reveal_strlit("GET_LOCALE");
    assert(("GET_LOCALE"@).len() != ("SET_CHANGE_UNIT"@).len());
    reveal_strlit("SET_LOCALE");
    assert(("SET_LOCALE"@).len() != ("SET_CHANGE_UNIT"@).len());
    reveal_strlit("GET_USER_ID");
    assert(("GET_USER_ID"@).len() != ("SET_CHANGE_UNIT"@).len());
    reveal_strlit("SET_USER_ID");
    assert(("SET_USER_ID"@).len() != ("SET_CHANGE_UNIT"@).len());
    reveal_strlit("GET_LOGIN");
    assert(("GET_LOGIN"@).len() != ("SET_CHANGE_UNIT"@).len());
    reveal_strlit("TOKEN");
    assert(("TOKEN"@).len() != ("SET_CHANGE_UNIT"@).len());
    reveal_strlit("OFFER");
    assert(("OFFER"@).len() != ("SET_CHANGE_UNIT"@).len());
    reveal_strlit("ANSWER");
    assert(("ANSWER"@).len() != ("SET_CHANGE_UNIT"@).len());
    reveal_strlit("CANDIDATE");
    assert(("CANDIDATE"@).len() != ("SET_CHANGE_UNIT"@).len());
    reveal_strlit("GET_ROOM");
    assert(("GET_ROOM"@).len() != ("SET_CHANGE_UNIT"@).len());
    reveal_strlit("SET_ROOM");
    assert(("SET_ROOM"@).len() != ("SET_CHANGE_UNIT"@).len());
    reveal_strlit("GET_CHAT_UNIT");
    assert(("GET_CHAT_UNIT"@).len() != ("SET_CHANGE_UNIT"@).len());
    reveal_strlit("GET_SETTINGS_UNIT");
    assert(("GET_SETTINGS_UNIT"@).len() != ("SET_CHANGE_UNIT"@).len());
    reveal_strlit("SET_ERROR");
    assert(("SET_ERROR"@).len() != ("SET_CHANGE_UNIT"@).len());
    reveal_strlit("GET_ROOM_GUESTS");
    assert(("GET_ROOM_GUESTS"@)[0] != ("SET_CHANGE_UNIT"@)[0]);
    reveal_strlit("SET_ROOM_GUESTS");
    assert(("SET_ROOM_GUESTS"@)[4] != ("SET_CHANGE_UNIT"@)[4]);
}

proof fn token_names_get_mute()
    ensures
        from_wire_token(wire_token(MessageType::GET_MUTE)) == Some(MessageType::GET_MUTE),
{
    reveal_strlit("GET_MUTE");
    reveal_strlit("GET_LOCALE");
    assert(("GET_LOCALE"@).len() != ("GET_MUTE"@).len());
    reveal_strlit("SET_LOCALE");
    assert(("SET_LOCALE"@).len() != ("GET_MUTE"@).len());
    reveal_strlit("GET_USER_ID");
    assert(("GET_USER_ID"@).len() != ("GET_MUTE"@).len());
    reveal_strlit("SET_USER_ID");
    assert(("SET_USER_ID"@).len() != ("GET_MUTE"@).len());
    reveal_strlit("GET_LOGIN");
    assert(("GET_LOGIN"@).len() != ("GET_MUTE"@).len());
    reveal_strlit("TOKEN");
    assert(("TOKEN"@).len() != ("GET_MUTE"@).len());
    reveal_strlit("OFFER");
    assert(("OFFER"@).len() != ("GET_MUTE"@).len());
    reveal_strlit("ANSWER");
    assert(("ANSWER"@).len() != ("GET_MUTE"@).len());
    reveal_strlit("CANDIDATE");
    assert(("CANDIDATE"@).len() != ("GET_MUTE"@).len());
    reveal_strlit("GET_ROOM");
    assert(("GET_ROOM"@)[4] != ("GET_MUTE"@)[4]);
    reveal_strlit("SET_ROOM");
    assert(("SET_ROOM"@)[0] != ("GET_MUTE"@)[0]);
    reveal_strlit("GET_CHAT_UNIT");
    assert(("GET_CHAT_UNIT"@).len() != ("GET_MUTE"@).len());
    reveal_strlit("GET_SETTINGS_UNIT");
    assert(("GET_SETTINGS_UNIT"@).len() != ("GET_MUTE"@).len());
    reveal_strlit("SET_ERROR");
    assert(("SET_ERROR"@).len() != ("GET_MUTE"@).len());
    reveal_strlit("GET_ROOM_GUESTS");
    assert(("GET_ROOM_GUESTS"@).len() != ("GET_MUTE"@).len());
    reveal_strlit("SET_ROOM_GUESTS");
    assert(("SET_ROOM_GUESTS"@).len() != ("GET_MUTE"@).len());
    reveal_strlit("SET_CHANGE_UNIT");
    assert(("SET_CHANGE_UNIT"@).len() != ("GET_MUTE"@).len());
}

proof fn token_names_set_mute()
    ensures
        from_wire_token(wire_token(MessageType::SET_MUTE)) == Some(MessageType::SET_MUTE),
{
    reveal_strlit("SET_MUTE");
    reveal_strlit("GET_LOCALE");
    assert(("GET_LOCALE"@).len() != ("SET_MUTE"@).len());
    reveal_strlit("SET_LOCALE");
    assert(("SET_LOCALE"@).len() != ("SET_MUTE"@).len());
    reveal_strlit("GET_USER_ID");
    assert(("GET_USER_ID"@).len() != ("SET_MUTE"@).len());
    reveal_strlit("SET_USER_ID");
    assert(("SET_USER_ID"@).len() != ("SET_MUTE"@).len());
    reveal_strlit("GET_LOGIN");
    assert(("GET_LOGIN"@).len() != ("SET_MUTE"@).len());
    reveal_strlit("TOKEN");
    assert(("TOKEN"@).len() != ("SET_MUTE"@).len());
    reveal_strlit("OFFER");
    assert(("OFFER"@).len() != ("SET_MUTE"@).len());
    reveal_strlit("ANSWER");
    assert(("ANSWER"@).len() != ("SET_MUTE"@).len());
    reveal_strlit("CANDIDATE");
    assert(("CANDIDATE"@).len() != ("SET_MUTE"@).len());
    reveal_strlit("GET_ROOM");
    assert(("GET_ROOM"@)[0] != ("SET_MUTE"@)[0]);
    reveal_strlit("SET_ROOM");
    assert(("SET_ROOM"@)[4] != ("SET_MUTE"@)[4]);
    reveal_strlit("GET_CHAT_UNIT");
    assert(("GET_CHAT_UNIT"@).len() != ("SET_MUTE"@).len());
    reveal_strlit("GET_SETTINGS_UNIT");
    assert(("GET_SETTINGS_UNIT"@).len() != ("SET_MUTE"@).len());
    reveal_strlit("SET_ERROR");
    assert(("SET_ERROR"@).len() != ("SET_MUTE"@).len());
    reveal_strlit("GET_ROOM_GUESTS");
    assert(("GET_ROOM_GUESTS"@).len() != ("SET_MUTE"@).len());
    reveal_strlit("SET_ROOM_GUESTS");
    assert(("SET_ROOM_GUESTS"@).len() != ("SET_MUTE"@).len());
    reveal_strlit("SET_CHANGE_UNIT");
    assert(("SET_CHANGE_UNIT"@).len() != ("SET_MUTE"@).len());
    reveal_strlit("GET_MUTE");
    assert(("GET_MUTE"@)[0] != ("SET_MUTE"@)[0]);
    reveal_strlit("GET_NEED_RECONNECT");
    assert(("GET_NEED_RECONNECT"@).len() != ("SET_MUTE"@).len());
}

proof fn token_names_get_need_reconnect()
    ensures
        from_wire_token(wire_token(MessageType::GET_NEED_RECONNECT)) == Some(MessageType::GET_NEED_RECONNECT),
{
    reveal_strlit("GET_NEED_RECONNECT");
    reveal_strlit("GET_LOCALE");
    assert(("GET_LOCALE"@).len() != ("GET_NEED_RECONNECT"@).len());
    reveal_strlit("SET_LOCALE");
    assert(("SET_LOCALE"@).len() != ("GET_NEED_RECONNECT"@).len());
    reveal_strlit("GET_USER_ID");
    assert(("GET_USER_ID"@).len() != ("GET_NEED_RECONNECT"@).len());
    reveal_strlit("SET_USER_ID");
    assert(("SET_USER_ID"@).len() != ("GET_NEED_RECONNECT"@).len());
    reveal_strlit("GET_LOGIN");
    assert(("GET_LOGIN"@).len() != ("GET_NEED_RECONNECT"@).len());
    reveal_strlit("TOKEN");
    assert(("TOKEN"@).len() != ("GET_NEED_RECONNECT"@).len());
    reveal_strlit("OFFER");
    assert(("OFFER"@).len() != ("GET_NEED_RECONNECT"@).len());
    reveal_strlit("ANSWER");
    assert(("ANSWER"@).len() != ("GET_NEED_RECONNECT"@).len());
    reveal_strlit("CANDIDATE");
    assert(("CANDIDATE"@).len() != ("GET_NEED_RECONNECT"@).len());
    reveal_strlit("GET_ROOM");
    assert(("GET_ROOM"@).len() != ("GET_NEED_RECONNECT"@).len());
    reveal_strlit("SET_ROOM");
    assert(("SET_ROOM"@).len() != ("GET_NEED_RECONNECT"@).len());
    reveal_strlit("GET_CHAT_UNIT");
    assert(("GET_CHAT_UNIT"@).len() != ("GET_NEED_RECONNECT"@).len());
    reveal_strlit("GET_SETTINGS_UNIT");
    assert(("GET_SETTINGS_UNIT"@).len() != ("GET_NEED_RECONNECT"@).len());
    reveal_strlit("SET_ERROR");
    assert(("SET_ERROR"@).len() != ("GET_NEED_RECONNECT"@).len());
    reveal_strlit("GET_ROOM_GUESTS");
    assert(("GET_ROOM_GUESTS"@).len() != ("GET_NEED_RECONNECT"@).len());
    reveal_strlit("SET_ROOM_GUESTS");
    assert(("SET_ROOM_GUESTS"@).len() != ("GET_NEED_RECONNECT"@).len());
    reveal_strlit("SET_CHANGE_UNIT");
    assert(("SET_CHANGE_UNIT"@).len() != ("GET_NEED_RECONNECT"@).len());
    reveal_strlit("GET_MUTE");
    assert(("GET_MUTE"@).len() != ("GET_NEED_RECONNECT"@).len());
}

proof fn token_names_get_close_peer_connection()
    ensures
        from_wire_token(wire_token(MessageType::GET_CLOSE_PEER_CONNECTION)) == Some(MessageType::GET_CLOSE_PEER_CONNECTION),
{
    reveal_strlit("GET_CLOSE_PEER_CONNECTION");
    reveal_strlit("GET_LOCALE");
    assert(("GET_LOCALE"@).len() != ("GET_CLOSE_PEER_CONNECTION"@).len());
    reveal_strlit("SET_LOCALE");
    assert(("SET_LOCALE"@).len() != ("GET_CLOSE_PEER_CONNECTION"@).len());
    reveal_strlit("GET_USER_ID");
    assert(("GET_USER_ID"@).len() != ("GET_CLOSE_PEER_CONNECTION"@).len());
    reveal_strlit("SET_USER_ID");
    assert(("SET_USER_ID"@).len() != ("GET_CLOSE_PEER_CONNECTION"@).len());
    reveal_strlit("GET_LOGIN");
    assert(("GET_LOGIN"@).len() != ("GET_CLOSE_PEER_CONNECTION"@).len());
    reveal_strlit("TOKEN");
    assert(("TOKEN"@).len() != ("GET_CLOSE_PEER_CONNECTION"@).len());
    reveal_strlit("OFFER");
    assert(("OFFER"@).len() != ("GET_CLOSE_PEER_CONNECTION"@).len());
    reveal_strlit("ANSWER");
    assert(("ANSWER"@).len() != ("GET_CLOSE_PEER_CONNECTION"@).len());
    reveal_strlit("CANDIDATE");
    assert(("CANDIDATE"@).len() != ("GET_CLOSE_PEER_CONNECTION"@).len());
    reveal_strlit("GET_ROOM");
    assert(("GET_ROOM"@).len() != ("GET_CLOSE_PEER_CONNECTION"@).len());
    reveal_strlit("SET_ROOM");
    assert(("SET_ROOM"@).len() != ("GET_CLOSE_PEER_CONNECTION"@).len());
    reveal_strlit("GET_CHAT_UNIT");
    assert(("GET_CHAT_UNIT"@).len() != ("GET_CLOSE_PEER_CONNECTION"@).len());
    reveal_strlit("GET_SETTINGS_UNIT");
    assert(("GET_SETTINGS_UNIT"@).len() != ("GET_CLOSE_PEER_CONNECTION"@).len());
    reveal_strlit("SET_ERROR");
    assert(("SET_ERROR"@).len() != ("GET_CLOSE_PEER_CONNECTION"@).len());
    reveal_strlit("GET_ROOM_GUESTS");
    assert(("GET_ROOM_GUESTS"@).len() != ("GET_CLOSE_PEER_CONNECTION"@).len());
    reveal_strlit("SET_ROOM_GUESTS");
    assert(("SET_ROOM_GUESTS"@).len() != ("GET_CLOSE_PEER_CONNECTION"@).len());
    reveal_strlit("SET_CHANGE_UNIT");
    assert(("SET_CHANGE_UNIT"@).len() != ("GET_CLOSE_PEER_CONNECTION"@).len());
    reveal_strlit("GET_MUTE");
    assert(("GET_MUTE"@).len() != ("GET_CLOSE_PEER_CONNECTION"@).len());
    reveal_strlit("GET_NEED_RECONNECT");
    assert(("GET_NEED_RECONNECT"@).len() != ("GET_CLOSE_PEER_CONNECTION"@).len());
    reveal_strlit("SET_MUTE");
    assert(("SET_MUTE"@).len() != ("GET_CLOSE_PEER_CONNECTION"@).len());
}

proof fn token_names_set_close_peer_connection()
    ensures
        from_wire_token(wire_token(MessageType::SET_CLOSE_PEER_CONNECTION)) == Some(MessageType::SET_CLOSE_PEER_CONNECTION),
{
    reveal_strlit("SET_CLOSE_PEER_CONNECTION");
    reveal_strlit("GET_LOCALE");
    assert(("GET_LOCALE"@).len() != ("SET_CLOSE_PEER_CONNECTION"@).len());
    reveal_strlit("SET_LOCALE");
    assert(("SET_LOCALE"@).len() != ("SET_CLOSE_PEER_CONNECTION"@).len());
    reveal_strlit("GET_USER_ID");
    assert(("GET_USER_ID"@).len() != ("SET_CLOSE_PEER_CONNECTION"@).len());
    reveal_strlit("SET_USER_ID");
    assert(("SET_USER_ID"@).len() != ("SET_CLOSE_PEER_CONNECTION"@).len());
    reveal_strlit("GET_LOGIN");
    assert(("GET_LOGIN"@).len() != ("SET_CLOSE_PEER_CONNECTION"@).len());
    reveal_strlit("TOKEN");
    assert(("TOKEN"@).len() != ("SET_CLOSE_PEER_CONNECTION"@).len());
    reveal_strlit("OFFER");
    assert(("OFFER"@).len() != ("SET_CLOSE_PEER_CONNECTION"@).len());
    reveal_strlit("ANSWER");
    assert(("ANSWER"@).len() != ("SET_CLOSE_PEER_CONNECTION"@).len());
    reveal_strlit("CANDIDATE");
    assert(("CANDIDATE"@).len() != ("SET_CLOSE_PEER_CONNECTION"@).len());
    reveal_strlit("GET_ROOM");
    assert(("GET_ROOM"@).len() != ("SET_CLOSE_PEER_CONNECTION"@).len());
    reveal_strlit("SET_ROOM");
    assert(("SET_ROOM"@).len() != ("SET_CLOSE_PEER_CONNECTION"@).len());
    reveal_strlit("GET_CHAT_UNIT");
    assert(("GET_CHAT_UNIT"@).len() != ("SET_CLOSE_PEER_CONNECTION"@).len());
    reveal_strlit("GET_SETTINGS_UNIT");
    assert(("GET_SETTINGS_UNIT"@).len() != ("SET_CLOSE_PEER_CONNECTION"@).len());
    reveal_strlit("SET_ERROR");
    assert(("SET_ERROR"@).len() != ("SET_CLOSE_PEER_CONNECTION"@).len());
    reveal_strlit("GET_ROOM_GUESTS");
    assert(("GET_ROOM_GUESTS"@).len() != ("SET_CLOSE_PEER_CONNECTION"@).len());
    reveal_strlit("SET_ROOM_GUESTS");
    assert(("SET_ROOM_GUESTS"@).len() != ("SET_CLOSE_PEER_CONNECTION"@).len());
    reveal_strlit("SET_CHANGE_UNIT");
    assert(("SET_CHANGE_UNIT"@).len() != ("SET_CLOSE_PEER_CONNECTION"@).len());
    reveal_strlit("GET_MUTE");
    assert(("GET_MUTE"@).len() != ("SET_CLOSE_PEER_CONNECTION"@).len());
    reveal_strlit("GET_NEED_RECONNECT");
    assert(("GET_NEED_RECONNECT"@).len() != ("SET_CLOSE_PEER_CONNECTION"@).len());
    reveal_strlit("SET_MUTE");
    assert(("SET_MUTE"@).len() != ("SET_CLOSE_PEER_CONNECTION"@).len());
    reveal_strlit("GET_CLOSE_PEER_CONNECTION");
    assert(("GET_CLOSE_PEER_CONNECTION"@)[0] != ("SET_CLOSE_PEER_CONNECTION"@)[0]);
}

proof fn token_names_get_room_message()
    ensures
        from_wire_token(wire_token(MessageType::GET_ROOM_MESSAGE)) == Some(MessageType::GET_ROOM_MESSAGE),
{
    reveal_strlit("GET_ROOM_MESSAGE");
    reveal_strlit("GET_LOCALE");
    assert(("GET_LOCALE"@).len() != ("GET_ROOM_MESSAGE"@).len());
    reveal_strlit("SET_LOCALE");
    assert(("SET_LOCALE"@).len() != ("GET_ROOM_MESSAGE"@).len());
    reveal_strlit("GET_USER_ID");
    assert(("GET_USER_ID"@).len() != ("GET_ROOM_MESSAGE"@).len());
    reveal_strlit("SET_USER_ID");
    assert(("SET_USER_ID"@).len() != ("GET_ROOM_MESSAGE"@).len());
    reveal_strlit("GET_LOGIN");
    assert(("GET_LOGIN"@).len() != ("GET_ROOM_MESSAGE"@).len());
    reveal_strlit("TOKEN");
    assert(("TOKEN"@).len() != ("GET_ROOM_MESSAGE"@).len());
    reveal_strlit("OFFER");
    assert(("OFFER"@).len() != ("GET_ROOM_MESSAGE"@).len());
    reveal_strlit("ANSWER");
    assert(("ANSWER"@).len() != ("GET_ROOM_MESSAGE"@).len());
    reveal_strlit("CANDIDATE");
    assert(("CANDIDATE"@).len() != ("GET_ROOM_MESSAGE"@).len());
    reveal_strlit("GET_ROOM");
    assert(("GET_ROOM"@).len() != ("GET_ROOM_MESSAGE"@).len());
    reveal_strlit("SET_ROOM");
    assert(("SET_ROOM"@).len() != ("GET_ROOM_MESSAGE"@).len());
    reveal_strlit("GET_CHAT_UNIT");
    assert(("GET_CHAT_UNIT"@).len() != ("GET_ROOM_MESSAGE"@).len());
    reveal_strlit("GET_SETTINGS_UNIT");
    assert(("GET_SETTINGS_UNIT"@).len() != ("GET_ROOM_MESSAGE"@).len());
    reveal_strlit("SET_ERROR");
    assert(("SET_ERROR"@).len() != ("GET_ROOM_MESSAGE"@).len());
    reveal_strlit("GET_ROOM_GUESTS");
    assert(("GET_ROOM_GUESTS"@).len() != ("GET_ROOM_MESSAGE"@).len());
    reveal_strlit("SET_ROOM_GUESTS");
    assert(("SET_ROOM_GUESTS"@).len() != ("GET_ROOM_MESSAGE"@).len());
    reveal_strlit("SET_CHANGE_UNIT");
    assert(("SET_CHANGE_UNIT"@).len() != ("GET_ROOM_MESSAGE"@).len());
    reveal_strlit("GET_MUTE");
    assert(("GET_MUTE"@).len() != ("GET_ROOM_MESSAGE"@).len());
    reveal_strlit("GET_NEED_RECONNECT");
    assert(("GET_NEED_RECONNECT"@).len() != ("GET_ROOM_MESSAGE"@).len());
    reveal_strlit("SET_MUTE");
    assert(("SET_MUTE"@).len() != ("GET_ROOM_MESSAGE"@).len());
    reveal_strlit("GET_CLOSE_PEER_CONNECTION");
    assert(("GET_CLOSE_PEER_CONNECTION"@).len() != ("GET_ROOM_MESSAGE"@).len());
    reveal_strlit("SET_CLOSE_PEER_CONNECTION");
    assert(("SET_CLOSE_PEER_CONNECTION"@).len() != ("GET_ROOM_MESSAGE"@).len());
}

proof fn token_names_set_room_message()
    ensures
        from_wire_token(wire_token(MessageType::SET_ROOM_MESSAGE)) == Some(MessageType::SET_ROOM_MESSAGE),
{
    reveal_strlit("SET_ROOM_MESSAGE");
    reveal_strlit("GET_LOCALE");
    assert(("GET_LOCALE"@).len() != ("SET_ROOM_MESSAGE"@).len());
    reveal_strlit("SET_LOCALE");
    assert(("SET_LOCALE"@).len() != ("SET_ROOM_MESSAGE"@).len());
    reveal_strlit("GET_USER_ID");
    assert(("GET_USER_ID"@).len() != ("SET_ROOM_MESSAGE"@).len());
    reveal_strlit("SET_USER_ID");
    assert(("SET_USER_ID"@).len() != ("SET_ROOM_MESSAGE"@).len());
    reveal_strlit("GET_LOGIN");
    assert(("GET_LOGIN"@).len() != ("SET_ROOM_MESSAGE"@).len());
    reveal_strlit("TOKEN");
    assert(("TOKEN"@).len() != ("SET_ROOM_MESSAGE"@).len());
    reveal_strlit("OFFER");
    assert(("OFFER"@).len() != ("SET_ROOM_MESSAGE"@).len());
    reveal_strlit("ANSWER");
    assert(("ANSWER"@).len() != ("SET_ROOM_MESSAGE"@).len());
    reveal_strlit("CANDIDATE");
    assert(("CANDIDATE"@).len() != ("SET_ROOM_MESSAGE"@).len());
    reveal_strlit("GET_ROOM");
    assert(("GET_ROOM"@).len() != ("SET_ROOM_MESSAGE"@).len());
    reveal_strlit("SET_ROOM");
    assert(("SET_ROOM"@).len() != ("SET_ROOM_MESSAGE"@).len());
    reveal_strlit("GET_CHAT_UNIT");
    assert(("GET_CHAT_UNIT"@).len() != ("SET_ROOM_MESSAGE"@).len());
    reveal_strlit("GET_SETTINGS_UNIT");
    assert(("GET_SETTINGS_UNIT"@).len() != ("SET_ROOM_MESSAGE"@).len());
    reveal_strlit("SET_ERROR");
    assert(("SET_ERROR"@).len() != ("SET_ROOM_MESSAGE"@).len());
    reveal_strlit("GET_ROOM_GUESTS");
    assert(("GET_ROOM_GUESTS"@).len() != ("SET_ROOM_MESSAGE"@).len());
    reveal_strlit("SET_ROOM_GUESTS");
    assert(("SET_ROOM_GUESTS"@).len() != ("SET_ROOM_MESSAGE"@).len());
    reveal_strlit("SET_CHANGE_UNIT");
    assert(("SET_CHANGE_UNIT"@).len() != ("SET_ROOM_MESSAGE"@).len());
    reveal_strlit("GET_MUTE");
    assert(("GET_MUTE"@).len() != ("SET_ROOM_MESSAGE"@).len());
    reveal_strlit("GET_NEED_RECONNECT");
    assert(("GET_NEED_RECONNECT"@).len() != ("SET_ROOM_MESSAGE"@).len());
    reveal_strlit("SET_MUTE");
    assert(("SET_MUTE"@).len() != ("SET_ROOM_MESSAGE"@).len());
    reveal_strlit("GET_CLOSE_PEER_CONNECTION");
    assert(("GET_CLOSE_PEER_CONNECTION"@).len() != ("SET_ROOM_MESSAGE"@).len());
    reveal_strlit("SET_CLOSE_PEER_CONNECTION");
    assert(("SET_CLOSE_PEER_CONNECTION"@).len() != ("SET_ROOM_MESSAGE"@).len());
    reveal_strlit("GET_ROOM_MESSAGE");
    assert(("GET_ROOM_MESSAGE"@)[0] != ("SET_ROOM_MESSAGE"@)[0]);
}

proof fn token_names_set_chat_unit()
    ensures
        from_wire_token(wire_token(MessageType::SET_CHAT_UNIT)) == Some(MessageType::SET_CHAT_UNIT),
{
    reveal_strlit("SET_CHAT_UNIT");
    reveal_strlit("GET_LOCALE");
    assert(("GET_LOCALE"@).len() != ("SET_CHAT_UNIT"@).len());
    reveal_strlit("SET_LOCALE");
    assert(("SET_LOCALE"@).len() != ("SET_CHAT_UNIT"@).len());
    reveal_strlit("GET_USER_ID");
    assert(("GET_USER_ID"@).len() != ("SET_CHAT_UNIT"@).len());
    reveal_strlit("SET_USER_ID");
    assert(("SET_USER_ID"@).len() != ("SET_CHAT_UNIT"@).len());
    reveal_strlit("GET_LOGIN");
    assert(("GET_LOGIN"@).len() != ("SET_CHAT_UNIT"@).len());
    reveal_strlit("TOKEN");
    assert(("TOKEN"@).len() != ("SET_CHAT_UNIT"@).len());
    reveal_strlit("OFFER");
    assert(("OFFER"@).len() != ("SET_CHAT_UNIT"@).len());
    reveal_strlit("ANSWER");
    assert(("ANSWER"@).len() != ("SET_CHAT_UNIT"@).len());
    reveal_strlit("CANDIDATE");
    assert(("CANDIDATE"@).len() != ("SET_CHAT_UNIT"@).len());
    reveal_strlit("GET_ROOM");
    assert(("GET_ROOM"@).len() != ("SET_CHAT_UNIT"@).len());
    reveal_strlit("SET_ROOM");
    assert(("SET_ROOM"@).len() != ("SET_CHAT_UNIT"@).len());
    reveal_strlit("GET_CHAT_UNIT");
    assert(("GET_CHAT_UNIT"@)[0] != ("SET_CHAT_UNIT"@)[0]);
    reveal_strlit("GET_SETTINGS_UNIT");
    assert(("GET_SETTINGS_UNIT"@).len() != ("SET_CHAT_UNIT"@).len());
    reveal_strlit("SET_ERROR");
    assert(("SET_ERROR"@).len() != ("SET_CHAT_UNIT"@).len());
    reveal_strlit("GET_ROOM_GUESTS");
    assert(("GET_ROOM_GUESTS"@).len() != ("SET_CHAT_UNIT"@).len());
    reveal_strlit("SET_ROOM_GUESTS");
    assert(("SET_ROOM_GUESTS"@).len() != ("SET_CHAT_UNIT"@).len());
    reveal_strlit("SET_CHANGE_UNIT");
    assert(("SET_CHANGE_UNIT"@).len() != ("SET_CHAT_UNIT"@).len());
    reveal_strlit("GET_MUTE");
    assert(("GET_MUTE"@).len() != ("SET_CHAT_UNIT"@).len());
    reveal_strlit("GET_NEED_RECONNECT");
    assert(("GET_NEED_RECONNECT"@).len() != ("SET_CHAT_UNIT"@).len());
    reveal_strlit("SET_MUTE");
    assert(("SET_MUTE"@).len() != ("SET_CHAT_UNIT"@).len());
    reveal_strlit("GET_CLOSE_PEER_CONNECTION");
    assert(("GET_CLOSE_PEER_CONNECTION"@).len() != ("SET_CHAT_UNIT"@).len());
    reveal_strlit("SET_CLOSE_PEER_CONNECTION");
    assert(("SET_CLOSE_PEER_CONNECTION"@).len() != ("SET_CHAT_UNIT"@).len());
    reveal_strlit("GET_ROOM_MESSAGE");
    assert(("GET_ROOM_MESSAGE"@).len() != ("SET_CHAT_UNIT"@).len());
    reveal_strlit("SET_ROOM_MESSAGE");
    assert(("SET_ROOM_MESSAGE"@).len() != ("SET_CHAT_UNIT"@).len());
}

proof fn token_names_set_settings_unit()
    ensures
        from_wire_token(wire_token(MessageType::SET_SETTINGS_UNIT)) == Some(MessageType::SET_SETTINGS_UNIT),
{
    reveal_strlit("SET_SETTINGS_UNIT");
    reveal_strlit("GET_LOCALE");
    assert(("GET_LOCALE"@).len() != ("SET_SETTINGS_UNIT"@).len());
    reveal_strlit("SET_LOCALE");
    assert(("SET_LOCALE"@).len() != ("SET_SETTINGS_UNIT"@).len());
    reveal_strlit("GET_USER_ID");
    assert(("GET_USER_ID"@).len() != ("SET_SETTINGS_UNIT"@).len());
    reveal_strlit("SET_USER_ID");
    assert(("SET_USER_ID"@).len() != ("SET_SETTINGS_UNIT"@).len());
    reveal_strlit("GET_LOGIN");
    assert(("GET_LOGIN"@).len() != ("SET_SETTINGS_UNIT"@).len());
    reveal_strlit("TOKEN");
    assert(("TOKEN"@).len() != ("SET_SETTINGS_UNIT"@).len());
    reveal_strlit("OFFER");
    assert(("OFFER"@).len() != ("SET_SETTINGS_UNIT"@).len());
    reveal_strlit("ANSWER");
    assert(("ANSWER"@).len() != ("SET_SETTINGS_UNIT"@).len());
    reveal_strlit("CANDIDATE");
    assert(("CANDIDATE"@).len() != ("SET_SETTINGS_UNIT"@).len());
    reveal_strlit("GET_ROOM");
    assert(("GET_ROOM"@).len() != ("SET_SETTINGS_UNIT"@).len());
    reveal_strlit("SET_ROOM");
    assert(("SET_ROOM"@).len() != ("SET_SETTINGS_UNIT"@).len());
    reveal_strlit("GET_CHAT_UNIT");
    assert(("GET_CHAT_UNIT"@).len() != ("SET_SETTINGS_UNIT"@).len());
    reveal_strlit("GET_SETTINGS_UNIT");
    assert(("GET_SETTINGS_UNIT"@)[0] != ("SET_SETTINGS_UNIT"@)[0]);
    reveal_strlit("SET_ERROR");
    assert(("SET_ERROR"@).len() != ("SET_SETTINGS_UNIT"@).len());
    reveal_strlit("GET_ROOM_GUESTS");
    assert(("GET_ROOM_GUESTS"@).len() != ("SET_SETTINGS_UNIT"@).len());
    reveal_strlit("SET_ROOM_GUESTS");
    assert(("SET_ROOM_GUESTS"@).len() != ("SET_SETTINGS_UNIT"@).len());
    reveal_strlit("SET_CHANGE_UNIT");
    assert(("SET_CHANGE_UNIT"@).len() != ("SET_SETTINGS_UNIT"@).len());
    reveal_strlit("GET_MUTE");
    assert(("GET_MUTE"@).len() != ("SET_SETTINGS_UNIT"@).len());
    reveal_strlit("GET_NEED_RECONNECT");
    assert(("GET_NEED_RECONNECT"@).len() != ("SET_SETTINGS_UNIT"@).len());
    reveal_strlit("SET_MUTE");
    assert(("SET_MUTE"@).len() != ("SET_SETTINGS_UNIT"@).len());
    reveal_strlit("GET_CLOSE_PEER_CONNECTION");
    assert(("GET_CLOSE_PEER_CONNECTION"@).len() != ("SET_SETTINGS_UNIT"@).len());
    reveal_strlit("SET_CLOSE_PEER_CONNECTION");
    assert(("SET_CLOSE_PEER_CONNECTION"@).len() != ("SET_SETTINGS_UNIT"@).len());
    reveal_strlit("GET_ROOM_MESSAGE");
    assert(("GET_ROOM_MESSAGE"@).len() != ("SET_SETTINGS_UNIT"@).len());
    reveal_strlit("SET_ROOM_MESSAGE");
    assert(("SET_ROOM_MESSAGE"@).len() != ("SET_SETTINGS_UNIT"@).len());
    reveal_strlit("SET_CHAT_UNIT");
    assert(("SET_CHAT_UNIT"@).len() != ("SET_SETTINGS_UNIT"@).len());
}

proof fn token_names_get_chat_messages()
    ensures
        from_wire_token(wire_token(MessageType::GET_CHAT_MESSAGES)) == Some(MessageType::GET_CHAT_MESSAGES),
{
    reveal_strlit("GET_CHAT_MESSAGES");
    reveal_strlit("GET_LOCALE");
    assert(("GET_LOCALE"@).len() != ("GET_CHAT_MESSAGES"@).len());
    reveal_strlit("SET_LOCALE");
    assert(("SET_LOCALE"@).len() != ("GET_CHAT_MESSAGES"@).len());
    reveal_strlit("GET_USER_ID");
    assert(("GET_USER_ID"@).len() != ("GET_CHAT_MESSAGES"@).len());
    reveal_strlit("SET_USER_ID");
    assert(("SET_USER_ID"@).len() != ("GET_CHAT_MESSAGES"@).len());
    reveal_strlit("GET_LOGIN");
    assert(("GET_LOGIN"@).len() != ("GET_CHAT_MESSAGES"@).len());
    reveal_strlit("TOKEN");
    assert(("TOKEN"@).len() != ("GET_CHAT_MESSAGES"@).len());
    reveal_strlit("OFFER");
    assert(("OFFER"@).len() != ("GET_CHAT_MESSAGES"@).len());
    reveal_strlit("ANSWER");
    assert(("ANSWER"@).len() != ("GET_CHAT_MESSAGES"@).len());
    reveal_strlit("CANDIDATE");
    assert(("CANDIDATE"@).len() != ("GET_CHAT_MESSAGES"@).len());
    reveal_strlit("GET_ROOM");
    assert(("GET_ROOM"@).len() != ("GET_CHAT_MESSAGES"@).len());
    reveal_strlit("SET_ROOM");
    assert(("SET_ROOM"@).len() != ("GET_CHAT_MESSAGES"@).len());
    reveal_strlit("GET_CHAT_UNIT");
    assert(("GET_CHAT_UNIT"@).len() != ("GET_CHAT_MESSAGES"@).len());
    reveal_strlit("GET_SETTINGS_UNIT");
    assert(("GET_SETTINGS_UNIT"@)[4] != ("GET_CHAT_MESSAGES"@)[4]);
    reveal_strlit("SET_ERROR");
    assert(("SET_ERROR"@).len() != ("GET_CHAT_MESSAGES"@).len());
    reveal_strlit("GET_ROOM_GUESTS");
    assert(("GET_ROOM_GUESTS"@).len() != ("GET_CHAT_MESSAGES"@).len());
    reveal_strlit("SET_ROOM_GUESTS");
    assert(("SET_ROOM_GUESTS"@).len() != ("GET_CHAT_MESSAGES"@).len());
    reveal_strlit("SET_CHANGE_UNIT");
    assert(("SET_CHANGE_UNIT"@).len() != ("GET_CHAT_MESSAGES"@).len());
    reveal_strlit("GET_MUTE");
    assert(("GET_MUTE"@).len() != ("GET_CHAT_MESSAGES"@).len());
    reveal_strlit("GET_NEED_RECONNECT");
    assert(("GET_NEED_RECONNECT"@).len() != ("GET_CHAT_MESSAGES"@).len());
    reveal_strlit("SET_MUTE");
    assert(("SET_MUTE"@).len() != ("GET_CHAT_MESSAGES"@).len());
    reveal_strlit("GET_CLOSE_PEER_CONNECTION");
    assert(("GET_CLOSE_PEER_CONNECTION"@).len() != ("GET_CHAT_MESSAGES"@).len());
    reveal_strlit("SET_CLOSE_PEER_CONNECTION");
    assert(("SET_CLOSE_PEER_CONNECTION"@).len() != ("GET_CHAT_MESSAGES"@).len());
    reveal_strlit("GET_ROOM_MESSAGE");
    assert(("GET_ROOM_MESSAGE"@).len() != ("GET_CHAT_MESSAGES"@).len());
    reveal_strlit("SET_ROOM_MESSAGE");
    assert(("SET_ROOM_MESSAGE"@).len() != ("GET_CHAT_MESSAGES"@).len());
    reveal_strlit("SET_CHAT_UNIT");
    assert(("SET_CHAT_UNIT"@).len() != ("GET_CHAT_MESSAGES"@).len());
    reveal_strlit("SET_SETTINGS_UNIT");
    assert(("SET_SETTINGS_UNIT"@)[0] != ("GET_CHAT_MESSAGES"@)[0]);
}

proof fn token_names_set_chat_messages()
    ensures
        from_wire_token(wire_token(MessageType::SET_CHAT_MESSAGES)) == Some(MessageType::SET_CHAT_MESSAGES),
{
    reveal_strlit("SET_CHAT_MESSAGES");
    reveal_strlit("GET_LOCALE");
    assert(("GET_LOCALE"@).len() != ("SET_CHAT_MESSAGES"@).len());
    reveal_strlit("SET_LOCALE");
    assert(("SET_LOCALE"@).len() != ("SET_CHAT_MESSAGES"@).len());
    reveal_strlit("GET_USER_ID");
    assert(("GET_USER_ID"@).len() != ("SET_CHAT_MESSAGES"@).len());
    reveal_strlit("SET_USER_ID");
    assert(("SET_USER_ID"@).len() != ("SET_CHAT_MESSAGES"@).len());
    reveal_strlit("GET_LOGIN");
    assert(("GET_LOGIN"@).len() != ("SET_CHAT_MESSAGES"@).len());
    reveal_strlit("TOKEN");
    assert(("TOKEN"@).len() != ("SET_CHAT_MESSAGES"@).len());
    reveal_strlit("OFFER");
    assert(("OFFER"@).len() != ("SET_CHAT_MESSAGES"@).len());
    reveal_strlit("ANSWER");
    assert(("ANSWER"@).len() != ("SET_CHAT_MESSAGES"@).len());
    reveal_strlit("CANDIDATE");
    assert(("CANDIDATE"@).len() != ("SET_CHAT_MESSAGES"@).len());
    reveal_strlit("GET_ROOM");
    assert(("GET_ROOM"@).len() != ("SET_CHAT_MESSAGES"@).len());
    reveal_strlit("SET_ROOM");
    assert(("SET_ROOM"@).len() != ("SET_CHAT_MESSAGES"@).len());
    reveal_strlit("GET_CHAT_UNIT");
    assert(("GET_CHAT_UNIT"@).len() != ("SET_CHAT_MESSAGES"@).len());
    reveal_strlit("GET_SETTINGS_UNIT");
    assert(("GET_SETTINGS_UNIT"@)[0] != ("SET_CHAT_MESSAGES"@)[0]);
    reveal_strlit("SET_ERROR");
    assert(("SET_ERROR"@).len() != ("SET_CHAT_MESSAGES"@).len());
    reveal_strlit("GET_ROOM_GUESTS");
    assert(("GET_ROOM_GUESTS"@).len() != ("SET_CHAT_MESSAGES"@).len());
    reveal_strlit("SET_ROOM_GUESTS");
    assert(("SET_ROOM_GUESTS"@).len() != ("SET_CHAT_MESSAGES"@).len());
    reveal_strlit("SET_CHANGE_UNIT");
    assert(("SET_CHANGE_UNIT"@).len() != ("SET_CHAT_MESSAGES"@).len());
    reveal_strlit("GET_MUTE");
    assert(("GET_MUTE"@).len() != ("SET_CHAT_MESSAGES"@).len());
    reveal_strlit("GET_NEED_RECONNECT");
    assert(("GET_NEED_RECONNECT"@).len() != ("SET_CHAT_MESSAGES"@).len());
    reveal_strlit("SET_MUTE");
    assert(("SET_MUTE"@).len() != ("SET_CHAT_MESSAGES"@).len());
    reveal_strlit("GET_CLOSE_PEER_CONNECTION");
    assert(("GET_CLOSE_PEER_CONNECTION"@).len() != ("SET_CHAT_MESSAGES"@).len());
    reveal_strlit("SET_CLOSE_PEER_CONNECTION");
    assert(("SET_CLOSE_PEER_CONNECTION"@).len() != ("SET_CHAT_MESSAGES"@).len());
    reveal_strlit("GET_ROOM_MESSAGE");
    assert(("GET_ROOM_MESSAGE"@).len() != ("SET_CHAT_MESSAGES"@).len());
    reveal_strlit("SET_ROOM_MESSAGE");
    assert(("SET_ROOM_MESSAGE"@).len() != ("SET_CHAT_MESSAGES"@).len());
    reveal_strlit("SET_CHAT_UNIT");
    assert(("SET_CHAT_UNIT"@).len() != ("SET_CHAT_MESSAGES"@).len());
    reveal_strlit("SET_SETTINGS_UNIT");
    assert(("SET_SETTINGS_UNIT"@)[4] != ("SET_CHAT_MESSAGES"@)[4]);
    reveal_strlit("GET_CHAT_MESSAGES");
    assert(("GET_CHAT_MESSAGES"@)[0] != ("SET_CHAT_MESSAGES"@)[0]);
}

proof fn token_names_get_edit_message()
    ensures
        from_wire_token(wire_token(MessageType::GET_EDIT_MESSAGE)) == Some(MessageType::GET_EDIT_MESSAGE),
{
    reveal_strlit("GET_EDIT_MESSAGE");
    reveal_strlit("GET_LOCALE");
    assert(("GET_LOCALE"@).len() != ("GET_EDIT_MESSAGE"@).len());
    reveal_strlit("SET_LOCALE");
    assert(("SET_LOCALE"@).len() != ("GET_EDIT_MESSAGE"@).len());
    reveal_strlit("GET_USER_ID");
    assert(("GET_USER_ID"@).len() != ("GET_EDIT_MESSAGE"@).len());
    reveal_strlit("SET_USER_ID");
    assert(("SET_USER_ID"@).len() != ("GET_EDIT_MESSAGE"@).len());
    reveal_strlit("GET_LOGIN");
    assert(("GET_LOGIN"@).len() != ("GET_EDIT_MESSAGE"@).len());
    reveal_strlit("TOKEN");
    assert(("TOKEN"@).len() != ("GET_EDIT_MESSAGE"@).len());
    reveal_strlit("OFFER");
    assert(("OFFER"@).len() != ("GET_EDIT_MESSAGE"@).len());
    reveal_strlit("ANSWER");
    assert(("ANSWER"@).len() != ("GET_EDIT_MESSAGE"@).len());
    reveal_strlit("CANDIDATE");
    assert(("CANDIDATE"@).len() != ("GET_EDIT_MESSAGE"@).len());
    reveal_strlit("GET_ROOM");
    assert(("GET_ROOM"@).len() != ("GET_EDIT_MESSAGE"@).len());
    reveal_strlit("SET_ROOM");
    assert(("SET_ROOM"@).len() != ("GET_EDIT_MESSAGE"@).len());
    reveal_strlit("GET_CHAT_UNIT");
    assert(("GET_CHAT_UNIT"@).len() != ("GET_EDIT_MESSAGE"@).len());
    reveal_strlit("GET_SETTINGS_UNIT");
    assert(("GET_SETTINGS_UNIT"@).len() != ("GET_EDIT_MESSAGE"@).len());
    reveal_strlit("SET_ERROR");
    assert(("SET_ERROR"@).len() != ("GET_EDIT_MESSAGE"@).len());
    reveal_strlit("GET_ROOM_GUESTS");
    assert(("GET_ROOM_GUESTS"@).len() != ("GET_EDIT_MESSAGE"@).len());
    reveal_strlit("SET_ROOM_GUESTS");
    assert(("SET_ROOM_GUESTS"@).len() != ("GET_EDIT_MESSAGE"@).len());
    reveal_strlit("SET_CHANGE_UNIT");
    assert(("SET_CHANGE_UNIT"@).len() != ("GET_EDIT_MESSAGE"@).len());
    reveal_strlit("GET_MUTE");
    assert(("GET_MUTE"@).len() != ("GET_EDIT_MESSAGE"@).len());
    reveal_strlit("GET_NEED_RECONNECT");
    assert(("GET_NEED_RECONNECT"@).len() != ("GET_EDIT_MESSAGE"@).len());
    reveal_strlit("SET_MUTE");
    assert(("SET_MUTE"@).len() != ("GET_EDIT_MESSAGE"@).len());
    reveal_strlit("GET_CLOSE_PEER_CONNECTION");
    assert(("GET_CLOSE_PEER_CONNECTION"@).len() != ("GET_EDIT_MESSAGE"@).len());
    reveal_strlit("SET_CLOSE_PEER_CONNECTION");
    assert(("SET_CLOSE_PEER_CONNECTION"@).len() != ("GET_EDIT_MESSAGE"@).len());
    reveal_strlit("GET_ROOM_MESSAGE");
    assert(("GET_ROOM_MESSAGE"@)[4] != ("GET_EDIT_MESSAGE"@)[4]);
    reveal_strlit("SET_ROOM_MESSAGE");
    assert(("SET_ROOM_MESSAGE"@)[0] != ("GET_EDIT_MESSAGE"@)[0]);
    reveal_strlit("SET_CHAT_UNIT");
    assert(("SET_CHAT_UNIT"@).len() != ("GET_EDIT_MESSAGE"@).len());
    reveal_strlit("SET_SETTINGS_UNIT");
    assert(("SET_SETTINGS_UNIT"@).len() != ("GET_EDIT_MESSAGE"@).len());
    reveal_strlit("GET_CHAT_MESSAGES");
    assert(("GET_CHAT_MESSAGES"@).len() != ("GET_EDIT_MESSAGE"@).len());
    reveal_strlit("SET_CHAT_MESSAGES");
    assert(("SET_CHAT_MESSAGES"@).len() != ("GET_EDIT_MESSAGE"@).len());
}

proof fn token_names_set_edit_message()
    ensures
        from_wire_token(wire_token(MessageType::SET_EDIT_MESSAGE)) == Some(MessageType::SET_EDIT_MESSAGE),
{
    reveal_strlit("SET_EDIT_MESSAGE");
    reveal_strlit("GET_LOCALE");
    assert(("GET_LOCALE"@).len() != ("SET_EDIT_MESSAGE"@).len());
    reveal_strlit("SET_LOCALE");
    assert(("SET_LOCALE"@).len() != ("SET_EDIT_MESSAGE"@).len());
    reveal_strlit("GET_USER_ID");
    assert(("GET_USER_ID"@).len() != ("SET_EDIT_MESSAGE"@).len());
    reveal_strlit("SET_USER_ID");
    assert(("SET_USER_ID"@).len() != ("SET_EDIT_MESSAGE"@).len());
    reveal_strlit("GET_LOGIN");
    assert(("GET_LOGIN"@).len() != ("SET_EDIT_MESSAGE"@).len());
    reveal_strlit("TOKEN");
    assert(("TOKEN"@).len() != ("SET_EDIT_MESSAGE"@).len());
    reveal_strlit("OFFER");
    assert(("OFFER"@).len() != ("SET_EDIT_MESSAGE"@).len());
    reveal_strlit("ANSWER");
    assert(("ANSWER"@).len() != ("SET_EDIT_MESSAGE"@).len());
    reveal_strlit("CANDIDATE");
    assert(("CANDIDATE"@).len() != ("SET_EDIT_MESSAGE"@).len());
    reveal_strlit("GET_ROOM");
    assert(("GET_ROOM"@).len() != ("SET_EDIT_MESSAGE"@).len());
    reveal_strlit("SET_ROOM");
    assert(("SET_ROOM"@).len() != ("SET_EDIT_MESSAGE"@).len());
    reveal_strlit("GET_CHAT_UNIT");
    assert(("GET_CHAT_UNIT"@).len() != ("SET_EDIT_MESSAGE"@).len());
    reveal_strlit("GET_SETTINGS_UNIT");
    assert(("GET_SETTINGS_UNIT"@).len() != ("SET_EDIT_MESSAGE"@).len());
    reveal_strlit("SET_ERROR");
    assert(("SET_ERROR"@).len() != ("SET_EDIT_MESSAGE"@).len());
    reveal_strlit("GET_ROOM_GUESTS");
    assert(("GET_ROOM_GUESTS"@).len() != ("SET_EDIT_MESSAGE"@).len());
    reveal_strlit("SET_ROOM_GUESTS");
    assert(("SET_ROOM_GUESTS"@).len() != ("SET_EDIT_MESSAGE"@).len());
    reveal_strlit("SET_CHANGE_UNIT");
    assert(("SET_CHANGE_UNIT"@).len() != ("SET_EDIT_MESSAGE"@).len());
    reveal_strlit("GET_MUTE");
    assert(("GET_MUTE"@).len() != ("SET_EDIT_MESSAGE"@).len());
    reveal_strlit("GET_NEED_RECONNECT");
    assert(("GET_NEED_RECONNECT"@).len() != ("SET_EDIT_MESSAGE"@).len());
    reveal_strlit("SET_MUTE");
    assert(("SET_MUTE"@).len() != ("SET_EDIT_MESSAGE"@).len());
    reveal_strlit("GET_CLOSE_PEER_CONNECTION");
    assert(("GET_CLOSE_PEER_CONNECTION"@).len() != ("SET_EDIT_MESSAGE"@).len());
    reveal_strlit("SET_CLOSE_PEER_CONNECTION");
    assert(("SET_CLOSE_PEER_CONNECTION"@).len() != ("SET_EDIT_MESSAGE"@).len());
    reveal_strlit("GET_ROOM_MESSAGE");
    assert(("GET_ROOM_MESSAGE"@)[0] != ("SET_EDIT_MESSAGE"@)[0]);
    reveal_strlit("SET_ROOM_MESSAGE");
    assert(("SET_ROOM_MESSAGE"@)[4] != ("SET_EDIT_MESSAGE"@)[4]);
    reveal_strlit("SET_CHAT_UNIT");
    assert(("SET_CHAT_UNIT"@).len() != ("SET_EDIT_MESSAGE"@).len());
    reveal_strlit("SET_SETTINGS_UNIT");
    assert(("SET_SETTINGS_UNIT"@).len() != ("SET_EDIT_MESSAGE"@).len());
    reveal_strlit("GET_CHAT_MESSAGES");
    assert(("GET_CHAT_MESSAGES"@).len() != ("SET_EDIT_MESSAGE"@).len());
    reveal_strlit("SET_CHAT_MESSAGES");
    assert(("SET_CHAT_MESSAGES"@).len() != ("SET_EDIT_MESSAGE"@).len());
    reveal_strlit("GET_EDIT_MESSAGE");
    assert(("GET_EDIT_MESSAGE"@)[0] != ("SET_EDIT_MESSAGE"@)[0]);
}

proof fn token_names_get_create_message()
    ensures
        from_wire_token(wire_token(MessageType::GET_CREATE_MESSAGE)) == Some(MessageType::GET_CREATE_MESSAGE),
{
    reveal_strlit("GET_CREATE_MESSAGE");
    reveal_strlit("GET_LOCALE");
    assert(("GET_LOCALE"@).len() != ("GET_CREATE_MESSAGE"@).len());
    reveal_strlit("SET_LOCALE");
    assert(("SET_LOCALE"@).len() != ("GET_CREATE_MESSAGE"@).len());
    reveal_strlit("GET_USER_ID");
    assert(("GET_USER_ID"@).len() != ("GET_CREATE_MESSAGE"@).len());
    reveal_strlit("SET_USER_ID");
    assert(("SET_USER_ID"@).len() != ("GET_CREATE_MESSAGE"@).len());
    reveal_strlit("GET_LOGIN");
    assert(("GET_LOGIN"@).len() != ("GET_CREATE_MESSAGE"@).len());
    reveal_strlit("TOKEN");
    assert(("TOKEN"@).len() != ("GET_CREATE_MESSAGE"@).len());
    reveal_strlit("OFFER");
    assert(("OFFER"@).len() != ("GET_CREATE_MESSAGE"@).len());
    reveal_strlit("ANSWER");
    assert(("ANSWER"@).len() != ("GET_CREATE_MESSAGE"@).len());
    reveal_strlit("CANDIDATE");
    assert(("CANDIDATE"@).len() != ("GET_CREATE_MESSAGE"@).len());
    reveal_strlit("GET_ROOM");
    assert(("GET_ROOM"@).len() != ("GET_CREATE_MESSAGE"@).len());
    reveal_strlit("SET_ROOM");
    assert(("SET_ROOM"@).len() != ("GET_CREATE_MESSAGE"@).len());
    reveal_strlit("GET_CHAT_UNIT");
    assert(("GET_CHAT_UNIT"@).len() != ("GET_CREATE_MESSAGE"@).len());
    reveal_strlit("GET_SETTINGS_UNIT");
    assert(("GET_SETTINGS_UNIT"@).len() != ("GET_CREATE_MESSAGE"@).len());
    reveal_strlit("SET_ERROR");
    assert(("SET_ERROR"@).len() != ("GET_CREATE_MESSAGE"@).len());
    reveal_strlit("GET_ROOM_GUESTS");
    assert(("GET_ROOM_GUESTS"@).len() != ("GET_CREATE_MESSAGE"@).len());
    reveal_strlit("SET_ROOM_GUESTS");
    assert(("SET_ROOM_GUESTS"@).len() != ("GET_CREATE_MESSAGE"@).len());
    reveal_strlit("SET_CHANGE_UNIT");
    assert(("SET_CHANGE_UNIT"@).len() != ("GET_CREATE_MESSAGE"@).len());
    reveal_strlit("GET_MUTE");
    assert(("GET_MUTE"@).len() != ("GET_CREATE_MESSAGE"@).len());
    reveal_strlit("GET_NEED_RECONNECT");
    assert(("GET_NEED_RECONNECT"@)[4] != ("GET_CREATE_MESSAGE"@)[4]);
    reveal_strlit("SET_MUTE");
    assert(("SET_MUTE"@).len() != ("GET_CREATE_MESSAGE"@).len());
    reveal_strlit("GET_CLOSE_PEER_CONNECTION");
    assert(("GET_CLOSE_PEER_CONNECTION"@).len() != ("GET_CREATE_MESSAGE"@).len());
    reveal_strlit("SET_CLOSE_PEER_CONNECTION");
    assert(("SET_CLOSE_PEER_CONNECTION"@).len() != ("GET_CREATE_MESSAGE"@).len());
    reveal_strlit("GET_ROOM_MESSAGE");
    assert(("GET_ROOM_MESSAGE"@).len() != ("GET_CREATE_MESSAGE"@).len());
    reveal_strlit("SET_ROOM_MESSAGE");
    assert(("SET_ROOM_MESSAGE"@).len() != ("GET_CREATE_MESSAGE"@).len());
    reveal_strlit("SET_CHAT_UNIT");
    assert(("SET_CHAT_UNIT"@).len() != ("GET_CREATE_MESSAGE"@).len());
    reveal_strlit("SET_SETTINGS_UNIT");
    assert(("SET_SETTINGS_UNIT"@).len() != ("GET_CREATE_MESSAGE"@).len());
    reveal_strlit("GET_CHAT_MESSAGES");
    assert(("GET_CHAT_MESSAGES"@).len() != ("GET_CREATE_MESSAGE"@).len());
    reveal_strlit("SET_CHAT_MESSAGES");
    assert(("SET_CHAT_MESSAGES"@).len() != ("GET_CREATE_MESSAGE"@).len());
    reveal_strlit("GET_EDIT_MESSAGE");
    assert(("GET_EDIT_MESSAGE"@).len() != ("GET_CREATE_MESSAGE"@).len());
    reveal_strlit("SET_EDIT_MESSAGE");
    assert(("SET_EDIT_MESSAGE"@).len() != ("GET_CREATE_MESSAGE"@).len());
}

proof fn token_names_set_create_message()
    ensures
        from_wire_token(wire_token(MessageType::SET_CREATE_MESSAGE)) == Some(MessageType::SET_CREATE_MESSAGE),
{
    reveal_strlit("SET_CREATE_MESSAGE");
    reveal_strlit("GET_LOCALE");
    assert(("GET_LOCALE"@).len() != ("SET_CREATE_MESSAGE"@).len());
    reveal_strlit("SET_LOCALE");
    assert(("SET_LOCALE"@).len() != ("SET_CREATE_MESSAGE"@).len());
    reveal_strlit("GET_USER_ID");
    assert(("GET_USER_ID"@).len() != ("SET_CREATE_MESSAGE"@).len());
    reveal_strlit("SET_USER_ID");
    assert(("SET_USER_ID"@).len() != ("SET_CREATE_MESSAGE"@).len());
    reveal_strlit("GET_LOGIN");
    assert(("GET_LOGIN"@).len() != ("SET_CREATE_MESSAGE"@).len());
    reveal_strlit("TOKEN");
    assert(("TOKEN"@).len() != ("SET_CREATE_MESSAGE"@).len());
    reveal_strlit("OFFER");
    assert(("OFFER"@).len() != ("SET_CREATE_MESSAGE"@).len());
    reveal_strlit("ANSWER");
    assert(("ANSWER"@).len() != ("SET_CREATE_MESSAGE"@).len());
    reveal_strlit("CANDIDATE");
    assert(("CANDIDATE"@).len() != ("SET_CREATE_MESSAGE"@).len());
    reveal_strlit("GET_ROOM");
    assert(("GET_ROOM"@).len() != ("SET_CREATE_MESSAGE"@).len());
    reveal_strlit("SET_ROOM");
    assert(("SET_ROOM"@).len() != ("SET_CREATE_MESSAGE"@).len());
    reveal_strlit("GET_CHAT_UNIT");
    assert(("GET_CHAT_UNIT"@).len() != ("SET_CREATE_MESSAGE"@).len());
    reveal_strlit("GET_SETTINGS_UNIT");
    assert(("GET_SETTINGS_UNIT"@).len() != ("SET_CREATE_MESSAGE"@).len());
    reveal_strlit("SET_ERROR");
    assert(("SET_ERROR"@).len() != ("SET_CREATE_MESSAGE"@).len());
    reveal_strlit("GET_ROOM_GUESTS");
    assert(("GET_ROOM_GUESTS"@).len() != ("SET_CREATE_MESSAGE"@).len());
    reveal_strlit("SET_ROOM_GUESTS");
    assert(("SET_ROOM_GUESTS"@).len() != ("SET_CREATE_MESSAGE"@).len());
    reveal_strlit("SET_CHANGE_UNIT");
    assert(("SET_CHANGE_UNIT"@).len() != ("SET_CREATE_MESSAGE"@).len());
    reveal_strlit("GET_MUTE");
    assert(("GET_MUTE"@).len() != ("SET_CREATE_MESSAGE"@).len());
    reveal_strlit("GET_NEED_RECONNECT");
    assert(("GET_NEED_RECONNECT"@)[0] != ("SET_CREATE_MESSAGE"@)[0]);
    reveal_strlit("SET_MUTE");
    assert(("SET_MUTE"@).len() != ("SET_CREATE_MESSAGE"@).len());
    reveal_strlit("GET_CLOSE_PEER_CONNECTION");
    assert(("GET_CLOSE_PEER_CONNECTION"@).len() != ("SET_CREATE_MESSAGE"@).len());
    reveal_strlit("SET_CLOSE_PEER_CONNECTION");
    assert(("SET_CLOSE_PEER_CONNECTION"@).len() != ("SET_CREATE_MESSAGE"@).len());
    reveal_strlit("GET_ROOM_MESSAGE");
    assert(("GET_ROOM_MESSAGE"@).len() != ("SET_CREATE_MESSAGE"@).len());
    reveal_strlit("SET_ROOM_MESSAGE");
    assert(("SET_ROOM_MESSAGE"@).len() != ("SET_CREATE_MESSAGE"@).len());
    reveal_strlit("SET_CHAT_UNIT");
    assert(("SET_CHAT_UNIT"@).len() != ("SET_CREATE_MESSAGE"@).len());
    reveal_strlit("SET_SETTINGS_UNIT");
    assert(("SET_SETTINGS_UNIT"@).len() != ("SET_CREATE_MESSAGE"@).len());
    reveal_strlit("GET_CHAT_MESSAGES");
    assert(("GET_CHAT_MESSAGES"@).len() != ("SET_CREATE_MESSAGE"@).len());
    reveal_strlit("SET_CHAT_MESSAGES");
    assert(("SET_CHAT_MESSAGES"@).len() != ("SET_CREATE_MESSAGE"@).len());
    reveal_strlit("GET_EDIT_MESSAGE");
    assert(("GET_EDIT_MESSAGE"@).len() != ("SET_CREATE_MESSAGE"@).len());
    reveal_strlit("SET_EDIT_MESSAGE");
    assert(("SET_EDIT_MESSAGE"@).len() != ("SET_CREATE_MESSAGE"@).len());
    reveal_strlit("GET_CREATE_MESSAGE");
    assert(("GET_CREATE_MESSAGE"@)[0] != ("SET_CREATE_MESSAGE"@)[0]);
}

proof fn token_names_get_create_quote()
    ensures
        from_wire_token(wire_token(MessageType::GET_CREATE_QUOTE)) == Some(MessageType::GET_CREATE_QUOTE),
{
    reveal_strlit("GET_CREATE_QUOTE");
    reveal_strlit("GET_LOCALE");
    assert(("GET_LOCALE"@).len() != ("GET_CREATE_QUOTE"@).len());
    reveal_strlit("SET_LOCALE");
    assert(("SET_LOCALE"@).len() != ("GET_CREATE_QUOTE"@).len());
    reveal_strlit("GET_USER_ID");
    assert(("GET_USER_ID"@).len() != ("GET_CREATE_QUOTE"@).len());
    reveal_strlit("SET_USER_ID");
    assert(("SET_USER_ID"@).len() != ("GET_CREATE_QUOTE"@).len());
    reveal_strlit("GET_LOGIN");
    assert(("GET_LOGIN"@).len() != ("GET_CREATE_QUOTE"@).len());
    reveal_strlit("TOKEN");
    assert(("TOKEN"@).len() != ("GET_CREATE_QUOTE"@).len());
    reveal_strlit("OFFER");
    assert(("OFFER"@).len() != ("GET_CREATE_QUOTE"@).len());
    reveal_strlit("ANSWER");
    assert(("ANSWER"@).len() != ("GET_CREATE_QUOTE"@).len());
    reveal_strlit("CANDIDATE");
    assert(("CANDIDATE"@).len() != ("GET_CREATE_QUOTE"@).len());
    reveal_strlit("GET_ROOM");
    assert(("GET_ROOM"@).len() != ("GET_CREATE_QUOTE"@).len());
    reveal_strlit("SET_ROOM");
    assert(("SET_ROOM"@).len() != ("GET_CREATE_QUOTE"@).len());
    reveal_strlit("GET_CHAT_UNIT");
    assert(("GET_CHAT_UNIT"@).len() != ("GET_CREATE_QUOTE"@).len());
    reveal_strlit("GET_SETTINGS_UNIT");
    assert(("GET_SETTINGS_UNIT"@).len() != ("GET_CREATE_QUOTE"@).len());
    reveal_strlit("SET_ERROR");
    assert(("SET_ERROR"@).len() != ("GET_CREATE_QUOTE"@).len());
    reveal_strlit("GET_ROOM_GUESTS");
    assert(("GET_ROOM_GUESTS"@).len() != ("GET_CREATE_QUOTE"@).len());
    reveal_strlit("SET_ROOM_GUESTS");
    assert(("SET_ROOM_GUESTS"@).len() != ("GET_CREATE_QUOTE"@).len());
    reveal_strlit("SET_CHANGE_UNIT");
    assert(("SET_CHANGE_UNIT"@).len() != ("GET_CREATE_QUOTE"@).len());
    reveal_strlit("GET_MUTE");
    assert(("GET_MUTE"@).len() != ("GET_CREATE_QUOTE"@).len());
    reveal_strlit("GET_NEED_RECONNECT");
    assert(("GET_NEED_RECONNECT"@).len() != ("GET_CREATE_QUOTE"@).len());
    reveal_strlit("SET_MUTE");
    assert(("SET_MUTE"@).len() != ("GET_CREATE_QUOTE"@).len());
    reveal_strlit("GET_CLOSE_PEER_CONNECTION");
    assert(("GET_CLOSE_PEER_CONNECTION"@).len() != ("GET_CREATE_QUOTE"@).len());
    reveal_strlit("SET_CLOSE_PEER_CONNECTION");
    assert(("SET_CLOSE_PEER_CONNECTION"@).len() != ("GET_CREATE_QUOTE"@).len());
    reveal_strlit("GET_ROOM_MESSAGE");
    assert(("GET_ROOM_MESSAGE"@)[4] != ("GET_CREATE_QUOTE"@)[4]);
    reveal_strlit("SET_ROOM_MESSAGE");
    assert(("SET_ROOM_MESSAGE"@)[0] != ("GET_CREATE_QUOTE"@)[0]);
    reveal_strlit("SET_CHAT_UNIT");
    assert(("SET_CHAT_UNIT"@).len() != ("GET_CREATE_QUOTE"@).len());
    reveal_strlit("SET_SETTINGS_UNIT");
    assert(("SET_SETTINGS_UNIT"@).len() != ("GET_CREATE_QUOTE"@).len());
    reveal_strlit("GET_CHAT_MESSAGES");
    assert(("GET_CHAT_MESSAGES"@).len() != ("GET_CREATE_QUOTE"@).len());
    reveal_strlit("SET_CHAT_MESSAGES");
    assert(("SET_CHAT_MESSAGES"@).len() != ("GET_CREATE_QUOTE"@).len());
    reveal_strlit("GET_EDIT_MESSAGE");
    assert(("GET_EDIT_MESSAGE"@)[4] != ("GET_CREATE_QUOTE"@)[4]);
    reveal_strlit("SET_EDIT_MESSAGE");
    assert(("SET_EDIT_MESSAGE"@)[0] != ("GET_CREATE_QUOTE"@)[0]);
    reveal_strlit("GET_CREATE_MESSAGE");
    assert(("GET_CREATE_MESSAGE"@).len() != ("GET_CREATE_QUOTE"@).len());
    reveal_strlit("SET_CREATE_MESSAGE");
    assert(("SET_CREATE_MESSAGE"@).len() != ("GET_CREATE_QUOTE"@).len());
}

proof fn token_names_set_create_quote()
    ensures
        from_wire_token(wire_token(MessageType::SET_CREATE_QUOTE)) == Some(MessageType::SET_CREATE_QUOTE),
{
    reveal_strlit("SET_CREATE_QUOTE");
    reveal_strlit("GET_LOCALE");
    assert(("GET_LOCALE"@).len() != ("SET_CREATE_QUOTE"@).len());
    reveal_strlit("SET_LOCALE");
    assert(("SET_LOCALE"@).len() != ("SET_CREATE_QUOTE"@).len());
    reveal_strlit("GET_USER_ID");
    assert(("GET_USER_ID"@).len() != ("SET_CREATE_QUOTE"@).len());
    reveal_strlit("SET_USER_ID");
    assert(("SET_USER_ID"@).len() != ("SET_CREATE_QUOTE"@).len());
    reveal_strlit("GET_LOGIN");
    assert(("GET_LOGIN"@).len() != ("SET_CREATE_QUOTE"@).len());
    reveal_strlit("TOKEN");
    assert(("TOKEN"@).len() != ("SET_CREATE_QUOTE"@).len());
    reveal_strlit("OFFER");
    assert(("OFFER"@).len() != ("SET_CREATE_QUOTE"@).len());
    reveal_strlit("ANSWER");
    assert(("ANSWER"@).len() != ("SET_CREATE_QUOTE"@).len());
    reveal_strlit("CANDIDATE");
    assert(("CANDIDATE"@).len() != ("SET_CREATE_QUOTE"@).len());
    reveal_strlit("GET_ROOM");
    assert(("GET_ROOM"@).len() != ("SET_CREATE_QUOTE"@).len());
    reveal_strlit("SET_ROOM");
    assert(("SET_ROOM"@).len() != ("SET_CREATE_QUOTE"@).len());
    reveal_strlit("GET_CHAT_UNIT");
    assert(("GET_CHAT_UNIT"@).len() != ("SET_CREATE_QUOTE"@).len());
    reveal_strlit("GET_SETTINGS_UNIT");
    assert(("GET_SETTINGS_UNIT"@).len() != ("SET_CREATE_QUOTE"@).len());
    reveal_strlit("SET_ERROR");
    assert(("SET_ERROR"@).len() != ("SET_CREATE_QUOTE"@).len());
    reveal_strlit("GET_ROOM_GUESTS");
    assert(("GET_ROOM_GUESTS"@).len() != ("SET_CREATE_QUOTE"@).len());
    reveal_strlit("SET_ROOM_GUESTS");
    assert(("SET_ROOM_GUESTS"@).len() != ("SET_CREATE_QUOTE"@).len());
    reveal_strlit("SET_CHANGE_UNIT");
    assert(("SET_CHANGE_UNIT"@).len() != ("SET_CREATE_QUOTE"@).len());
    reveal_strlit("GET_MUTE");
    assert(("GET_MUTE"@).len() != ("SET_CREATE_QUOTE"@).len());
    reveal_strlit("GET_NEED_RECONNECT");
    assert(("GET_NEED_RECONNECT"@).len() != ("SET_CREATE_QUOTE"@).len());
    reveal_strlit("SET_MUTE");
    assert(("SET_MUTE"@).len() != ("SET_CREATE_QUOTE"@).len());
    reveal_strlit("GET_CLOSE_PEER_CONNECTION");
    assert(("GET_CLOSE_PEER_CONNECTION"@).len() != ("SET_CREATE_QUOTE"@).len());
    reveal_strlit("SET_CLOSE_PEER_CONNECTION");
    assert(("SET_CLOSE_PEER_CONNECTION"@).len() != ("SET_CREATE_QUOTE"@).len());
    reveal_strlit("GET_ROOM_MESSAGE");
    assert(("GET_ROOM_MESSAGE"@)[0] != ("SET_CREATE_QUOTE"@)[0]);
    reveal_strlit("SET_ROOM_MESSAGE");
    assert(("SET_ROOM_MESSAGE"@)[4] != ("SET_CREATE_QUOTE"@)[4]);
    reveal_strlit("SET_CHAT_UNIT");
    assert(("SET_CHAT_UNIT"@).len() != ("SET_CREATE_QUOTE"@).len());
    reveal_strlit("SET_SETTINGS_UNIT");
    assert(("SET_SETTINGS_UNIT"@).len() != ("SET_CREATE_QUOTE"@).len());
    reveal_strlit("GET_CHAT_MESSAGES");
    assert(("GET_CHAT_MESSAGES"@).len() != ("SET_CREATE_QUOTE"@).len());
    reveal_strlit("SET_CHAT_MESSAGES");
    assert(("SET_CHAT_MESSAGES"@).len() != ("SET_CREATE_QUOTE"@).len());
    reveal_strlit("GET_EDIT_MESSAGE");
    assert(("GET_EDIT_MESSAGE"@)[0] != ("SET_CREATE_QUOTE"@)[0]);
    reveal_strlit("SET_EDIT_MESSAGE");
    assert(("SET_EDIT_MESSAGE"@)[4] != ("SET_CREATE_QUOTE"@)[4]);
    reveal_strlit("GET_CREATE_MESSAGE");
    assert(("GET_CREATE_MESSAGE"@).len() != ("SET_CREATE_QUOTE"@).len());
    reveal_strlit("SET_CREATE_MESSAGE");
    assert(("SET_CREATE_MESSAGE"@).len() != ("SET_CREATE_QUOTE"@).len());
    reveal_strlit("GET_CREATE_QUOTE");
    assert(("GET_CREATE_QUOTE"@)[0] != ("SET_CREATE_QUOTE"@)[0]);
}

proof fn token_names_get_delete_message()
    ensures
        from_wire_token(wire_token(MessageType::GET_DELETE_MESSAGE)) == Some(MessageType::GET_DELETE_MESSAGE),
{
    reveal_strlit("GET_DELETE_MESSAGE");
    reveal_strlit("GET_LOCALE");
    assert(("GET_LOCALE"@).len() != ("GET_DELETE_MESSAGE"@).len());
    reveal_strlit("SET_LOCALE");
    assert(("SET_LOCALE"@).len() != ("GET_DELETE_MESSAGE"@).len());
    reveal_strlit("GET_USER_ID");
    assert(("GET_USER_ID"@).len() != ("GET_DELETE_MESSAGE"@).len());
    reveal_strlit("SET_USER_ID");
    assert(("SET_USER_ID"@).len() != ("GET_DELETE_MESSAGE"@).len());
    reveal_strlit("GET_LOGIN");
    assert(("GET_LOGIN"@).len() != ("GET_DELETE_MESSAGE"@).len());
    reveal_strlit("TOKEN");
    assert(("TOKEN"@).len() != ("GET_DELETE_MESSAGE"@).len());
    reveal_strlit("OFFER");
    assert(("OFFER"@).len() != ("GET_DELETE_MESSAGE"@).len());
    reveal_strlit("ANSWER");
    assert(("ANSWER"@).len() != ("GET_DELETE_MESSAGE"@).len());
    reveal_strlit("CANDIDATE");
    assert(("CANDIDATE"@).len() != ("GET_DELETE_MESSAGE"@).len());
    reveal_strlit("GET_ROOM");
    assert(("GET_ROOM"@).len() != ("GET_DELETE_MESSAGE"@).len());
    reveal_strlit("SET_ROOM");
    assert(("SET_ROOM"@).len() != ("GET_DELETE_MESSAGE"@).len());
    reveal_strlit("GET_CHAT_UNIT");
    assert(("GET_CHAT_UNIT"@).len() != ("GET_DELETE_MESSAGE"@).len());
    reveal_strlit("GET_SETTINGS_UNIT");
    assert(("GET_SETTINGS_UNIT"@).len() != ("GET_DELETE_MESSAGE"@).len());
    reveal_strlit("SET_ERROR");
    assert(("SET_ERROR"@).len() != ("GET_DELETE_MESSAGE"@).len());
    reveal_strlit("GET_ROOM_GUESTS");
    assert(("GET_ROOM_GUESTS"@).len() != ("GET_DELETE_MESSAGE"@).len());
    reveal_strlit("SET_ROOM_GUESTS");
    assert(("SET_ROOM_GUESTS"@).len() != ("GET_DELETE_MESSAGE"@).len());
    reveal_strlit("SET_CHANGE_UNIT");
    assert(("SET_CHANGE_UNIT"@).len() != ("GET_DELETE_MESSAGE"@).len());
    reveal_strlit("GET_MUTE");
    assert(("GET_MUTE"@).len() != ("GET_DELETE_MESSAGE"@).len());
    reveal_strlit("GET_NEED_RECONNECT");
    assert(("GET_NEED_RECONNECT"@)[4] != ("GET_DELETE_MESSAGE"@)[4]);
    reveal_strlit("SET_MUTE");
    assert(("SET_MUTE"@).len() != ("GET_DELETE_MESSAGE"@).len());
    reveal_strlit("GET_CLOSE_PEER_CONNECTION");
    assert(("GET_CLOSE_PEER_CONNECTION"@).len() != ("GET_DELETE_MESSAGE"@).len());
    reveal_strlit("SET_CLOSE_PEER_CONNECTION");
    assert(("SET_CLOSE_PEER_CONNECTION"@).len() != ("GET_DELETE_MESSAGE"@).len());
    reveal_strlit("GET_ROOM_MESSAGE");
    assert(("GET_ROOM_MESSAGE"@).len() != ("GET_DELETE_MESSAGE"@).len());
    reveal_strlit("SET_ROOM_MESSAGE");
    assert(("SET_ROOM_MESSAGE"@).len() != ("GET_DELETE_MESSAGE"@).len());
    reveal_strlit("SET_CHAT_UNIT");
    assert(("SET_CHAT_UNIT"@).len() != ("GET_DELETE_MESSAGE"@).len());
    reveal_strlit("SET_SETTINGS_UNIT");
    assert(("SET_SETTINGS_UNIT"@).len() != ("GET_DELETE_MESSAGE"@).len());
    reveal_strlit("GET_CHAT_MESSAGES");
    assert(("GET_CHAT_MESSAGES"@).len() != ("GET_DELETE_MESSAGE"@).len());
    reveal_strlit("SET_CHAT_MESSAGES");
    assert(("SET_CHAT_MESSAGES"@).len() != ("GET_DELETE_MESSAGE"@).len());
    reveal_strlit("GET_EDIT_MESSAGE");
    assert(("GET_EDIT_MESSAGE"@).len() != ("GET_DELETE_MESSAGE"@).len());
    reveal_strlit("SET_EDIT_MESSAGE");
    assert(("SET_EDIT_MESSAGE"@).len() != ("GET_DELETE_MESSAGE"@).len());
    reveal_strlit("GET_CREATE_MESSAGE");
    assert(("GET_CREATE_MESSAGE"@)[4] != ("GET_DELETE_MESSAGE"@)[4]);
    reveal_strlit("SET_CREATE_MESSAGE");
    assert(("SET_CREATE_MESSAGE"@)[0] != ("GET_DELETE_MESSAGE"@)[0]);
    reveal_strlit("GET_CREATE_QUOTE");
    assert(("GET_CREATE_QUOTE"@).len() != ("GET_DELETE_MESSAGE"@).len());
    reveal_strlit("SET_CREATE_QUOTE");
    assert(("SET_CREATE_QUOTE"@).len() != ("GET_DELETE_MESSAGE"@).len());
}

proof fn token_names_set_delete_message()
    ensures
        from_wire_token(wire_token(MessageType::SET_DELETE_MESSAGE)) == Some(MessageType::SET_DELETE_MESSAGE),
{
    reveal_strlit("SET_DELETE_MESSAGE");
    reveal_strlit("GET_LOCALE");
    assert(("GET_LOCALE"@).len() != ("SET_DELETE_MESSAGE"@).len());
    reveal_strlit("SET_LOCALE");
    assert(("SET_LOCALE"@).len() != ("SET_DELETE_MESSAGE"@).len());
    reveal_strlit("GET_USER_ID");
    assert(("GET_USER_ID"@).len() != ("SET_DELETE_MESSAGE"@).len());
    reveal_strlit("SET_USER_ID");
    assert(("SET_USER_ID"@).len() != ("SET_DELETE_MESSAGE"@).len());
    reveal_strlit("GET_LOGIN");
    assert(("GET_LOGIN"@).len() != ("SET_DELETE_MESSAGE"@).len());
    reveal_strlit("TOKEN");
    assert(("TOKEN"@).len() != ("SET_DELETE_MESSAGE"@).len());
    reveal_strlit("OFFER");
    assert(("OFFER"@).len() != ("SET_DELETE_MESSAGE"@).len());
    reveal_strlit("ANSWER");
    assert(("ANSWER"@).len() != ("SET_DELETE_MESSAGE"@).len());
    reveal_strlit("CANDIDATE");
    assert(("CANDIDATE"@).len() != ("SET_DELETE_MESSAGE"@).len());
    reveal_strlit("GET_ROOM");
    assert(("GET_ROOM"@).len() != ("SET_DELETE_MESSAGE"@).len());
    reveal_strlit("SET_ROOM");
    assert(("SET_ROOM"@).len() != ("SET_DELETE_MESSAGE"@).len());
    reveal_strlit("GET_CHAT_UNIT");
    assert(("GET_CHAT_UNIT"@).len() != ("SET_DELETE_MESSAGE"@).len());
    reveal_strlit("GET_SETTINGS_UNIT");
    assert(("GET_SETTINGS_UNIT"@).len() != ("SET_DELETE_MESSAGE"@).len());
    reveal_strlit("SET_ERROR");
    assert(("SET_ERROR"@).len() != ("SET_DELETE_MESSAGE"@).len());
    reveal_strlit("GET_ROOM_GUESTS");
    assert(("GET_ROOM_GUESTS"@).len() != ("SET_DELETE_MESSAGE"@).len());
    reveal_strlit("SET_ROOM_GUESTS");
    assert(("SET_ROOM_GUESTS"@).len() != ("SET_DELETE_MESSAGE"@).len());
    reveal_strlit("SET_CHANGE_UNIT");
    assert(("SET_CHANGE_UNIT"@).len() != ("SET_DELETE_MESSAGE"@).len());
    reveal_strlit("GET_MUTE");
    assert(("GET_MUTE"@).len() != ("SET_DELETE_MESSAGE"@).len());
    reveal_strlit("GET_NEED_RECONNECT");
    assert(("GET_NEED_RECONNECT"@)[0] != ("SET_DELETE_MESSAGE"@)[0]);
    reveal_strlit("SET_MUTE");
    assert(("SET_MUTE"@).len() != ("SET_DELETE_MESSAGE"@).len());
    reveal_strlit("GET_CLOSE_PEER_CONNECTION");
    assert(("GET_CLOSE_PEER_CONNECTION"@).len() != ("SET_DELETE_MESSAGE"@).len());
    reveal_strlit("SET_CLOSE_PEER_CONNECTION");
    assert(("SET_CLOSE_PEER_CONNECTION"@).len() != ("SET_DELETE_MESSAGE"@).len());
    reveal_strlit("GET_ROOM_MESSAGE");
    assert(("GET_ROOM_MESSAGE"@).len() != ("SET_DELETE_MESSAGE"@).len());
    reveal_strlit("SET_ROOM_MESSAGE");
    assert(("SET_ROOM_MESSAGE"@).len() != ("SET_DELETE_MESSAGE"@).len());
    reveal_strlit("SET_CHAT_UNIT");
    assert(("SET_CHAT_UNIT"@).len() != ("SET_DELETE_MESSAGE"@).len());
    reveal_strlit("SET_SETTINGS_UNIT");
    assert(("SET_SETTINGS_UNIT"@).len() != ("SET_DELETE_MESSAGE"@).len());
    reveal_strlit("GET_CHAT_MESSAGES");
    assert(("GET_CHAT_MESSAGES"@).len() != ("SET_DELETE_MESSAGE"@).len());
    reveal_strlit("SET_CHAT_MESSAGES");
    assert(("SET_CHAT_MESSAGES"@).len() != ("SET_DELETE_MESSAGE"@).len());
    reveal_strlit("GET_EDIT_MESSAGE");
    assert(("GET_EDIT_MESSAGE"@).len() != ("SET_DELETE_MESSAGE"@).len());
    reveal_strlit("SET_EDIT_MESSAGE");
    assert(("SET_EDIT_MESSAGE"@).len() != ("SET_DELETE_MESSAGE"@).len());
    reveal_strlit("GET_CREATE_MESSAGE");
    assert(("GET_CREATE_MESSAGE"@)[0] != ("SET_DELETE_MESSAGE"@)[0]);
    reveal_strlit("SET_CREATE_MESSAGE");
    assert(("SET_CREATE_MESSAGE"@)[4] != ("SET_DELETE_MESSAGE"@)[4]);
    reveal_strlit("GET_CREATE_QUOTE");
    assert(("GET_CREATE_QUOTE"@).len() != ("SET_DELETE_MESSAGE"@).len());
    reveal_strlit("SET_CREATE_QUOTE");
    assert(("SET_CREATE_QUOTE"@).len() != ("SET_DELETE_MESSAGE"@).len());
    reveal_strlit("GET_DELETE_MESSAGE");
    assert(("GET_DELETE_MESSAGE"@)[0] != ("SET_DELETE_MESSAGE"@)[0]);
}

proof fn token_names_get_to_mute()
    ensures
        from_wire_token(wire_token(MessageType::GET_TO_MUTE)) == Some(MessageType::GET_TO_MUTE),
{
    reveal_strlit("GET_TO_MUTE");
    reveal_strlit("GET_LOCALE");
    assert(("GET_LOCALE"@).len() != ("GET_TO_MUTE"@).len());
    reveal_strlit("SET_LOCALE");
    assert(("SET_LOCALE"@).len() != ("GET_TO_MUTE"@).len());
    reveal_strlit("GET_USER_ID");
    assert(("GET_USER_ID"@)[4] != ("GET_TO_MUTE"@)[4]);
    reveal_strlit("SET_USER_ID");
    assert(("SET_USER_ID"@)[0] != ("GET_TO_MUTE"@)[0]);
    reveal_strlit("GET_LOGIN");
    assert(("GET_LOGIN"@).len() != ("GET_TO_MUTE"@).len());
    reveal_strlit("TOKEN");
    assert(("TOKEN"@).len() != ("GET_TO_MUTE"@).len());
    reveal_strlit("OFFER");
    assert(("OFFER"@).len() != ("GET_TO_MUTE"@).len());
    reveal_strlit("ANSWER");
    assert(("ANSWER"@).len() != ("GET_TO_MUTE"@).len());
    reveal_strlit("CANDIDATE");
    assert(("CANDIDATE"@).len() != ("GET_TO_MUTE"@).len());
    reveal_strlit("GET_ROOM");
    assert(("GET_ROOM"@).len() != ("GET_TO_MUTE"@).len());
    reveal_strlit("SET_ROOM");
    assert(("SET_ROOM"@).len() != ("GET_TO_MUTE"@).len());
    reveal_strlit("GET_CHAT_UNIT");
    assert(("GET_CHAT_UNIT"@).len() != ("GET_TO_MUTE"@).len());
    reveal_strlit("GET_SETTINGS_UNIT");
    assert(("GET_SETTINGS_UNIT"@).len() != ("GET_TO_MUTE"@).len());
    reveal_strlit("SET_ERROR");
    assert(("SET_ERROR"@).len() != ("GET_TO_MUTE"@).len());
    reveal_strlit("GET_ROOM_GUESTS");
    assert(("GET_ROOM_GUESTS"@).len() != ("GET_TO_MUTE"@).len());
    reveal_strlit("SET_ROOM_GUESTS");
    assert(("SET_ROOM_GUESTS"@).len() != ("GET_TO_MUTE"@).len());
    reveal_strlit("SET_CHANGE_UNIT");
    assert(("SET_CHANGE_UNIT"@).len() != ("GET_TO_MUTE"@).len());
    reveal_strlit("GET_MUTE");
    assert(("GET_MUTE"@).len() != ("GET_TO_MUTE"@).len());
    reveal_strlit("GET_NEED_RECONNECT");
    assert(("GET_NEED_RECONNECT"@).len() != ("GET_TO_MUTE"@).len());
    reveal_strlit("SET_MUTE");
    assert(("SET_MUTE"@).len() != ("GET_TO_MUTE"@).len());
    reveal_strlit("GET_CLOSE_PEER_CONNECTION");
    assert(("GET_CLOSE_PEER_CONNECTION"@).len() != ("GET_TO_MUTE"@).len());
    reveal_strlit("SET_CLOSE_PEER_CONNECTION");
    assert(("SET_CLOSE_PEER_CONNECTION"@).len() != ("GET_TO_MUTE"@).len());
    reveal_strlit("GET_ROOM_MESSAGE");
    assert(("GET_ROOM_MESSAGE"@).len() != ("GET_TO_MUTE"@).len());
    reveal_strlit("SET_ROOM_MESSAGE");
    assert(("SET_ROOM_MESSAGE"@).len() != ("GET_TO_MUTE"@).len());
    reveal_strlit("SET_CHAT_UNIT");
    assert(("SET_CHAT_UNIT"@).len() != ("GET_TO_MUTE"@).len());
    reveal_strlit("SET_SETTINGS_UNIT");
    assert(("SET_SETTINGS_UNIT"@).len() != ("GET_TO_MUTE"@).len());
    reveal_strlit("GET_CHAT_MESSAGES");
    assert(("GET_CHAT_MESSAGES"@).len() != ("GET_TO_MUTE"@).len());
    reveal_strlit("SET_CHAT_MESSAGES");
    assert(("SET_CHAT_MESSAGES"@).len() != ("GET_TO_MUTE"@).len());
    reveal_strlit("GET_EDIT_MESSAGE");
    assert(("GET_EDIT_MESSAGE"@).len() != ("GET_TO_MUTE"@).len());
    reveal_strlit("SET_EDIT_MESSAGE");
    assert(("SET_EDIT_MESSAGE"@).len() != ("GET_TO_MUTE"@).len());
    reveal_strlit("GET_CREATE_MESSAGE");
    assert(("GET_CREATE_MESSAGE"@).len() != ("GET_TO_MUTE"@).len());
    reveal_strlit("SET_CREATE_MESSAGE");
    assert(("SET_CREATE_MESSAGE"@).len() != ("GET_TO_MUTE"@).len());
    reveal_strlit("GET_CREATE_QUOTE");
    assert(("GET_CREATE_QUOTE"@).len() != ("GET_TO_MUTE"@).len());
    reveal_strlit("SET_CREATE_QUOTE");
    assert(("SET_CREATE_QUOTE"@).len() != ("GET_TO_MUTE"@).len());
    reveal_strlit("GET_DELETE_MESSAGE");
    assert(("GET_DELETE_MESSAGE"@).len() != ("GET_TO_MUTE"@).len());
    reveal_strlit("SET_DELETE_MESSAGE");
    assert(("SET_DELETE_MESSAGE"@).len() != ("GET_TO_MUTE"@).len());
}

proof fn token_names_get_to_ban()
    ensures
        from_wire_token(wire_token(MessageType::GET_TO_BAN)) == Some(MessageType::GET_TO_BAN),
{
    reveal_strlit("GET_TO_BAN");
    reveal_strlit("GET_LOCALE");
    assert(("GET_LOCALE"@)[4] != ("GET_TO_BAN"@)[4]);
    reveal_strlit("SET_LOCALE");
    assert(("SET_LOCALE"@)[0] != ("GET_TO_BAN"@)[0]);
    reveal_strlit("GET_USER_ID");
    assert(("GET_USER_ID"@).len() != ("GET_TO_BAN"@).len());
    reveal_strlit("SET_USER_ID");
    assert(("SET_USER_ID"@).len() != ("GET_TO_BAN"@).len());
    reveal_strlit("GET_LOGIN");
    assert(("GET_LOGIN"@).len() != ("GET_TO_BAN"@).len());
    reveal_strlit("TOKEN");
    assert(("TOKEN"@).len() != ("GET_TO_BAN"@).len());
    reveal_strlit("OFFER");
    assert(("OFFER"@).len() != ("GET_TO_BAN"@).len());
    reveal_strlit("ANSWER");
    assert(("ANSWER"@).len() != ("GET_TO_BAN"@).len());
    reveal_strlit("CANDIDATE");
    assert(("CANDIDATE"@).len() != ("GET_TO_BAN"@).len());
    reveal_strlit("GET_ROOM");
    assert(("GET_ROOM"@).len() != ("GET_TO_BAN"@).len());
    reveal_strlit("SET_ROOM");
    assert(("SET_ROOM"@).len() != ("GET_TO_BAN"@).len());
    reveal_strlit("GET_CHAT_UNIT");
    assert(("GET_CHAT_UNIT"@).len() != ("GET_TO_BAN"@).len());
    reveal_strlit("GET_SETTINGS_UNIT");
    assert(("GET_SETTINGS_UNIT"@).len() != ("GET_TO_BAN"@).len());
    reveal_strlit("SET_ERROR");
    assert(("SET_ERROR"@).len() != ("GET_TO_BAN"@).len());
    reveal_strlit("GET_ROOM_GUESTS");
    assert(("GET_ROOM_GUESTS"@).len() != ("GET_TO_BAN"@).len());
    reveal_strlit("SET_ROOM_GUESTS");
    assert(("SET_ROOM_GUESTS"@).len() != ("GET_TO_BAN"@).len());
    reveal_strlit("SET_CHANGE_UNIT");
    assert(("SET_CHANGE_UNIT"@).len() != ("GET_TO_BAN"@).len());
    reveal_strlit("GET_MUTE");
    assert(("GET_MUTE"@).len() != ("GET_TO_BAN"@).len());
    reveal_strlit("GET_NEED_RECONNECT");
    assert(("GET_NEED_RECONNECT"@).len() != ("GET_TO_BAN"@).len());
    reveal_strlit("SET_MUTE");
    assert(("SET_MUTE"@).len() != ("GET_TO_BAN"@).len());
    reveal_strlit("GET_CLOSE_PEER_CONNECTION");
    assert(("GET_CLOSE_PEER_CONNECTION"@).len() != ("GET_TO_BAN"@).len());
    reveal_strlit("SET_CLOSE_PEER_CONNECTION");
    assert(("SET_CLOSE_PEER_CONNECTION"@).len() != ("GET_TO_BAN"@).len());
    reveal_strlit("GET_ROOM_MESSAGE");
    assert(("GET_ROOM_MESSAGE"@).len() != ("GET_TO_BAN"@).len());
    reveal_strlit("SET_ROOM_MESSAGE");
    assert(("SET_ROOM_MESSAGE"@).len() != ("GET_TO_BAN"@).len());
    reveal_strlit("SET_CHAT_UNIT");
    assert(("SET_CHAT_UNIT"@).len() != ("GET_TO_BAN"@).len());
    reveal_strlit("SET_SETTINGS_UNIT");
    assert(("SET_SETTINGS_UNIT"@).len() != ("GET_TO_BAN"@).len());
    reveal_strlit("GET_CHAT_MESSAGES");
    assert(("GET_CHAT_MESSAGES"@).len() != ("GET_TO_BAN"@).len());
    reveal_strlit("SET_CHAT_MESSAGES");
    assert(("SET_CHAT_MESSAGES"@).len() != ("GET_TO_BAN"@).len());
    reveal_strlit("GET_EDIT_MESSAGE");
    assert(("GET_EDIT_MESSAGE"@).len() != ("GET_TO_BAN"@).len());
    reveal_strlit("SET_EDIT_MESSAGE");
    assert(("SET_EDIT_MESSAGE"@).len() != ("GET_TO_BAN"@).len());
    reveal_strlit("GET_CREATE_MESSAGE");
    assert(("GET_CREATE_MESSAGE"@).len() != ("GET_TO_BAN"@).len());
    reveal_strlit("SET_CREATE_MESSAGE");
    assert(("SET_CREATE_MESSAGE"@).len() != ("GET_TO_BAN"@).len());
    reveal_strlit("GET_CREATE_QUOTE");
    assert(("GET_CREATE_QUOTE"@).len() != ("GET_TO_BAN"@).len());
    reveal_strlit("SET_CREATE_QUOTE");
    assert(("SET_CREATE_QUOTE"@).len() != ("GET_TO_BAN"@).len());
    reveal_strlit("GET_DELETE_MESSAGE");
    assert(("GET_DELETE_MESSAGE"@).len() != ("GET_TO_BAN"@).len());
    reveal_strlit("SET_DELETE_MESSAGE");
    assert(("SET_DELETE_MESSAGE"@).len() != ("GET_TO_BAN"@).len());
    reveal_strlit("GET_TO_MUTE");
    assert(("GET_TO_MUTE"@).len() != ("GET_TO_BAN"@).len());
}

proof fn token_names_get_to_unmute()
    ensures
        from_wire_token(wire_token(MessageType::GET_TO_UNMUTE)) == Some(MessageType::GET_TO_UNMUTE),
{
    reveal_strlit("GET_TO_UNMUTE");
    reveal_strlit("GET_LOCALE");
    assert(("GET_LOCALE"@).len() != ("GET_TO_UNMUTE"@).len());
    reveal_strlit("SET_LOCALE");
    assert(("SET_LOCALE"@).len() != ("GET_TO_UNMUTE"@).len());
    reveal_strlit("GET_USER_ID");
    assert(("GET_USER_ID"@).len() != ("GET_TO_UNMUTE"@).len());
    reveal_strlit("SET_USER_ID");
    assert(("SET_USER_ID"@).len() != ("GET_TO_UNMUTE"@).len());
    reveal_strlit("GET_LOGIN");
    assert(("GET_LOGIN"@).len() != ("GET_TO_UNMUTE"@).len());
    reveal_strlit("TOKEN");
    assert(("TOKEN"@).len() != ("GET_TO_UNMUTE"@).len());
    reveal_strlit("OFFER");
    assert(("OFFER"@).len() != ("GET_TO_UNMUTE"@).len());
    reveal_strlit("ANSWER");
    assert(("ANSWER"@).len() != ("GET_TO_UNMUTE"@).len());
    reveal_strlit("CANDIDATE");
    assert(("CANDIDATE"@).len() != ("GET_TO_UNMUTE"@).len());
    reveal_strlit("GET_ROOM");
    assert(("GET_ROOM"@).len() != ("GET_TO_UNMUTE"@).len());
    reveal_strlit("SET_ROOM");
    assert(("SET_ROOM"@).len() != ("GET_TO_UNMUTE"@).len());
    reveal_strlit("GET_CHAT_UNIT");
    assert(("GET_CHAT_UNIT"@)[4] != ("GET_TO_UNMUTE"@)[4]);
    reveal_strlit("GET_SETTINGS_UNIT");
    assert(("GET_SETTINGS_UNIT"@).len() != ("GET_TO_UNMUTE"@).len());
    reveal_strlit("SET_ERROR");
    assert(("SET_ERROR"@).len() != ("GET_TO_UNMUTE"@).len());
    reveal_strlit("GET_ROOM_GUESTS");
    assert(("GET_ROOM_GUESTS"@).len() != ("GET_TO_UNMUTE"@).len());
    reveal_strlit("SET_ROOM_GUESTS");
    assert(("SET_ROOM_GUESTS"@).len() != ("GET_TO_UNMUTE"@).len());
    reveal_strlit("SET_CHANGE_UNIT");
    assert(("SET_CHANGE_UNIT"@).len() != ("GET_TO_UNMUTE"@).len());
    reveal_strlit("GET_MUTE");
    assert(("GET_MUTE"@).len() != ("GET_TO_UNMUTE"@).len());
    reveal_strlit("GET_NEED_RECONNECT");
    assert(("GET_NEED_RECONNECT"@).len() != ("GET_TO_UNMUTE"@).len());
    reveal_strlit("SET_MUTE");
    assert(("SET_MUTE"@).len() != ("GET_TO_UNMUTE"@).len());
    reveal_strlit("GET_CLOSE_PEER_CONNECTION");
    assert(("GET_CLOSE_PEER_CONNECTION"@).len() != ("GET_TO_UNMUTE"@).len());
    reveal_strlit("SET_CLOSE_PEER_CONNECTION");
    assert(("SET_CLOSE_PEER_CONNECTION"@).len() != ("GET_TO_UNMUTE"@).len());
    reveal_strlit("GET_ROOM_MESSAGE");
    assert(("GET_ROOM_MESSAGE"@).len() != ("GET_TO_UNMUTE"@).len());
    reveal_strlit("SET_ROOM_MESSAGE");
    assert(("SET_ROOM_MESSAGE"@).len() != ("GET_TO_UNMUTE"@).len());
    reveal_strlit("SET_CHAT_UNIT");
    assert(("SET_CHAT_UNIT"@)[0] != ("GET_TO_UNMUTE"@)[0]);
    reveal_strlit("SET_SETTINGS_UNIT");
    assert(("SET_SETTINGS_UNIT"@).len() != ("GET_TO_UNMUTE"@).len());
    reveal_strlit("GET_CHAT_MESSAGES");
    assert(("GET_CHAT_MESSAGES"@).len() != ("GET_TO_UNMUTE"@).len());
    reveal_strlit("SET_CHAT_MESSAGES");
    assert(("SET_CHAT_MESSAGES"@).len() != ("GET_TO_UNMUTE"@).len());
    reveal_strlit("GET_EDIT_MESSAGE");
    assert(("GET_EDIT_MESSAGE"@).len() != ("GET_TO_UNMUTE"@).len());
    reveal_strlit("SET_EDIT_MESSAGE");
    assert(("SET_EDIT_MESSAGE"@).len() != ("GET_TO_UNMUTE"@).len());
    reveal_strlit("GET_CREATE_MESSAGE");
    assert(("GET_CREATE_MESSAGE"@).len() != ("GET_TO_UNMUTE"@).len());
    reveal_strlit("SET_CREATE_MESSAGE");
    assert(("SET_CREATE_MESSAGE"@).len() != ("GET_TO_UNMUTE"@).len());
    reveal_strlit("GET_CREATE_QUOTE");
    assert(("GET_CREATE_QUOTE"@).len() != ("GET_TO_UNMUTE"@).len());
    reveal_strlit("SET_CREATE_QUOTE");
    assert(("SET_CREATE_QUOTE"@).len() != ("GET_TO_UNMUTE"@).len());
    reveal_strlit("GET_DELETE_MESSAGE");
    assert(("GET_DELETE_MESSAGE"@).len() != ("GET_TO_UNMUTE"@).len());
    reveal_strlit("SET_DELETE_MESSAGE");
    assert(("SET_DELETE_MESSAGE"@).len() != ("GET_TO_UNMUTE"@).len());
    reveal_strlit("GET_TO_MUTE");
    assert(("GET_TO_MUTE"@).len() != ("GET_TO_UNMUTE"@).len());
    reveal_strlit("GET_TO_BAN");
    assert(("GET_TO_BAN"@).len() != ("GET_TO_UNMUTE"@).len());
}

proof fn token_names_get_to_unban()
    ensures
        from_wire_token(wire_token(MessageType::GET_TO_UNBAN)) == Some(MessageType::GET_TO_UNBAN),
{
    reveal_strlit("GET_TO_UNBAN");
    reveal_strlit("GET_LOCALE");
    assert(("GET_LOCALE"@).len() != ("GET_TO_UNBAN"@).len());
    reveal_strlit("SET_LOCALE");
    assert(("SET_LOCALE"@).len() != ("GET_TO_UNBAN"@).len());
    reveal_strlit("GET_USER_ID");
    assert(("GET_USER_ID"@).len() != ("GET_TO_UNBAN"@).len());
    reveal_strlit("SET_USER_ID");
    assert(("SET_USER_ID"@).len() != ("GET_TO_UNBAN"@).len());
    reveal_strlit("GET_LOGIN");
    assert(("GET_LOGIN"@).len() != ("GET_TO_UNBAN"@).len());
    reveal_strlit("TOKEN");
    assert(("TOKEN"@).len() != ("GET_TO_UNBAN"@).len());
    reveal_strlit("OFFER");
    assert(("OFFER"@).len() != ("GET_TO_UNBAN"@).len());
    reveal_strlit("ANSWER");
    assert(("ANSWER"@).len() != ("GET_TO_UNBAN"@).len());
    reveal_strlit("CANDIDATE");
    assert(("CANDIDATE"@).len() != ("GET_TO_UNBAN"@).len());
    reveal_strlit("GET_ROOM");
    assert(("GET_ROOM"@).len() != ("GET_TO_UNBAN"@).len());
    reveal_strlit("SET_ROOM");
    assert(("SET_ROOM"@).len() != ("GET_TO_UNBAN"@).len());
    reveal_strlit("GET_CHAT_UNIT");
    assert(("GET_CHAT_UNIT"@).len() != ("GET_TO_UNBAN"@).len());
    reveal_strlit("GET_SETTINGS_UNIT");
    assert(("GET_SETTINGS_UNIT"@).len() != ("GET_TO_UNBAN"@).len());
    reveal_strlit("SET_ERROR");
    assert(("SET_ERROR"@).len() != ("GET_TO_UNBAN"@).len());
    reveal_strlit("GET_ROOM_GUESTS");
    assert(("GET_ROOM_GUESTS"@).len() != ("GET_TO_UNBAN"@).len());
    reveal_strlit("SET_ROOM_GUESTS");
    assert(("SET_ROOM_GUESTS"@).len() != ("GET_TO_UNBAN"@).len());
    reveal_strlit("SET_CHANGE_UNIT");
    assert(("SET_CHANGE_UNIT"@).len() != ("GET_TO_UNBAN"@).len());
    reveal_strlit("GET_MUTE");
    assert(("GET_MUTE"@).len() != ("GET_TO_UNBAN"@).len());
    reveal_strlit("GET_NEED_RECONNECT");
    assert(("GET_NEED_RECONNECT"@).len() != ("GET_TO_UNBAN"@).len());
    reveal_strlit("SET_MUTE");
    assert(("SET_MUTE"@).len() != ("GET_TO_UNBAN"@).len());
    reveal_strlit("GET_CLOSE_PEER_CONNECTION");
    assert(("GET_CLOSE_PEER_CONNECTION"@).len() != ("GET_TO_UNBAN"@).len());
    reveal_strlit("SET_CLOSE_PEER_CONNECTION");
    assert(("SET_CLOSE_PEER_CONNECTION"@).len() != ("GET_TO_UNBAN"@).len());
    reveal_strlit("GET_ROOM_MESSAGE");
    assert(("GET_ROOM_MESSAGE"@).len() != ("GET_TO_UNBAN"@).len());
    reveal_strlit("SET_ROOM_MESSAGE");
    assert(("SET_ROOM_MESSAGE"@).len() != ("GET_TO_UNBAN"@).len());
    reveal_strlit("SET_CHAT_UNIT");
    assert(("SET_CHAT_UNIT"@).len() != ("GET_TO_UNBAN"@).len());
    reveal_strlit("SET_SETTINGS_UNIT");
    assert(("SET_SETTINGS_UNIT"@).len() != ("GET_TO_UNBAN"@).len());
    reveal_strlit("GET_CHAT_MESSAGES");
    assert(("GET_CHAT_MESSAGES"@).len() != ("GET_TO_UNBAN"@).len());
    reveal_strlit("SET_CHAT_MESSAGES");
    assert(("SET_CHAT_MESSAGES"@).len() != ("GET_TO_UNBAN"@).len());
    reveal_strlit("GET_EDIT_MESSAGE");
    assert(("GET_EDIT_MESSAGE"@).len() != ("GET_TO_UNBAN"@).len());
    reveal_strlit("SET_EDIT_MESSAGE");
    assert(("SET_EDIT_MESSAGE"@).len() != ("GET_TO_UNBAN"@).len());
    reveal_strlit("GET_CREATE_MESSAGE");
    assert(("GET_CREATE_MESSAGE"@).len() != ("GET_TO_UNBAN"@).len());
    reveal_strlit("SET_CREATE_MESSAGE");
    assert(("SET_CREATE_MESSAGE"@).len() != ("GET_TO_UNBAN"@).len());
    reveal_strlit("GET_CREATE_QUOTE");
    assert(("GET_CREATE_QUOTE"@).len() != ("GET_TO_UNBAN"@).len());
    reveal_strlit("SET_CREATE_QUOTE");
    assert(("SET_CREATE_QUOTE"@).len() != ("GET_TO_UNBAN"@).len());
    reveal_strlit("GET_DELETE_MESSAGE");
    assert(("GET_DELETE_MESSAGE"@).len() != ("GET_TO_UNBAN"@).len());
    reveal_strlit("SET_DELETE_MESSAGE");
    assert(("SET_DELETE_MESSAGE"@).len() != ("GET_TO_UNBAN"@).len());
    reveal_strlit("GET_TO_MUTE");
    assert(("GET_TO_MUTE"@).len() != ("GET_TO_UNBAN"@).len());
    reveal_strlit("GET_TO_BAN");
    assert(("GET_TO_BAN"@).len() != ("GET_TO_UNBAN"@).len());
    reveal_strlit("GET_TO_UNMUTE");
    assert(("GET_TO_UNMUTE"@).len() != ("GET_TO_UNBAN"@).len());
}

proof fn token_names_set_ban_list()
    ensures
        from_wire_token(wire_token(MessageType::SET_BAN_LIST)) == Some(MessageType::SET_BAN_LIST),
{
    reveal_strlit("SET_BAN_LIST");
    reveal_strlit("GET_LOCALE");
    assert(("GET_LOCALE"@).len() != ("SET_BAN_LIST"@).len());
    reveal_strlit("SET_LOCALE");
    assert(("SET_LOCALE"@).len() != ("SET_BAN_LIST"@).len());
    reveal_strlit("GET_USER_ID");
    assert(("GET_USER_ID"@).len() != ("SET_BAN_LIST"@).len());
    reveal_strlit("SET_USER_ID");
    assert(("SET_USER_ID"@).len() != ("SET_BAN_LIST"@).len());
    reveal_strlit("GET_LOGIN");
    assert(("GET_LOGIN"@).len() != ("SET_BAN_LIST"@).len());
    reveal_strlit("TOKEN");
    assert(("TOKEN"@).len() != ("SET_BAN_LIST"@).len());
    reveal_strlit("OFFER");
    assert(("OFFER"@).len() != ("SET_BAN_LIST"@).len());
    reveal_strlit("ANSWER");
    assert(("ANSWER"@).len() != ("SET_BAN_LIST"@).len());
    reveal_strlit("CANDIDATE");
    assert(("CANDIDATE"@).len() != ("SET_BAN_LIST"@).len());
    reveal_strlit("GET_ROOM");
    assert(("GET_ROOM"@).len() != ("SET_BAN_LIST"@).len());
    reveal_strlit("SET_ROOM");
    assert(("SET_ROOM"@).len() != ("SET_BAN_LIST"@).len());
    reveal_strlit("GET_CHAT_UNIT");
    assert(("GET_CHAT_UNIT"@).len() != ("SET_BAN_LIST"@).len());
    reveal_strlit("GET_SETTINGS_UNIT");
    assert(("GET_SETTINGS_UNIT"@).len() != ("SET_BAN_LIST"@).len());
    reveal_strlit("SET_ERROR");
    assert(("SET_ERROR"@).len() != ("SET_BAN_LIST"@).len());
    reveal_strlit("GET_ROOM_GUESTS");
    assert(("GET_ROOM_GUESTS"@).len() != ("SET_BAN_LIST"@).len());
    reveal_strlit("SET_ROOM_GUESTS");
    assert(("SET_ROOM_GUESTS"@).len() != ("SET_BAN_LIST"@).len());
    reveal_strlit("SET_CHANGE_UNIT");
    assert(("SET_CHANGE_UNIT"@).len() != ("SET_BAN_LIST"@).len());
    reveal_strlit("GET_MUTE");
    assert(("GET_MUTE"@).len() != ("SET_BAN_LIST"@).len());
    reveal_strlit("GET_NEED_RECONNECT");
    assert(("GET_NEED_RECONNECT"@).len() != ("SET_BAN_LIST"@).len());
    reveal_strlit("SET_MUTE");
    assert(("SET_MUTE"@).len() != ("SET_BAN_LIST"@).len());
    reveal_strlit("GET_CLOSE_PEER_CONNECTION");
    assert(("GET_CLOSE_PEER_CONNECTION"@).len() != ("SET_BAN_LIST"@).len());
    reveal_strlit("SET_CLOSE_PEER_CONNECTION");
    assert(("SET_CLOSE_PEER_CONNECTION"@).len() != ("SET_BAN_LIST"@).len());
    reveal_strlit("GET_ROOM_MESSAGE");
    assert(("GET_ROOM_MESSAGE"@).len() != ("SET_BAN_LIST"@).len());
    reveal_strlit("SET_ROOM_MESSAGE");
    assert(("SET_ROOM_MESSAGE"@).len() != ("SET_BAN_LIST"@).len());
    reveal_strlit("SET_CHAT_UNIT");
    assert(("SET_CHAT_UNIT"@).len() != ("SET_BAN_LIST"@).len());
    reveal_strlit("SET_SETTINGS_UNIT");
    assert(("SET_SETTINGS_UNIT"@).len() != ("SET_BAN_LIST"@).len());
    reveal_strlit("GET_CHAT_MESSAGES");
    assert(("GET_CHAT_MESSAGES"@).len() != ("SET_BAN_LIST"@).len());
    reveal_strlit("SET_CHAT_MESSAGES");
    assert(("SET_CHAT_MESSAGES"@).len() != ("SET_BAN_LIST"@).len());
    reveal_strlit("GET_EDIT_MESSAGE");
    assert(("GET_EDIT_MESSAGE"@).len() != ("SET_BAN_LIST"@).len());
    reveal_strlit("SET_EDIT_MESSAGE");
    assert(("SET_EDIT_MESSAGE"@).len() != ("SET_BAN_LIST"@).len());
    reveal_strlit("GET_CREATE_MESSAGE");
    assert(("GET_CREATE_MESSAGE"@).len() != ("SET_BAN_LIST"@).len());
    reveal_strlit("SET_CREATE_MESSAGE");
    assert(("SET_CREATE_MESSAGE"@).len() != ("SET_BAN_LIST"@).len());
    reveal_strlit("GET_CREATE_QUOTE");
    assert(("GET_CREATE_QUOTE"@).len() != ("SET_BAN_LIST"@).len());
    reveal_strlit("SET_CREATE_QUOTE");
    assert(("SET_CREATE_QUOTE"@).len() != ("SET_BAN_LIST"@).len());
    reveal_strlit("GET_DELETE_MESSAGE");
    assert(("GET_DELETE_MESSAGE"@).len() != ("SET_BAN_LIST"@).len());
    reveal_strlit("SET_DELETE_MESSAGE");
    assert(("SET_DELETE_MESSAGE"@).len() != ("SET_BAN_LIST"@).len());
    reveal_strlit("GET_TO_MUTE");
    assert(("GET_TO_MUTE"@).len() != ("SET_BAN_LIST"@).len());
    reveal_strlit("GET_TO_BAN");
    assert(("GET_TO_BAN"@).len() != ("SET_BAN_LIST"@).len());
    reveal_strlit("GET_TO_UNMUTE");
    assert(("GET_TO_UNMUTE"@).len() != ("SET_BAN_LIST"@).len());
    reveal_strlit("GET_TO_UNBAN");
    assert(("GET_TO_UNBAN"@)[0] != ("SET_BAN_LIST"@)[0]);
}

proof fn token_names_set_mute_list()
    ensures
        from_wire_token(wire_token(MessageType::SET_MUTE_LIST)) == Some(MessageType::SET_MUTE_LIST),
{
    reveal_strlit("SET_MUTE_LIST");
    reveal_strlit("GET_LOCALE");
    assert(("GET_LOCALE"@).len() != ("SET_MUTE_LIST"@).len());
    reveal_strlit("SET_LOCALE");
    assert(("SET_LOCALE"@).len() != ("SET_MUTE_LIST"@).len());
    reveal_strlit("GET_USER_ID");
    assert(("GET_USER_ID"@).len() != ("SET_MUTE_LIST"@).len());
    reveal_strlit("SET_USER_ID");
    assert(("SET_USER_ID"@).len() != ("SET_MUTE_LIST"@).len());
    reveal_strlit("GET_LOGIN");
    assert(("GET_LOGIN"@).len() != ("SET_MUTE_LIST"@).len());
    reveal_strlit("TOKEN");
    assert(("TOKEN"@).len() != ("SET_MUTE_LIST"@).len());
    reveal_strlit("OFFER");
    assert(("OFFER"@).len() != ("SET_MUTE_LIST"@).len());
    reveal_strlit("ANSWER");
    assert(("ANSWER"@).len() != ("SET_MUTE_LIST"@).len());
    reveal_strlit("CANDIDATE");
    assert(("CANDIDATE"@).len() != ("SET_MUTE_LIST"@).len());
    reveal_strlit("GET_ROOM");
    assert(("GET_ROOM"@).len() != ("SET_MUTE_LIST"@).len());
    reveal_strlit("SET_ROOM");
    assert(("SET_ROOM"@).len() != ("SET_MUTE_LIST"@).len());
    reveal_strlit("GET_CHAT_UNIT");
    assert(("GET_CHAT_UNIT"@)[0] != ("SET_MUTE_LIST"@)[0]);
    reveal_strlit("GET_SETTINGS_UNIT");
    assert(("GET_SETTINGS_UNIT"@).len() != ("SET_MUTE_LIST"@).len());
    reveal_strlit("SET_ERROR");
    assert(("SET_ERROR"@).len() != ("SET_MUTE_LIST"@).len());
    reveal_strlit("GET_ROOM_GUESTS");
    assert(("GET_ROOM_GUESTS"@).len() != ("SET_MUTE_LIST"@).len());
    reveal_strlit("SET_ROOM_GUESTS");
    assert(("SET_ROOM_GUESTS"@).len() != ("SET_MUTE_LIST"@).len());
    reveal_strlit("SET_CHANGE_UNIT");
    assert(("SET_CHANGE_UNIT"@).len() != ("SET_MUTE_LIST"@).len());
    reveal_strlit("GET_MUTE");
    assert(("GET_MUTE"@).len() != ("SET_MUTE_LIST"@).len());
    reveal_strlit("GET_NEED_RECONNECT");
    assert(("GET_NEED_RECONNECT"@).len() != ("SET_MUTE_LIST"@).len());
    reveal_strlit("SET_MUTE");
    assert(("SET_MUTE"@).len() != ("SET_MUTE_LIST"@).len());
    reveal_strlit("GET_CLOSE_PEER_CONNECTION");
    assert(("GET_CLOSE_PEER_CONNECTION"@).len() != ("SET_MUTE_LIST"@).len());
    reveal_strlit("SET_CLOSE_PEER_CONNECTION");
    assert(("SET_CLOSE_PEER_CONNECTION"@).len() != ("SET_MUTE_LIST"@).len());
    reveal_strlit("GET_ROOM_MESSAGE");
    assert(("GET_ROOM_MESSAGE"@).len() != ("SET_MUTE_LIST"@).len());
    reveal_strlit("SET_ROOM_MESSAGE");
    assert(("SET_ROOM_MESSAGE"@).len() != ("SET_MUTE_LIST"@).len());
    reveal_strlit("SET_CHAT_UNIT");
    assert(("SET_CHAT_UNIT"@)[4] != ("SET_MUTE_LIST"@)[4]);
    reveal_strlit("SET_SETTINGS_UNIT");
    assert(("SET_SETTINGS_UNIT"@).len() != ("SET_MUTE_LIST"@).len());
    reveal_strlit("GET_CHAT_MESSAGES");
    assert(("GET_CHAT_MESSAGES"@).len() != ("SET_MUTE_LIST"@).len());
    reveal_strlit("SET_CHAT_MESSAGES");
    assert(("SET_CHAT_MESSAGES"@).len() != ("SET_MUTE_LIST"@).len());
    reveal_strlit("GET_EDIT_MESSAGE");
    assert(("GET_EDIT_MESSAGE"@).len() != ("SET_MUTE_LIST"@).len());
    reveal_strlit("SET_EDIT_MESSAGE");
    assert(("SET_EDIT_MESSAGE"@).len() != ("SET_MUTE_LIST"@).len());
    reveal_strlit("GET_CREATE_MESSAGE");
    assert(("GET_CREATE_MESSAGE"@).len() != ("SET_MUTE_LIST"@).len());
    reveal_strlit("SET_CREATE_MESSAGE");
    assert(("SET_CREATE_MESSAGE"@).len() != ("SET_MUTE_LIST"@).len());
    reveal_strlit("GET_CREATE_QUOTE");
    assert(("GET_CREATE_QUOTE"@).len() != ("SET_MUTE_LIST"@).len());
    reveal_strlit("SET_CREATE_QUOTE");
    assert(("SET_CREATE_QUOTE"@).len() != ("SET_MUTE_LIST"@).len());
    reveal_strlit("GET_DELETE_MESSAGE");
    assert(("GET_DELETE_MESSAGE"@).len() != ("SET_MUTE_LIST"@).len());
    reveal_strlit("SET_DELETE_MESSAGE");
    assert(("SET_DELETE_MESSAGE"@).len() != ("SET_MUTE_LIST"@).len());
    reveal_strlit("GET_TO_MUTE");
    assert(("GET_TO_MUTE"@).len() != ("SET_MUTE_LIST"@).len());
    reveal_strlit("GET_TO_BAN");
    assert(("GET_TO_BAN"@).len() != ("SET_MUTE_LIST"@).len());
    reveal_strlit("GET_TO_UNMUTE");
    assert(("GET_TO_UNMUTE"@)[0] != ("SET_MUTE_LIST"@)[0]);
    reveal_strlit("GET_TO_UNBAN");
    assert(("GET_TO_UNBAN"@).len() != ("SET_MUTE_LIST"@).len());
    reveal_strlit("SET_BAN_LIST");
    assert(("SET_BAN_LIST"@).len() != ("SET_MUTE_LIST"@).len());
}

proof fn token_names_get_record()
    ensures
        from_wire_token(wire_token(MessageType::GET_RECORD)) == Some(MessageType::GET_RECORD),
{
    reveal_strlit("GET_RECORD");
    reveal_strlit("GET_LOCALE");
    assert(("GET_LOCALE"@)[4] != ("GET_RECORD"@)[4]);
    reveal_strlit("SET_LOCALE");
    assert(("SET_LOCALE"@)[0] != ("GET_RECORD"@)[0]);
    reveal_strlit("GET_USER_ID");
    assert(("GET_USER_ID"@).len() != ("GET_RECORD"@).len());
    reveal_strlit("SET_USER_ID");
    assert(("SET_USER_ID"@).len() != ("GET_RECORD"@).len());
    reveal_strlit("GET_LOGIN");
    assert(("GET_LOGIN"@).len() != ("GET_RECORD"@).len());
    reveal_strlit("TOKEN");
    assert(("TOKEN"@).len() != ("GET_RECORD"@).len());
    reveal_strlit("OFFER");
    assert(("OFFER"@).len() != ("GET_RECORD"@).len());
    reveal_strlit("ANSWER");
    assert(("ANSWER"@).len() != ("GET_RECORD"@).len());
    reveal_strlit("CANDIDATE");
    assert(("CANDIDATE"@).len() != ("GET_RECORD"@).len());
    reveal_strlit("GET_ROOM");
    assert(("GET_ROOM"@).len() != ("GET_RECORD"@).len());
    reveal_strlit("SET_ROOM");
    assert(("SET_ROOM"@).len() != ("GET_RECORD"@).len());
    reveal_strlit("GET_CHAT_UNIT");
    assert(("GET_CHAT_UNIT"@).len() != ("GET_RECORD"@).len());
    reveal_strlit("GET_SETTINGS_UNIT");
    assert(("GET_SETTINGS_UNIT"@).len() != ("GET_RECORD"@).len());
    reveal_strlit("SET_ERROR");
    assert(("SET_ERROR"@).len() != ("GET_RECORD"@).len());
    reveal_strlit("GET_ROOM_GUESTS");
    assert(("GET_ROOM_GUESTS"@).len() != ("GET_RECORD"@).len());
    reveal_strlit("SET_ROOM_GUESTS");
    assert(("SET_ROOM_GUESTS"@).len() != ("GET_RECORD"@).len());
    reveal_strlit("SET_CHANGE_UNIT");
    assert(("SET_CHANGE_UNIT"@).len() != ("GET_RECORD"@).len());
    reveal_strlit("GET_MUTE");
    assert(("GET_MUTE"@).len() != ("GET_RECORD"@).len());
    reveal_strlit("GET_NEED_RECONNECT");
    assert(("GET_NEED_RECONNECT"@).len() != ("GET_RECORD"@).len());
    reveal_strlit("SET_MUTE");
    assert(("SET_MUTE"@).len() != ("GET_RECORD"@).len());
    reveal_strlit("GET_CLOSE_PEER_CONNECTION");
    assert(("GET_CLOSE_PEER_CONNECTION"@).len() != ("GET_RECORD"@).len());
    reveal_strlit("SET_CLOSE_PEER_CONNECTION");
    assert(("SET_CLOSE_PEER_CONNECTION"@).len() != ("GET_RECORD"@).len());
    reveal_strlit("GET_ROOM_MESSAGE");
    assert(("GET_ROOM_MESSAGE"@).len() != ("GET_RECORD"@).len());
    reveal_strlit("SET_ROOM_MESSAGE");
    assert(("SET_ROOM_MESSAGE"@).len() != ("GET_RECORD"@).len());
    reveal_strlit("SET_CHAT_UNIT");
    assert(("SET_CHAT_UNIT"@).len() != ("GET_RECORD"@).len());
    reveal_strlit("SET_SETTINGS_UNIT");
    assert(("SET_SETTINGS_UNIT"@).len() != ("GET_RECORD"@).len());
    reveal_strlit("GET_CHAT_MESSAGES");
    assert(("GET_CHAT_MESSAGES"@).len() != ("GET_RECORD"@).len());
    reveal_strlit("SET_CHAT_MESSAGES");
    assert(("SET_CHAT_MESSAGES"@).len() != ("GET_RECORD"@).len());
    reveal_strlit("GET_EDIT_MESSAGE");
    assert(("GET_EDIT_MESSAGE"@).len() != ("GET_RECORD"@).len());
    reveal_strlit("SET_EDIT_MESSAGE");
    assert(("SET_EDIT_MESSAGE"@).len() != ("GET_RECORD"@).len());
    reveal_strlit("GET_CREATE_MESSAGE");
    assert(("GET_CREATE_MESSAGE"@).len() != ("GET_RECORD"@).len());
    reveal_strlit("SET_CREATE_MESSAGE");
    assert(("SET_CREATE_MESSAGE"@).len() != ("GET_RECORD"@).len());
    reveal_strlit("GET_CREATE_QUOTE");
    assert(("GET_CREATE_QUOTE"@).len() != ("GET_RECORD"@).len());
    reveal_strlit("SET_CREATE_QUOTE");
    assert(("SET_CREATE_QUOTE"@).len() != ("GET_RECORD"@).len());
    reveal_strlit("GET_DELETE_MESSAGE");
    assert(("GET_DELETE_MESSAGE"@).len() != ("GET_RECORD"@).len());
    reveal_strlit("SET_DELETE_MESSAGE");
    assert(("SET_DELETE_MESSAGE"@).len() != ("GET_RECORD"@).len());
    reveal_strlit("GET_TO_MUTE");
    assert(("GET_TO_MUTE"@).len() != ("GET_RECORD"@).len());
    reveal_strlit("GET_TO_BAN");
    assert(("GET_TO_BAN"@)[4] != ("GET_RECORD"@)[4]);
    reveal_strlit("GET_TO_UNMUTE");
    assert(("GET_TO_UNMUTE"@).len() != ("GET_RECORD"@).len());
    reveal_strlit("GET_TO_UNBAN");
    assert(("GET_TO_UNBAN"@).len() != ("GET_RECORD"@).len());
    reveal_strlit("SET_BAN_LIST");
    assert(("SET_BAN_LIST"@).len() != ("GET_RECORD"@).len());
    reveal_strlit("SET_MUTE_LIST");
    assert(("SET_MUTE_LIST"@).len() != ("GET_RECORD"@).len());
}

proof fn token_names_set_recording()
    ensures
        from_wire_token(wire_token(MessageType::SET_RECORDING)) == Some(MessageType::SET_RECORDING),
{
    reveal_strlit("SET_RECORDING");
    reveal_strlit("GET_LOCALE");
    assert(("GET_LOCALE"@).len() != ("SET_RECORDING"@).len());
    reveal_strlit("SET_LOCALE");
    assert(("SET_LOCALE"@).len() != ("SET_RECORDING"@).len());
    reveal_strlit("GET_USER_ID");
    assert(("GET_USER_ID"@).len() != ("SET_RECORDING"@).len());
    reveal_strlit("SET_USER_ID");
    assert(("SET_USER_ID"@).len() != ("SET_RECORDING"@).len());
    reveal_strlit("GET_LOGIN");
    assert(("GET_LOGIN"@).len() != ("SET_RECORDING"@).len());
    reveal_strlit("TOKEN");
    assert(("TOKEN"@).len() != ("SET_RECORDING"@).len());
    reveal_strlit("OFFER");
    assert(("OFFER"@).len() != ("SET_RECORDING"@).len());
    reveal_strlit("ANSWER");
    assert(("ANSWER"@).len() != ("SET_RECORDING"@).len());
    reveal_strlit("CANDIDATE");
    assert(("CANDIDATE"@).len() != ("SET_RECORDING"@).len());
    reveal_strlit("GET_ROOM");
    assert(("GET_ROOM"@).len() != ("SET_RECORDING"@).len());
    reveal_strlit("SET_ROOM");
    assert(("SET_ROOM"@).len() != ("SET_RECORDING"@).len());
    reveal_strlit("GET_CHAT_UNIT");
    assert(("GET_CHAT_UNIT"@)[0] != ("SET_RECORDING"@)[0]);
    reveal_strlit("GET_SETTINGS_UNIT");
    assert(("GET_SETTINGS_UNIT"@).len() != ("SET_RECORDING"@).len());
    reveal_strlit("SET_ERROR");
    assert(("SET_ERROR"@).len() != ("SET_RECORDING"@).len());
    reveal_strlit("GET_ROOM_GUESTS");
    assert(("GET_ROOM_GUESTS"@).len() != ("SET_RECORDING"@).len());
    reveal_strlit("SET_ROOM_GUESTS");
    assert(("SET_ROOM_GUESTS"@).len() != ("SET_RECORDING"@).len());
    reveal_strlit("SET_CHANGE_UNIT");
    assert(("SET_CHANGE_UNIT"@).len() != ("SET_RECORDING"@).len());
    reveal_strlit("GET_MUTE");
    assert(("GET_MUTE"@).len() != ("SET_RECORDING"@).len());
    reveal_strlit("GET_NEED_RECONNECT");
    assert(("GET_NEED_RECONNECT"@).len() != ("SET_RECORDING"@).len());
    reveal_strlit("SET_MUTE");
    assert(("SET_MUTE"@).len() != ("SET_RECORDING"@).len());
    reveal_strlit("GET_CLOSE_PEER_CONNECTION");
    assert(("GET_CLOSE_PEER_CONNECTION"@).len() != ("SET_RECORDING"@).len());
    reveal_strlit("SET_CLOSE_PEER_CONNECTION");
    assert(("SET_CLOSE_PEER_CONNECTION"@).len() != ("SET_RECORDING"@).len());
    reveal_strlit("GET_ROOM_MESSAGE");
    assert(("GET_ROOM_MESSAGE"@).len() != ("SET_RECORDING"@).len());
    reveal_strlit("SET_ROOM_MESSAGE");
    assert(("SET_ROOM_MESSAGE"@).len() != ("SET_RECORDING"@).len());
    reveal_strlit("SET_CHAT_UNIT");
    assert(("SET_CHAT_UNIT"@)[4] != ("SET_RECORDING"@)[4]);
    reveal_strlit("SET_SETTINGS_UNIT");
    assert(("SET_SETTINGS_UNIT"@).len() != ("SET_RECORDING"@).len());
    reveal_strlit("GET_CHAT_MESSAGES");
    assert(("GET_CHAT_MESSAGES"@).len() != ("SET_RECORDING"@).len());
    reveal_strlit("SET_CHAT_MESSAGES");
    assert(("SET_CHAT_MESSAGES"@).len() != ("SET_RECORDING"@).len());
    reveal_strlit("GET_EDIT_MESSAGE");
    assert(("GET_EDIT_MESSAGE"@).len() != ("SET_RECORDING"@).len());
    reveal_strlit("SET_EDIT_MESSAGE");
    assert(("SET_EDIT_MESSAGE"@).len() != ("SET_RECORDING"@).len());
    reveal_strlit("GET_CREATE_MESSAGE");
    assert(("GET_CREATE_MESSAGE"@).len() != ("SET_RECORDING"@).len());
    reveal_strlit("SET_CREATE_MESSAGE");
    assert(("SET_CREATE_MESSAGE"@).len() != ("SET_RECORDING"@).len());
    reveal_strlit("GET_CREATE_QUOTE");
    assert(("GET_CREATE_QUOTE"@).len() != ("SET_RECORDING"@).len());
    reveal_strlit("SET_CREATE_QUOTE");
    assert(("SET_CREATE_QUOTE"@).len() != ("SET_RECORDING"@).len());
    reveal_strlit("GET_DELETE_MESSAGE");
    assert(("GET_DELETE_MESSAGE"@).len() != ("SET_RECORDING"@).len());
    reveal_strlit("SET_DELETE_MESSAGE");
    assert(("SET_DELETE_MESSAGE"@).len() != ("SET_RECORDING"@).len());
    reveal_strlit("GET_TO_MUTE");
    assert(("GET_TO_MUTE"@).len() != ("SET_RECORDING"@).len());
    reveal_strlit("GET_TO_BAN");
    assert(("GET_TO_BAN"@).len() != ("SET_RECORDING"@).len());
    reveal_strlit("GET_TO_UNMUTE");
    assert(("GET_TO_UNMUTE"@)[0] != ("SET_RECORDING"@)[0]);
    reveal_strlit("GET_TO_UNBAN");
    assert(("GET_TO_UNBAN"@).len() != ("SET_RECORDING"@).len());
    reveal_strlit("SET_BAN_LIST");
    assert(("SET_BAN_LIST"@).len() != ("SET_RECORDING"@).len());
    reveal_strlit("SET_MUTE_LIST");
    assert(("SET_MUTE_LIST"@)[4] != ("SET_RECORDING"@)[4]);
    reveal_strlit("GET_RECORD");
    assert(("GET_RECORD"@).len() != ("SET_RECORDING"@).len());
}

proof fn token_names_get_video_find_many()
    ensures
        from_wire_token(wire_token(MessageType::GET_VIDEO_FIND_MANY)) == Some(MessageType::GET_VIDEO_FIND_MANY),
{
    reveal_strlit("GET_VIDEO_FIND_MANY");
    reveal_strlit("GET_LOCALE");
    assert(("GET_LOCALE"@).len() != ("GET_VIDEO_FIND_MANY"@).len());
    reveal_strlit("SET_LOCALE");
    assert(("SET_LOCALE"@).len() != ("GET_VIDEO_FIND_MANY"@).len());
    reveal_strlit("GET_USER_ID");
    assert(("GET_USER_ID"@).len() != ("GET_VIDEO_FIND_MANY"@).len());
    reveal_strlit("SET_USER_ID");
    assert(("SET_USER_ID"@).len() != ("GET_VIDEO_FIND_MANY"@).len());
    reveal_strlit("GET_LOGIN");
    assert(("GET_LOGIN"@).len() != ("GET_VIDEO_FIND_MANY"@).len());
    reveal_strlit("TOKEN");
    assert(("TOKEN"@).len() != ("GET_VIDEO_FIND_MANY"@).len());
    reveal_strlit("OFFER");
    assert(("OFFER"@).len() != ("GET_VIDEO_FIND_MANY"@).len());
    reveal_strlit("ANSWER");
    assert(("ANSWER"@).len() != ("GET_VIDEO_FIND_MANY"@).len());
    reveal_strlit("CANDIDATE");
    assert(("CANDIDATE"@).len() != ("GET_VIDEO_FIND_MANY"@).len());
    reveal_strlit("GET_ROOM");
    assert(("GET_ROOM"@).len() != ("GET_VIDEO_FIND_MANY"@).len());
    reveal_strlit("SET_ROOM");
    assert(("SET_ROOM"@).len() != ("GET_VIDEO_FIND_MANY"@).len());
    reveal_strlit("GET_CHAT_UNIT");
    assert(("GET_CHAT_UNIT"@).len() != ("GET_VIDEO_FIND_MANY"@).len());
    reveal_strlit("GET_SETTINGS_UNIT");
    assert(("GET_SETTINGS_UNIT"@).len() != ("GET_VIDEO_FIND_MANY"@).len());
    reveal_strlit("SET_ERROR");
    assert(("SET_ERROR"@).len() != ("GET_VIDEO_FIND_MANY"@).len());
    reveal_strlit("GET_ROOM_GUESTS");
    assert(("GET_ROOM_GUESTS"@).len() != ("GET_VIDEO_FIND_MANY"@).len());
    reveal_strlit("SET_ROOM_GUESTS");
    assert(("SET_ROOM_GUESTS"@).len() != ("GET_VIDEO_FIND_MANY"@).len());
    reveal_strlit("SET_CHANGE_UNIT");
    assert(("SET_CHANGE_UNIT"@).len() != ("GET_VIDEO_FIND_MANY"@).len());
    reveal_strlit("GET_MUTE");
    assert(("GET_MUTE"@).len() != ("GET_VIDEO_FIND_MANY"@).len());
    reveal_strlit("GET_NEED_RECONNECT");
    assert(("GET_NEED_RECONNECT"@).len() != ("GET_VIDEO_FIND_MANY"@).len());
    reveal_strlit("SET_MUTE");
    assert(("SET_MUTE"@).len() != ("GET_VIDEO_FIND_MANY"@).len());
    reveal_strlit("GET_CLOSE_PEER_CONNECTION");
    assert(("GET_CLOSE_PEER_CONNECTION"@).len() != ("GET_VIDEO_FIND_MANY"@).len());
    reveal_strlit("SET_CLOSE_PEER_CONNECTION");
    assert(("SET_CLOSE_PEER_CONNECTION"@).len() != ("GET_VIDEO_FIND_MANY"@).len());
    reveal_strlit("GET_ROOM_MESSAGE");
    assert(("GET_ROOM_MESSAGE"@).len() != ("GET_VIDEO_FIND_MANY"@).len());
    reveal_strlit("SET_ROOM_MESSAGE");
    assert(("SET_ROOM_MESSAGE"@).len() != ("GET_VIDEO_FIND_MANY"@).len());
    reveal_strlit("SET_CHAT_UNIT");
    assert(("SET_CHAT_UNIT"@).len() != ("GET_VIDEO_FIND_MANY"@).len());
    reveal_strlit("SET_SETTINGS_UNIT");
    assert(("SET_SETTINGS_UNIT"@).len() != ("GET_VIDEO_FIND_MANY"@).len());
    reveal_strlit("GET_CHAT_MESSAGES");
    assert(("GET_CHAT_MESSAGES"@).len() != ("GET_VIDEO_FIND_MANY"@).len());
    reveal_strlit("SET_CHAT_MESSAGES");
    assert(("SET_CHAT_MESSAGES"@).len() != ("GET_VIDEO_FIND_MANY"@).len());
    reveal_strlit("GET_EDIT_MESSAGE");
    assert(("GET_EDIT_MESSAGE"@).len() != ("GET_VIDEO_FIND_MANY"@).len());
    reveal_strlit("SET_EDIT_MESSAGE");
    assert(("SET_EDIT_MESSAGE"@).len() != ("GET_VIDEO_FIND_MANY"@).len());
    reveal_strlit("GET_CREATE_MESSAGE");
    assert(("GET_CREATE_MESSAGE"@).len() != ("GET_VIDEO_FIND_MANY"@).len());
    reveal_strlit("SET_CREATE_MESSAGE");
    assert(("SET_CREATE_MESSAGE"@).len() != ("GET_VIDEO_FIND_MANY"@).len());
    reveal_strlit("GET_CREATE_QUOTE");
    assert(("GET_CREATE_QUOTE"@).len() != ("GET_VIDEO_FIND_MANY"@).len());
    reveal_strlit("SET_CREATE_QUOTE");
    assert(("SET_CREATE_QUOTE"@).len() != ("GET_VIDEO_FIND_MANY"@).len());
    reveal_strlit("GET_DELETE_MESSAGE");
    assert(("GET_DELETE_MESSAGE"@).len() != ("GET_VIDEO_FIND_MANY"@).len());
    reveal_strlit("SET_DELETE_MESSAGE");
    assert(("SET_DELETE_MESSAGE"@).len() != ("GET_VIDEO_FIND_MANY"@).len());
    reveal_strlit("GET_TO_MUTE");
    assert(("GET_TO_MUTE"@).len() != ("GET_VIDEO_FIND_MANY"@).len());
    reveal_strlit("GET_TO_BAN");
    assert(("GET_TO_BAN"@).len() != ("GET_VIDEO_FIND_MANY"@).len());
    reveal_strlit("GET_TO_UNMUTE");
    assert(("GET_TO_UNMUTE"@).len() != ("GET_VIDEO_FIND_MANY"@).len());
    reveal_strlit("GET_TO_UNBAN");
    assert(("GET_TO_UNBAN"@).len() != ("GET_VIDEO_FIND_MANY"@).len());
    reveal_strlit("SET_BAN_LIST");
    assert(("SET_BAN_LIST"@).len() != ("GET_VIDEO_FIND_MANY"@).len());
    reveal_strlit("SET_MUTE_LIST");
    assert(("SET_MUTE_LIST"@).len() != ("GET_VIDEO_FIND_MANY"@).len());
    reveal_strlit("GET_RECORD");
    assert(("GET_RECORD"@).len() != ("GET_VIDEO_FIND_MANY"@).len());
    reveal_strlit("SET_RECORDING");
    assert(("SET_RECORDING"@).len() != ("GET_VIDEO_FIND_MANY"@).len());
}

proof fn token_names_set_video_find_many()
    ensures
        from_wire_token(wire_token(MessageType::SET_VIDEO_FIND_MANY)) == Some(MessageType::SET_VIDEO_FIND_MANY),
{
    reveal_strlit("SET_VIDEO_FIND_MANY");
    reveal_strlit("GET_LOCALE");
    assert(("GET_LOCALE"@).len() != ("SET_VIDEO_FIND_MANY"@).len());
    reveal_strlit("SET_LOCALE");
    assert(("SET_LOCALE"@).len() != ("SET_VIDEO_FIND_MANY"@).len());
    reveal_strlit("GET_USER_ID");
    assert(("GET_USER_ID"@).len() != ("SET_VIDEO_FIND_MANY"@).len());
    reveal_strlit("SET_USER_ID");
    assert(("SET_USER_ID"@).len() != ("SET_VIDEO_FIND_MANY"@).len());
    reveal_strlit("GET_LOGIN");
    assert(("GET_LOGIN"@).len() != ("SET_VIDEO_FIND_MANY"@).len());
    reveal_strlit("TOKEN");
    assert(("TOKEN"@).len() != ("SET_VIDEO_FIND_MANY"@).len());
    reveal_strlit("OFFER");
    assert(("OFFER"@).len() != ("SET_VIDEO_FIND_MANY"@).len());
    reveal_strlit("ANSWER");
    assert(("ANSWER"@).len() != ("SET_VIDEO_FIND_MANY"@).len());
    reveal_strlit("CANDIDATE");
    assert(("CANDIDATE"@).len() != ("SET_VIDEO_FIND_MANY"@).len());
    reveal_strlit("GET_ROOM");
    assert(("GET_ROOM"@).len() != ("SET_VIDEO_FIND_MANY"@).len());
    reveal_strlit("SET_ROOM");
    assert(("SET_ROOM"@).len() != ("SET_VIDEO_FIND_MANY"@).len());
    reveal_strlit("GET_CHAT_UNIT");
    assert(("GET_CHAT_UNIT"@).len() != ("SET_VIDEO_FIND_MANY"@).len());
    reveal_strlit("GET_SETTINGS_UNIT");
    assert(("GET_SETTINGS_UNIT"@).len() != ("SET_VIDEO_FIND_MANY"@).len());
    reveal_strlit("SET_ERROR");
    assert(("SET_ERROR"@).len() != ("SET_VIDEO_FIND_MANY"@).len());
    reveal_strlit("GET_ROOM_GUESTS");
    assert(("GET_ROOM_GUESTS"@).len() != ("SET_VIDEO_FIND_MANY"@).len());
    reveal_strlit("SET_ROOM_GUESTS");
    assert(("SET_ROOM_GUESTS"@).len() != ("SET_VIDEO_FIND_MANY"@).len());
    reveal_strlit("SET_CHANGE_UNIT");
    assert(("SET_CHANGE_UNIT"@).len() != ("SET_VIDEO_FIND_MANY"@).len());
    reveal_strlit("GET_MUTE");
    assert(("GET_MUTE"@).len() != ("SET_VIDEO_FIND_MANY"@).len());
    reveal_strlit("GET_NEED_RECONNECT");
    assert(("GET_NEED_RECONNECT"@).len() != ("SET_VIDEO_FIND_MANY"@).len());
    reveal_strlit("SET_MUTE");
    assert(("SET_MUTE"@).len() != ("SET_VIDEO_FIND_MANY"@).len());
    reveal_strlit("GET_CLOSE_PEER_CONNECTION");
    assert(("GET_CLOSE_PEER_CONNECTION"@).len() != ("SET_VIDEO_FIND_MANY"@).len());
    reveal_strlit("SET_CLOSE_PEER_CONNECTION");
    assert(("SET_CLOSE_PEER_CONNECTION"@).len() != ("SET_VIDEO_FIND_MANY"@).len());
    reveal_strlit("GET_ROOM_MESSAGE");
    assert(("GET_ROOM_MESSAGE"@).len() != ("SET_VIDEO_FIND_MANY"@).len());
    reveal_strlit("SET_ROOM_MESSAGE");
    assert(("SET_ROOM_MESSAGE"@).len() != ("SET_VIDEO_FIND_MANY"@).len());
    reveal_strlit("SET_CHAT_UNIT");
    assert(("SET_CHAT_UNIT"@).len() != ("SET_VIDEO_FIND_MANY"@).len());
    reveal_strlit("SET_SETTINGS_UNIT");
    assert(("SET_SETTINGS_UNIT"@).len() != ("SET_VIDEO_FIND_MANY"@).len());
    reveal_strlit("GET_CHAT_MESSAGES");
    assert(("GET_CHAT_MESSAGES"@).len() != ("SET_VIDEO_FIND_MANY"@).len());
    reveal_strlit("SET_CHAT_MESSAGES");
    assert(("SET_CHAT_MESSAGES"@).len() != ("SET_VIDEO_FIND_MANY"@).len());
    reveal_strlit("GET_EDIT_MESSAGE");
    assert(("GET_EDIT_MESSAGE"@).len() != ("SET_VIDEO_FIND_MANY"@).len());
    reveal_strlit("SET_EDIT_MESSAGE");
    assert(("SET_EDIT_MESSAGE"@).len() != ("SET_VIDEO_FIND_MANY"@).len());
    reveal_strlit("GET_CREATE_MESSAGE");
    assert(("GET_CREATE_MESSAGE"@).len() != ("SET_VIDEO_FIND_MANY"@).len());
    reveal_strlit("SET_CREATE_MESSAGE");
    assert(("SET_CREATE_MESSAGE"@).len() != ("SET_VIDEO_FIND_MANY"@).len());
    reveal_strlit("GET_CREATE_QUOTE");
    assert(("GET_CREATE_QUOTE"@).len() != ("SET_VIDEO_FIND_MANY"@).len());
    reveal_strlit("SET_CREATE_QUOTE");
    assert(("SET_CREATE_QUOTE"@).len() != ("SET_VIDEO_FIND_MANY"@).len());
    reveal_strlit("GET_DELETE_MESSAGE");
    assert(("GET_DELETE_MESSAGE"@).len() != ("SET_VIDEO_FIND_MANY"@).len());
    reveal_strlit("SET_DELETE_MESSAGE");
    assert(("SET_DELETE_MESSAGE"@).len() != ("SET_VIDEO_FIND_MANY"@).len());
    reveal_strlit("GET_TO_MUTE");
    assert(("GET_TO_MUTE"@).len() != ("SET_VIDEO_FIND_MANY"@).len());
    reveal_strlit("GET_TO_BAN");
    assert(("GET_TO_BAN"@).len() != ("SET_VIDEO_FIND_MANY"@).len());
    reveal_strlit("GET_TO_UNMUTE");
    assert(("GET_TO_UNMUTE"@).len() != ("SET_VIDEO_FIND_MANY"@).len());
    reveal_strlit("GET_TO_UNBAN");
    assert(("GET_TO_UNBAN"@).len() != ("SET_VIDEO_FIND_MANY"@).len());
    reveal_strlit("SET_BAN_LIST");
    assert(("SET_BAN_LIST"@).len() != ("SET_VIDEO_FIND_MANY"@).len());
    reveal_strlit("SET_MUTE_LIST");
    assert(("SET_MUTE_LIST"@).len() != ("SET_VIDEO_FIND_MANY"@).len());
    reveal_strlit("GET_RECORD");
    assert(("GET_RECORD"@).len() != ("SET_VIDEO_FIND_MANY"@).len());
    reveal_strlit("SET_RECORDING");
    assert(("SET_RECORDING"@).len() != ("SET_VIDEO_FIND_MANY"@).len());
    reveal_strlit("GET_VIDEO_FIND_MANY");
    assert(("GET_VIDEO_FIND_MANY"@)[0] != ("SET_VIDEO_FIND_MANY"@)[0]);
}

proof fn token_names_get_video_find_first()
    ensures
        from_wire_token(wire_token(MessageType::GET_VIDEO_FIND_FIRST)) == Some(MessageType::GET_VIDEO_FIND_FIRST),
{
    reveal_strlit("GET_VIDEO_FIND_FIRST");
    reveal_strlit("GET_LOCALE");
    assert(("GET_LOCALE"@).len() != ("GET_VIDEO_FIND_FIRST"@).len());
    reveal_strlit("SET_LOCALE");
    assert(("SET_LOCALE"@).len() != ("GET_VIDEO_FIND_FIRST"@).len());
    reveal_strlit("GET_USER_ID");
    assert(("GET_USER_ID"@).len() != ("GET_VIDEO_FIND_FIRST"@).len());
    reveal_strlit("SET_USER_ID");
    assert(("SET_USER_ID"@).len() != ("GET_VIDEO_FIND_FIRST"@).len());
    reveal_strlit("GET_LOGIN");
    assert(("GET_LOGIN"@).len() != ("GET_VIDEO_FIND_FIRST"@).len());
    reveal_strlit("TOKEN");
    assert(("TOKEN"@).len() != ("GET_VIDEO_FIND_FIRST"@).len());
    reveal_strlit("OFFER");
    assert(("OFFER"@).len() != ("GET_VIDEO_FIND_FIRST"@).len());
    reveal_strlit("ANSWER");
    assert(("ANSWER"@).len() != ("GET_VIDEO_FIND_FIRST"@).len());
    reveal_strlit("CANDIDATE");
    assert(("CANDIDATE"@).len() != ("GET_VIDEO_FIND_FIRST"@).len());
    reveal_strlit("GET_ROOM");
    assert(("GET_ROOM"@).len() != ("GET_VIDEO_FIND_FIRST"@).len());
    reveal_strlit("SET_ROOM");
    assert(("SET_ROOM"@).len() != ("GET_VIDEO_FIND_FIRST"@).len());
    reveal_strlit("GET_CHAT_UNIT");
    assert(("GET_CHAT_UNIT"@).len() != ("GET_VIDEO_FIND_FIRST"@).len());
    reveal_strlit("GET_SETTINGS_UNIT");
    assert(("GET_SETTINGS_UNIT"@).len() != ("GET_VIDEO_FIND_FIRST"@).len());
    reveal_strlit("SET_ERROR");
    assert(("SET_ERROR"@).len() != ("GET_VIDEO_FIND_FIRST"@).len());
    reveal_strlit("GET_ROOM_GUESTS");
    assert(("GET_ROOM_GUESTS"@).len() != ("GET_VIDEO_FIND_FIRST"@).len());
    reveal_strlit("SET_ROOM_GUESTS");
    assert(("SET_ROOM_GUESTS"@).len() != ("GET_VIDEO_FIND_FIRST"@).len());
    reveal_strlit("SET_CHANGE_UNIT");
    assert(("SET_CHANGE_UNIT"@).len() != ("GET_VIDEO_FIND_FIRST"@).len());
    reveal_strlit("GET_MUTE");
    assert(("GET_MUTE"@).len() != ("GET_VIDEO_FIND_FIRST"@).len());
    reveal_strlit("GET_NEED_RECONNECT");
    assert(("GET_NEED_RECONNECT"@).len() != ("GET_VIDEO_FIND_FIRST"@).len());
    reveal_strlit("SET_MUTE");
    assert(("SET_MUTE"@).len() != ("GET_VIDEO_FIND_FIRST"@).len());
    reveal_strlit("GET_CLOSE_PEER_CONNECTION");
    assert(("GET_CLOSE_PEER_CONNECTION"@).len() != ("GET_VIDEO_FIND_FIRST"@).len());
    reveal_strlit("SET_CLOSE_PEER_CONNECTION");
    assert(("SET_CLOSE_PEER_CONNECTION"@).len() != ("GET_VIDEO_FIND_FIRST"@).len());
    reveal_strlit("GET_ROOM_MESSAGE");
    assert(("GET_ROOM_MESSAGE"@).len() != ("GET_VIDEO_FIND_FIRST"@).len());
    reveal_strlit("SET_ROOM_MESSAGE");
    assert(("SET_ROOM_MESSAGE"@).len() != ("GET_VIDEO_FIND_FIRST"@).len());
    reveal_strlit("SET_CHAT_UNIT");
    assert(("SET_CHAT_UNIT"@).len() != ("GET_VIDEO_FIND_FIRST"@).len());
    reveal_strlit("SET_SETTINGS_UNIT");
    assert(("SET_SETTINGS_UNIT"@).len() != ("GET_VIDEO_FIND_FIRST"@).len());
    reveal_strlit("GET_CHAT_MESSAGES");
    assert(("GET_CHAT_MESSAGES"@).len() != ("GET_VIDEO_FIND_FIRST"@).len());
    reveal_strlit("SET_CHAT_MESSAGES");
    assert(("SET_CHAT_MESSAGES"@).len() != ("GET_VIDEO_FIND_FIRST"@).len());
    reveal_strlit("GET_EDIT_MESSAGE");
    assert(("GET_EDIT_MESSAGE"@).len() != ("GET_VIDEO_FIND_FIRST"@).len());
    reveal_strlit("SET_EDIT_MESSAGE");
    assert(("SET_EDIT_MESSAGE"@).len() != ("GET_VIDEO_FIND_FIRST"@).len());
    reveal_strlit("GET_CREATE_MESSAGE");
    assert(("GET_CREATE_MESSAGE"@).len() != ("GET_VIDEO_FIND_FIRST"@).len());
    reveal_strlit("SET_CREATE_MESSAGE");
    assert(("SET_CREATE_MESSAGE"@).len() != ("GET_VIDEO_FIND_FIRST"@).len());
    reveal_strlit("GET_CREATE_QUOTE");
    assert(("GET_CREATE_QUOTE"@).len() != ("GET_VIDEO_FIND_FIRST"@).len());
    reveal_strlit("SET_CREATE_QUOTE");
    assert(("SET_CREATE_QUOTE"@).len() != ("GET_VIDEO_FIND_FIRST"@).len());
    reveal_strlit("GET_DELETE_MESSAGE");
    assert(("GET_DELETE_MESSAGE"@).len() != ("GET_VIDEO_FIND_FIRST"@).len());
    reveal_strlit("SET_DELETE_MESSAGE");
    assert(("SET_DELETE_MESSAGE"@).len() != ("GET_VIDEO_FIND_FIRST"@).len());
    reveal_strlit("GET_TO_MUTE");
    assert(("GET_TO_MUTE"@).len() != ("GET_VIDEO_FIND_FIRST"@).len());
    reveal_strlit("GET_TO_BAN");
    assert(("GET_TO_BAN"@).len() != ("GET_VIDEO_FIND_FIRST"@).len());
    reveal_strlit("GET_TO_UNMUTE");
    assert(("GET_TO_UNMUTE"@).len() != ("GET_VIDEO_FIND_FIRST"@).len());
    reveal_strlit("GET_TO_UNBAN");
    assert(("GET_TO_UNBAN"@).len() != ("GET_VIDEO_FIND_FIRST"@).len());
    reveal_strlit("SET_BAN_LIST");
    assert(("SET_BAN_LIST"@).len() != ("GET_VIDEO_FIND_FIRST"@).len());
    reveal_strlit("SET_MUTE_LIST");
    assert(("SET_MUTE_LIST"@).len() != ("GET_VIDEO_FIND_FIRST"@).len());
    reveal_strlit("GET_RECORD");
    assert(("GET_RECORD"@).len() != ("GET_VIDEO_FIND_FIRST"@).len());
    reveal_strlit("SET_RECORDING");
    assert(("SET_RECORDING"@).len() != ("GET_VIDEO_FIND_FIRST"@).len());
    reveal_strlit("GET_VIDEO_FIND_MANY");
    assert(("GET_VIDEO_FIND_MANY"@).len() != ("GET_VIDEO_FIND_FIRST"@).len());
    reveal_strlit("SET_VIDEO_FIND_MANY");
    assert(("SET_VIDEO_FIND_MANY"@).len() != ("GET_VIDEO_FIND_FIRST"@).len());
}

proof fn token_names_set_video_find_first()
    ensures
        from_wire_token(wire_token(MessageType::SET_VIDEO_FIND_FIRST)) == Some(MessageType::SET_VIDEO_FIND_FIRST),
{
    reveal_strlit("SET_VIDEO_FIND_FIRST");
    reveal_strlit("GET_LOCALE");
    assert(("GET_LOCALE"@).len() != ("SET_VIDEO_FIND_FIRST"@).len());
    reveal_strlit("SET_LOCALE");
    assert(("SET_LOCALE"@).len() != ("SET_VIDEO_FIND_FIRST"@).len());
    reveal_strlit("GET_USER_ID");
    assert(("GET_USER_ID"@).len() != ("SET_VIDEO_FIND_FIRST"@).len());
    reveal_strlit("SET_USER_ID");
    assert(("SET_USER_ID"@).len() != ("SET_VIDEO_FIND_FIRST"@).len());
    reveal_strlit("GET_LOGIN");
    assert(("GET_LOGIN"@).len() != ("SET_VIDEO_FIND_FIRST"@).len());
    reveal_strlit("TOKEN");
    assert(("TOKEN"@).len() != ("SET_VIDEO_FIND_FIRST"@).len());
    reveal_strlit("OFFER");
    assert(("OFFER"@).len() != ("SET_VIDEO_FIND_FIRST"@).len());
    reveal_strlit("ANSWER");
    assert(("ANSWER"@).len() != ("SET_VIDEO_FIND_FIRST"@).len());
    reveal_strlit("CANDIDATE");
    assert(("CANDIDATE"@).len() != ("SET_VIDEO_FIND_FIRST"@).len());
    reveal_strlit("GET_ROOM");
    assert(("GET_ROOM"@).len() != ("SET_VIDEO_FIND_FIRST"@).len());
    reveal_strlit("SET_ROOM");
    assert(("SET_ROOM"@).len() != ("SET_VIDEO_FIND_FIRST"@).len());
    reveal_strlit("GET_CHAT_UNIT");
    assert(("GET_CHAT_UNIT"@).len() != ("SET_VIDEO_FIND_FIRST"@).len());
    reveal_strlit("GET_SETTINGS_UNIT");
    assert(("GET_SETTINGS_UNIT"@).len() != ("SET_VIDEO_FIND_FIRST"@).len());
    reveal_strlit("SET_ERROR");
    assert(("SET_ERROR"@).len() != ("SET_VIDEO_FIND_FIRST"@).len());
    reveal_strlit("GET_ROOM_GUESTS");
    assert(("GET_ROOM_GUESTS"@).len() != ("SET_VIDEO_FIND_FIRST"@).len());
    reveal_strlit("SET_ROOM_GUESTS");
    assert(("SET_ROOM_GUESTS"@).len() != ("SET_VIDEO_FIND_FIRST"@).len());
    reveal_strlit("SET_CHANGE_UNIT");
    assert(("SET_CHANGE_UNIT"@).len() != ("SET_VIDEO_FIND_FIRST"@).len());
    reveal_strlit("GET_MUTE");
    assert(("GET_MUTE"@).len() != ("SET_VIDEO_FIND_FIRST"@).len());
    reveal_strlit("GET_NEED_RECONNECT");
    assert(("GET_NEED_RECONNECT"@).len() != ("SET_VIDEO_FIND_FIRST"@).len());
    reveal_strlit("SET_MUTE");
    assert(("SET_MUTE"@).len() != ("SET_VIDEO_FIND_FIRST"@).len());
    reveal_strlit("GET_CLOSE_PEER_CONNECTION");
    assert(("GET_CLOSE_PEER_CONNECTION"@).len() != ("SET_VIDEO_FIND_FIRST"@).len());
    reveal_strlit("SET_CLOSE_PEER_CONNECTION");
    assert(("SET_CLOSE_PEER_CONNECTION"@).len() != ("SET_VIDEO_FIND_FIRST"@).len());
    reveal_strlit("GET_ROOM_MESSAGE");
    assert(("GET_ROOM_MESSAGE"@).len() != ("SET_VIDEO_FIND_FIRST"@).len());
    reveal_strlit("SET_ROOM_MESSAGE");
    assert(("SET_ROOM_MESSAGE"@).len() != ("SET_VIDEO_FIND_FIRST"@).len());
    reveal_strlit("SET_CHAT_UNIT");
    assert(("SET_CHAT_UNIT"@).len() != ("SET_VIDEO_FIND_FIRST"@).len());
    reveal_strlit("SET_SETTINGS_UNIT");
    assert(("SET_SETTINGS_UNIT"@).len() != ("SET_VIDEO_FIND_FIRST"@).len());
    reveal_strlit("GET_CHAT_MESSAGES");
    assert(("GET_CHAT_MESSAGES"@).len() != ("SET_VIDEO_FIND_FIRST"@).len());
    reveal_strlit("SET_CHAT_MESSAGES");
    assert(("SET_CHAT_MESSAGES"@).len() != ("SET_VIDEO_FIND_FIRST"@).len());
    reveal_strlit("GET_EDIT_MESSAGE");
    assert(("GET_EDIT_MESSAGE"@).len() != ("SET_VIDEO_FIND_FIRST"@).len());
    reveal_strlit("SET_EDIT_MESSAGE");
    assert(("SET_EDIT_MESSAGE"@).len() != ("SET_VIDEO_FIND_FIRST"@).len());
    reveal_strlit("GET_CREATE_MESSAGE");
    assert(("GET_CREATE_MESSAGE"@).len() != ("SET_VIDEO_FIND_FIRST"@).len());
    reveal_strlit("SET_CREATE_MESSAGE");
    assert(("SET_CREATE_MESSAGE"@).len() != ("SET_VIDEO_FIND_FIRST"@).len());
    reveal_strlit("GET_CREATE_QUOTE");
    assert(("GET_CREATE_QUOTE"@).len() != ("SET_VIDEO_FIND_FIRST"@).len());
    reveal_strlit("SET_CREATE_QUOTE");
    assert(("SET_CREATE_QUOTE"@).len() != ("SET_VIDEO_FIND_FIRST"@).len());
    reveal_strlit("GET_DELETE_MESSAGE");
    assert(("GET_DELETE_MESSAGE"@).len() != ("SET_VIDEO_FIND_FIRST"@).len());
    reveal_strlit("SET_DELETE_MESSAGE");
    assert(("SET_DELETE_MESSAGE"@).len() != ("SET_VIDEO_FIND_FIRST"@).len());
    reveal_strlit("GET_TO_MUTE");
    assert(("GET_TO_MUTE"@).len() != ("SET_VIDEO_FIND_FIRST"@).len());
    reveal_strlit("GET_TO_BAN");
    assert(("GET_TO_BAN"@).len() != ("SET_VIDEO_FIND_FIRST"@).len());
    reveal_strlit("GET_TO_UNMUTE");
    assert(("GET_TO_UNMUTE"@).len() != ("SET_VIDEO_FIND_FIRST"@).len());
    reveal_strlit("GET_TO_UNBAN");
    assert(("GET_TO_UNBAN"@).len() != ("SET_VIDEO_FIND_FIRST"@).len());
    reveal_strlit("SET_BAN_LIST");
    assert(("SET_BAN_LIST"@).len() != ("SET_VIDEO_FIND_FIRST"@).len());
    reveal_strlit("SET_MUTE_LIST");
    assert(("SET_MUTE_LIST"@).len() != ("SET_VIDEO_FIND_FIRST"@).len());
    reveal_strlit("GET_RECORD");
    assert(("GET_RECORD"@).len() != ("SET_VIDEO_FIND_FIRST"@).len());
    reveal_strlit("SET_RECORDING");
    assert(("SET_RECORDING"@).len() != ("SET_VIDEO_FIND_FIRST"@).len());
    reveal_strlit("GET_VIDEO_FIND_MANY");
    assert(("GET_VIDEO_FIND_MANY"@).len() != ("SET_VIDEO_FIND_FIRST"@).len());
    reveal_strlit("SET_VIDEO_FIND_MANY");
    assert(("SET_VIDEO_FIND_MANY"@).len() != ("SET_VIDEO_FIND_FIRST"@).len());
    reveal_strlit("GET_VIDEO_FIND_FIRST");
    assert(("GET_VIDEO_FIND_FIRST"@)[0] != ("SET_VIDEO_FIND_FIRST"@)[0]);
}

proof fn token_names_get_ask_floor()
    ensures
        from_wire_token(wire_token(MessageType::GET_ASK_FLOOR)) == Some(MessageType::GET_ASK_FLOOR),
{
    reveal_strlit("GET_ASK_FLOOR");
    reveal_strlit("GET_LOCALE");
    assert(("GET_LOCALE"@).len() != ("GET_ASK_FLOOR"@).len());
    reveal_strlit("SET_LOCALE");
    assert(("SET_LOCALE"@).len() != ("GET_ASK_FLOOR"@).len());
    reveal_strlit("GET_USER_ID");
    assert(("GET_USER_ID"@).len() != ("GET_ASK_FLOOR"@).len());
    reveal_strlit("SET_USER_ID");
    assert(("SET_USER_ID"@).len() != ("GET_ASK_FLOOR"@).len());
    reveal_strlit("GET_LOGIN");
    assert(("GET_LOGIN"@).len() != ("GET_ASK_FLOOR"@).len());
    reveal_strlit("TOKEN");
    assert(("TOKEN"@).len() != ("GET_ASK_FLOOR"@).len());
    reveal_strlit("OFFER");
    assert(("OFFER"@).len() != ("GET_ASK_FLOOR"@).len());
    reveal_strlit("ANSWER");
    assert(("ANSWER"@).len() != ("GET_ASK_FLOOR"@).len());
    reveal_strlit("CANDIDATE");
    assert(("CANDIDATE"@).len() != ("GET_ASK_FLOOR"@).len());
    reveal_strlit("GET_ROOM");
    assert(("GET_ROOM"@).len() != ("GET_ASK_FLOOR"@).len());
    reveal_strlit("SET_ROOM");
    assert(("SET_ROOM"@).len() != ("GET_ASK_FLOOR"@).len());
    reveal_strlit("GET_CHAT_UNIT");
    assert(("GET_CHAT_UNIT"@)[4] != ("GET_ASK_FLOOR"@)[4]);
    reveal_strlit("GET_SETTINGS_UNIT");
    assert(("GET_SETTINGS_UNIT"@).len() != ("GET_ASK_FLOOR"@).len());
    reveal_strlit("SET_ERROR");
    assert(("SET_ERROR"@).len() != ("GET_ASK_FLOOR"@).len());
    reveal_strlit("GET_ROOM_GUESTS");
    assert(("GET_ROOM_GUESTS"@).len() != ("GET_ASK_FLOOR"@).len());
    reveal_strlit("SET_ROOM_GUESTS");
    assert(("SET_ROOM_GUESTS"@).len() != ("GET_ASK_FLOOR"@).len());
    reveal_strlit("SET_CHANGE_UNIT");
    assert(("SET_CHANGE_UNIT"@).len() != ("GET_ASK_FLOOR"@).len());
    reveal_strlit("GET_MUTE");
    assert(("GET_MUTE"@).len() != ("GET_ASK_FLOOR"@).len());
    reveal_strlit("GET_NEED_RECONNECT");
    assert(("GET_NEED_RECONNECT"@).len() != ("GET_ASK_FLOOR"@).len());
    reveal_strlit("SET_MUTE");
    assert(("SET_MUTE"@).len() != ("GET_ASK_FLOOR"@).len());
    reveal_strlit("GET_CLOSE_PEER_CONNECTION");
    assert(("GET_CLOSE_PEER_CONNECTION"@).len() != ("GET_ASK_FLOOR"@).len());
    reveal_strlit("SET_CLOSE_PEER_CONNECTION");
    assert(("SET_CLOSE_PEER_CONNECTION"@).len() != ("GET_ASK_FLOOR"@).len());
    reveal_strlit("GET_ROOM_MESSAGE");
    assert(("GET_ROOM_MESSAGE"@).len() != ("GET_ASK_FLOOR"@).len());
    reveal_strlit("SET_ROOM_MESSAGE");
    assert(("SET_ROOM_MESSAGE"@).len() != ("GET_ASK_FLOOR"@).len());
    reveal_strlit("SET_CHAT_UNIT");
    assert(("SET_CHAT_UNIT"@)[0] != ("GET_ASK_FLOOR"@)[0]);
    reveal_strlit("SET_SETTINGS_UNIT");
    assert(("SET_SETTINGS_UNIT"@).len() != ("GET_ASK_FLOOR"@).len());
    reveal_strlit("GET_CHAT_MESSAGES");
    assert(("GET_CHAT_MESSAGES"@).len() != ("GET_ASK_FLOOR"@).len());
    reveal_strlit("SET_CHAT_MESSAGES");
    assert(("SET_CHAT_MESSAGES"@).len() != ("GET_ASK_FLOOR"@).len());
    reveal_strlit("GET_EDIT_MESSAGE");
    assert(("GET_EDIT_MESSAGE"@).len() != ("GET_ASK_FLOOR"@).len());
    reveal_strlit("SET_EDIT_MESSAGE");
    assert(("SET_EDIT_MESSAGE"@).len() != ("GET_ASK_FLOOR"@).len());
    reveal_strlit("GET_CREATE_MESSAGE");
    assert(("GET_CREATE_MESSAGE"@).len() != ("GET_ASK_FLOOR"@).len());
    reveal_strlit("SET_CREATE_MESSAGE");
    assert(("SET_CREATE_MESSAGE"@).len() != ("GET_ASK_FLOOR"@).len());
    reveal_strlit("GET_CREATE_QUOTE");
    assert(("GET_CREATE_QUOTE"@).len() != ("GET_ASK_FLOOR"@).len());
    reveal_strlit("SET_CREATE_QUOTE");
    assert(("SET_CREATE_QUOTE"@).len() != ("GET_ASK_FLOOR"@).len());
    reveal_strlit("GET_DELETE_MESSAGE");
    assert(("GET_DELETE_MESSAGE"@).len() != ("GET_ASK_FLOOR"@).len());
    reveal_strlit("SET_DELETE_MESSAGE");
    assert(("SET_DELETE_MESSAGE"@).len() != ("GET_ASK_FLOOR"@).len());
    reveal_strlit("GET_TO_MUTE");
    assert(("GET_TO_MUTE"@).len() != ("GET_ASK_FLOOR"@).len());
    reveal_strlit("GET_TO_BAN");
    assert(("GET_TO_BAN"@).len() != ("GET_ASK_FLOOR"@).len());
    reveal_strlit("GET_TO_UNMUTE");
    assert(("GET_TO_UNMUTE"@)[4] != ("GET_ASK_FLOOR"@)[4]);
    reveal_strlit("GET_TO_UNBAN");
    assert(("GET_TO_UNBAN"@).len() != ("GET_ASK_FLOOR"@).len());
    reveal_strlit("SET_BAN_LIST");
    assert(("SET_BAN_LIST"@).len() != ("GET_ASK_FLOOR"@).len());
    reveal_strlit("SET_MUTE_LIST");
    assert(("SET_MUTE_LIST"@)[0] != ("GET_ASK_FLOOR"@)[0]);
    reveal_strlit("GET_RECORD");
    assert(("GET_RECORD"@).len() != ("GET_ASK_FLOOR"@).len());
    reveal_strlit("SET_RECORDING");
    assert(("SET_RECORDING"@)[0] != ("GET_ASK_FLOOR"@)[0]);
    reveal_strlit("GET_VIDEO_FIND_MANY");
    assert(("GET_VIDEO_FIND_MANY"@).len() != ("GET_ASK_FLOOR"@).len());
    reveal_strlit("SET_VIDEO_FIND_MANY");
    assert(("SET_VIDEO_FIND_MANY"@).len() != ("GET_ASK_FLOOR"@).len());
    reveal_strlit("GET_VIDEO_FIND_FIRST");
    assert(("GET_VIDEO_FIND_FIRST"@).len() != ("GET_ASK_FLOOR"@).len());
    reveal_strlit("SET_VIDEO_FIND_FIRST");
    assert(("SET_VIDEO_FIND_FIRST"@).len() != ("GET_ASK_FLOOR"@).len());
}

proof fn token_names_set_ask_floor()
    ensures
        from_wire_token(wire_token(MessageType::SET_ASK_FLOOR)) == Some(MessageType::SET_ASK_FLOOR),
{
    reveal_strlit("SET_ASK_FLOOR");
    reveal_strlit("GET_LOCALE");
    assert(("GET_LOCALE"@).len() != ("SET_ASK_FLOOR"@).len());
    reveal_strlit("SET_LOCALE");
    assert(("SET_LOCALE"@).len() != ("SET_ASK_FLOOR"@).len());
    reveal_strlit("GET_USER_ID");
    assert(("GET_USER_ID"@).len() != ("SET_ASK_FLOOR"@).len());
    reveal_strlit("SET_USER_ID");
    assert(("SET_USER_ID"@).len() != ("SET_ASK_FLOOR"@).len());
    reveal_strlit("GET_LOGIN");
    assert(("GET_LOGIN"@).len() != ("SET_ASK_FLOOR"@).len());
    reveal_strlit("TOKEN");
    assert(("TOKEN"@).len() != ("SET_ASK_FLOOR"@).len());
    reveal_strlit("OFFER");
    assert(("OFFER"@).len() != ("SET_ASK_FLOOR"@).len());
    reveal_strlit("ANSWER");
    assert(("ANSWER"@).len() != ("SET_ASK_FLOOR"@).len());
    reveal_strlit("CANDIDATE");
    assert(("CANDIDATE"@).len() != ("SET_ASK_FLOOR"@).len());
    reveal_strlit("GET_ROOM");
    assert(("GET_ROOM"@).len() != ("SET_ASK_FLOOR"@).len());
    reveal_strlit("SET_ROOM");
    assert(("SET_ROOM"@).len() != ("SET_ASK_FLOOR"@).len());
    reveal_strlit("GET_CHAT_UNIT");
    assert(("GET_CHAT_UNIT"@)[0] != ("SET_ASK_FLOOR"@)[0]);
    reveal_strlit("GET_SETTINGS_UNIT");
    assert(("GET_SETTINGS_UNIT"@).len() != ("SET_ASK_FLOOR"@).len());
    reveal_strlit("SET_ERROR");
    assert(("SET_ERROR"@).len() != ("SET_ASK_FLOOR"@).len());
    reveal_strlit("GET_ROOM_GUESTS");
    assert(("GET_ROOM_GUESTS"@).len() != ("SET_ASK_FLOOR"@).len());
    reveal_strlit("SET_ROOM_GUESTS");
    assert(("SET_ROOM_GUESTS"@).len() != ("SET_ASK_FLOOR"@).len());
    reveal_strlit("SET_CHANGE_UNIT");
    assert(("SET_CHANGE_UNIT"@).len() != ("SET_ASK_FLOOR"@).len());
    reveal_strlit("GET_MUTE");
    assert(("GET_MUTE"@).len() != ("SET_ASK_FLOOR"@).len());
    reveal_strlit("GET_NEED_RECONNECT");
    assert(("GET_NEED_RECONNECT"@).len() != ("SET_ASK_FLOOR"@).len());
    reveal_strlit("SET_MUTE");
    assert(("SET_MUTE"@).len() != ("SET_ASK_FLOOR"@).len());
    reveal_strlit("GET_CLOSE_PEER_CONNECTION");
    assert(("GET_CLOSE_PEER_CONNECTION"@).len() != ("SET_ASK_FLOOR"@).len());
    reveal_strlit("SET_CLOSE_PEER_CONNECTION");
    assert(("SET_CLOSE_PEER_CONNECTION"@).len() != ("SET_ASK_FLOOR"@).len());
    reveal_strlit("GET_ROOM_MESSAGE");
    assert(("GET_ROOM_MESSAGE"@).len() != ("SET_ASK_FLOOR"@).len());
    reveal_strlit("SET_ROOM_MESSAGE");
    assert(("SET_ROOM_MESSAGE"@).len() != ("SET_ASK_FLOOR"@).len());
    reveal_strlit("SET_CHAT_UNIT");
    assert(("SET_CHAT_UNIT"@)[4] != ("SET_ASK_FLOOR"@)[4]);
    reveal_strlit("SET_SETTINGS_UNIT");
    assert(("SET_SETTINGS_UNIT"@).len() != ("SET_ASK_FLOOR"@).len());
    reveal_strlit("GET_CHAT_MESSAGES");
    assert(("GET_CHAT_MESSAGES"@).len() != ("SET_ASK_FLOOR"@).len());
    reveal_strlit("SET_CHAT_MESSAGES");
    assert(("SET_CHAT_MESSAGES"@).len() != ("SET_ASK_FLOOR"@).len());
    reveal_strlit("GET_EDIT_MESSAGE");
    assert(("GET_EDIT_MESSAGE"@).len() != ("SET_ASK_FLOOR"@).len());
    reveal_strlit("SET_EDIT_MESSAGE");
    assert(("SET_EDIT_MESSAGE"@).len() != ("SET_ASK_FLOOR"@).len());
    reveal_strlit("GET_CREATE_MESSAGE");
    assert(("GET_CREATE_MESSAGE"@).len() != ("SET_ASK_FLOOR"@).len());
    reveal_strlit("SET_CREATE_MESSAGE");
    assert(("SET_CREATE_MESSAGE"@).len() != ("SET_ASK_FLOOR"@).len());
    reveal_strlit("GET_CREATE_QUOTE");
    assert(("GET_CREATE_QUOTE"@).len() != ("SET_ASK_FLOOR"@).len());
    reveal_strlit("SET_CREATE_QUOTE");
    assert(("SET_CREATE_QUOTE"@).len() != ("SET_ASK_FLOOR"@).len());
    reveal_strlit("GET_DELETE_MESSAGE");
    assert(("GET_DELETE_MESSAGE"@).len() != ("SET_ASK_FLOOR"@).len());
    reveal_strlit("SET_DELETE_MESSAGE");
    assert(("SET_DELETE_MESSAGE"@).len() != ("SET_ASK_FLOOR"@).len());
    reveal_strlit("GET_TO_MUTE");
    assert(("GET_TO_MUTE"@).len() != ("SET_ASK_FLOOR"@).len());
    reveal_strlit("GET_TO_BAN");
    assert(("GET_TO_BAN"@).len() != ("SET_ASK_FLOOR"@).len());
    reveal_strlit("GET_TO_UNMUTE");
    assert(("GET_TO_UNMUTE"@)[0] != ("SET_ASK_FLOOR"@)[0]);
    reveal_strlit("GET_TO_UNBAN");
    assert(("GET_TO_UNBAN"@).len() != ("SET_ASK_FLOOR"@).len());
    reveal_strlit("SET_BAN_LIST");
    assert(("SET_BAN_LIST"@).len() != ("SET_ASK_FLOOR"@).len());
    reveal_strlit("SET_MUTE_LIST");
    assert(("SET_MUTE_LIST"@)[4] != ("SET_ASK_FLOOR"@)[4]);
    reveal_strlit("GET_RECORD");
    assert(("GET_RECORD"@).len() != ("SET_ASK_FLOOR"@).len());
    reveal_strlit("SET_RECORDING");
    assert(("SET_RECORDING"@)[4] != ("SET_ASK_FLOOR"@)[4]);
    reveal_strlit("GET_VIDEO_FIND_MANY");
    assert(("GET_VIDEO_FIND_MANY"@).len() != ("SET_ASK_FLOOR"@).len());
    reveal_strlit("SET_VIDEO_FIND_MANY");
    assert(("SET_VIDEO_FIND_MANY"@).len() != ("SET_ASK_FLOOR"@).len());
    reveal_strlit("GET_VIDEO_FIND_FIRST");
    assert(("GET_VIDEO_FIND_FIRST"@).len() != ("SET_ASK_FLOOR"@).len());
    reveal_strlit("SET_VIDEO_FIND_FIRST");
    assert(("SET_VIDEO_FIND_FIRST"@).len() != ("SET_ASK_FLOOR"@).len());
    reveal_strlit("GET_ASK_FLOOR");
    assert(("GET_ASK_FLOOR"@)[0] != ("SET_ASK_FLOOR"@)[0]);
}

proof fn token_names_get_mute_for_all()
    ensures
        from_wire_token(wire_token(MessageType::GET_MUTE_FOR_ALL)) == Some(MessageType::GET_MUTE_FOR_ALL),
{
    reveal_strlit("GET_MUTE_FOR_ALL");
    reveal_strlit("GET_LOCALE");
    assert(("GET_LOCALE"@).len() != ("GET_MUTE_FOR_ALL"@).len());
    reveal_strlit("SET_LOCALE");
    assert(("SET_LOCALE"@).len() != ("GET_MUTE_FOR_ALL"@).len());
    reveal_strlit("GET_USER_ID");
    assert(("GET_USER_ID"@).len() != ("GET_MUTE_FOR_ALL"@).len());
    reveal_strlit("SET_USER_ID");
    assert(("SET_USER_ID"@).len() != ("GET_MUTE_FOR_ALL"@).len());
    reveal_strlit("GET_LOGIN");
    assert(("GET_LOGIN"@).len() != ("GET_MUTE_FOR_ALL"@).len());
    reveal_strlit("TOKEN");
    assert(("TOKEN"@).len() != ("GET_MUTE_FOR_ALL"@).len());
    reveal_strlit("OFFER");
    assert(("OFFER"@).len() != ("GET_MUTE_FOR_ALL"@).len());
    reveal_strlit("ANSWER");
    assert(("ANSWER"@).len() != ("GET_MUTE_FOR_ALL"@).len());
    reveal_strlit("CANDIDATE");
    assert(("CANDIDATE"@).len() != ("GET_MUTE_FOR_ALL"@).len());
    reveal_strlit("GET_ROOM");
    assert(("GET_ROOM"@).len() != ("GET_MUTE_FOR_ALL"@).len());
    reveal_strlit("SET_ROOM");
    assert(("SET_ROOM"@).len() != ("GET_MUTE_FOR_ALL"@).len());
    reveal_strlit("GET_CHAT_UNIT");
    assert(("GET_CHAT_UNIT"@).len() != ("GET_MUTE_FOR_ALL"@).len());
    reveal_strlit("GET_SETTINGS_UNIT");
    assert(("GET_SETTINGS_UNIT"@).len() != ("GET_MUTE_FOR_ALL"@).len());
    reveal_strlit("SET_ERROR");
    assert(("SET_ERROR"@).len() != ("GET_MUTE_FOR_ALL"@).len());
    reveal_strlit("GET_ROOM_GUESTS");
    assert(("GET_ROOM_GUESTS"@).len() != ("GET_MUTE_FOR_ALL"@).len());
    reveal_strlit("SET_ROOM_GUESTS");
    assert(("SET_ROOM_GUESTS"@).len() != ("GET_MUTE_FOR_ALL"@).len());
    reveal_strlit("SET_CHANGE_UNIT");
    assert(("SET_CHANGE_UNIT"@).len() != ("GET_MUTE_FOR_ALL"@).len());
    reveal_strlit("GET_MUTE");
    assert(("GET_MUTE"@).len() != ("GET_MUTE_FOR_ALL"@).len());
    reveal_strlit("GET_NEED_RECONNECT");
    assert(("GET_NEED_RECONNECT"@).len() != ("GET_MUTE_FOR_ALL"@).len());
    reveal_strlit("SET_MUTE");
    assert(("SET_MUTE"@).len() != ("GET_MUTE_FOR_ALL"@).len());
    reveal_strlit("GET_CLOSE_PEER_CONNECTION");
    assert(("GET_CLOSE_PEER_CONNECTION"@).len() != ("GET_MUTE_FOR_ALL"@).len());
    reveal_strlit("SET_CLOSE_PEER_CONNECTION");
    assert(("SET_CLOSE_PEER_CONNECTION"@).len() != ("GET_MUTE_FOR_ALL"@).len());
    reveal_strlit("GET_ROOM_MESSAGE");
    assert(("GET_ROOM_MESSAGE"@)[4] != ("GET_MUTE_FOR_ALL"@)[4]);
    reveal_strlit("SET_ROOM_MESSAGE");
    assert(("SET_ROOM_MESSAGE"@)[0] != ("GET_MUTE_FOR_ALL"@)[0]);
    reveal_strlit("SET_CHAT_UNIT");
    assert(("SET_CHAT_UNIT"@).len() != ("GET_MUTE_FOR_ALL"@).len());
    reveal_strlit("SET_SETTINGS_UNIT");
    assert(("SET_SETTINGS_UNIT"@).len() != ("GET_MUTE_FOR_ALL"@).len());
    reveal_strlit("GET_CHAT_MESSAGES");
    assert(("GET_CHAT_MESSAGES"@).len() != ("GET_MUTE_FOR_ALL"@).len());
    reveal_strlit("SET_CHAT_MESSAGES");
    assert(("SET_CHAT_MESSAGES"@).len() != ("GET_MUTE_FOR_ALL"@).len());
    reveal_strlit("GET_EDIT_MESSAGE");
    assert(("GET_EDIT_MESSAGE"@)[4] != ("GET_MUTE_FOR_ALL"@)[4]);
    reveal_strlit("SET_EDIT_MESSAGE");
    assert(("SET_EDIT_MESSAGE"@)[0] != ("GET_MUTE_FOR_ALL"@)[0]);
    reveal_strlit("GET_CREATE_MESSAGE");
    assert(("GET_CREATE_MESSAGE"@).len() != ("GET_MUTE_FOR_ALL"@).len());
    reveal_strlit("SET_CREATE_MESSAGE");
    assert(("SET_CREATE_MESSAGE"@).len() != ("GET_MUTE_FOR_ALL"@).len());
    reveal_strlit("GET_CREATE_QUOTE");
    assert(("GET_CREATE_QUOTE"@)[4] != ("GET_MUTE_FOR_ALL"@)[4]);
    reveal_strlit("SET_CREATE_QUOTE");
    assert(("SET_CREATE_QUOTE"@)[0] != ("GET_MUTE_FOR_ALL"@)[0]);
    reveal_strlit("GET_DELETE_MESSAGE");
    assert(("GET_DELETE_MESSAGE"@).len() != ("GET_MUTE_FOR_ALL"@).len());
    reveal_strlit("SET_DELETE_MESSAGE");
    assert(("SET_DELETE_MESSAGE"@).len() != ("GET_MUTE_FOR_ALL"@).len());
    reveal_strlit("GET_TO_MUTE");
    assert(("GET_TO_MUTE"@).len() != ("GET_MUTE_FOR_ALL"@).len());
    reveal_strlit("GET_TO_BAN");
    assert(("GET_TO_BAN"@).len() != ("GET_MUTE_FOR_ALL"@).len());
    reveal_strlit("GET_TO_UNMUTE");
    assert(("GET_TO_UNMUTE"@).len() != ("GET_MUTE_FOR_ALL"@).len());
    reveal_strlit("GET_TO_UNBAN");
    assert(("GET_TO_UNBAN"@).len() != ("GET_MUTE_FOR_ALL"@).len());
    reveal_strlit("SET_BAN_LIST");
    assert(("SET_BAN_LIST"@).len() != ("GET_MUTE_FOR_ALL"@).len());
    reveal_strlit("SET_MUTE_LIST");
    assert(("SET_MUTE_LIST"@).len() != ("GET_MUTE_FOR_ALL"@).len());
    reveal_strlit("GET_RECORD");
    assert(("GET_RECORD"@).len() != ("GET_MUTE_FOR_ALL"@).len());
    reveal_strlit("SET_RECORDING");
    assert(("SET_RECORDING"@).len() != ("GET_MUTE_FOR_ALL"@).len());
    reveal_strlit("GET_VIDEO_FIND_MANY");
    assert(("GET_VIDEO_FIND_MANY"@).len() != ("GET_MUTE_FOR_ALL"@).len());
    reveal_strlit("SET_VIDEO_FIND_MANY");
    assert(("SET_VIDEO_FIND_MANY"@).len() != ("GET_MUTE_FOR_ALL"@).len());
    reveal_strlit("GET_VIDEO_FIND_FIRST");
    assert(("GET_VIDEO_FIND_FIRST"@).len() != ("GET_MUTE_FOR_ALL"@).len());
    reveal_strlit("SET_VIDEO_FIND_FIRST");
    assert(("SET_VIDEO_FIND_FIRST"@).len() != ("GET_MUTE_FOR_ALL"@).len());
    reveal_strlit("GET_ASK_FLOOR");
    assert(("GET_ASK_FLOOR"@).len() != ("GET_MUTE_FOR_ALL"@).len());
    reveal_strlit("SET_ASK_FLOOR");
    assert(("SET_ASK_FLOOR"@).len() != ("GET_MUTE_FOR_ALL"@).len());
}

proof fn token_names_set_mute_for_all()
    ensures
        from_wire_token(wire_token(MessageType::SET_MUTE_FOR_ALL)) == Some(MessageType::SET_MUTE_FOR_ALL),
{
    reveal_strlit("SET_MUTE_FOR_ALL");
    reveal_strlit("GET_LOCALE");
    assert(("GET_LOCALE"@).len() != ("SET_MUTE_FOR_ALL"@).len());
    reveal_strlit("SET_LOCALE");
    assert(("SET_LOCALE"@).len() != ("SET_MUTE_FOR_ALL"@).len());
    reveal_strlit("GET_USER_ID");
    assert(("GET_USER_ID"@).len() != ("SET_MUTE_FOR_ALL"@).len());
    reveal_strlit("SET_USER_ID");
    assert(("SET_USER_ID"@).len() != ("SET_MUTE_FOR_ALL"@).len());
    reveal_strlit("GET_LOGIN");
    assert(("GET_LOGIN"@).len() != ("SET_MUTE_FOR_ALL"@).len());
    reveal_strlit("TOKEN");
    assert(("TOKEN"@).len() != ("SET_MUTE_FOR_ALL"@).len());
    reveal_strlit("OFFER");
    assert(("OFFER"@).len() != ("SET_MUTE_FOR_ALL"@).len());
    reveal_strlit("ANSWER");
    assert(("ANSWER"@).len() != ("SET_MUTE_FOR_ALL"@).len());
    reveal_strlit("CANDIDATE");
    assert(("CANDIDATE"@).len() != ("SET_MUTE_FOR_ALL"@).len());
    reveal_strlit("GET_ROOM");
    assert(("GET_ROOM"@).len() != ("SET_MUTE_FOR_ALL"@).len());
    reveal_strlit("SET_ROOM");
    assert(("SET_ROOM"@).len() != ("SET_MUTE_FOR_ALL"@).len());
    reveal_strlit("GET_CHAT_UNIT");
    assert(("GET_CHAT_UNIT"@).len() != ("SET_MUTE_FOR_ALL"@).len());
    reveal_strlit("GET_SETTINGS_UNIT");
    assert(("GET_SETTINGS_UNIT"@).len() != ("SET_MUTE_FOR_ALL"@).len());
    reveal_strlit("SET_ERROR");
    assert(("SET_ERROR"@).len() != ("SET_MUTE_FOR_ALL"@).len());
    reveal_strlit("GET_ROOM_GUESTS");
    assert(("GET_ROOM_GUESTS"@).len() != ("SET_MUTE_FOR_ALL"@).len());
    reveal_strlit("SET_ROOM_GUESTS");
    assert(("SET_ROOM_GUESTS"@).len() != ("SET_MUTE_FOR_ALL"@).len());
    reveal_strlit("SET_CHANGE_UNIT");
    assert(("SET_CHANGE_UNIT"@).len() != ("SET_MUTE_FOR_ALL"@).len());
    reveal_strlit("GET_MUTE");
    assert(("GET_MUTE"@).len() != ("SET_MUTE_FOR_ALL"@).len());
    reveal_strlit("GET_NEED_RECONNECT");
    assert(("GET_NEED_RECONNECT"@).len() != ("SET_MUTE_FOR_ALL"@).len());
    reveal_strlit("SET_MUTE");
    assert(("SET_MUTE"@).len() != ("SET_MUTE_FOR_ALL"@).len());
    reveal_strlit("GET_CLOSE_PEER_CONNECTION");
    assert(("GET_CLOSE_PEER_CONNECTION"@).len() != ("SET_MUTE_FOR_ALL"@).len());
    reveal_strlit("SET_CLOSE_PEER_CONNECTION");
    assert(("SET_CLOSE_PEER_CONNECTION"@).len() != ("SET_MUTE_FOR_ALL"@).len());
    reveal_strlit("GET_ROOM_MESSAGE");
    assert(("GET_ROOM_MESSAGE"@)[0] != ("SET_MUTE_FOR_ALL"@)[0]);
    reveal_strlit("SET_ROOM_MESSAGE");
    assert(("SET_ROOM_MESSAGE"@)[4] != ("SET_MUTE_FOR_ALL"@)[4]);
    reveal_strlit("SET_CHAT_UNIT");
    assert(("SET_CHAT_UNIT"@).len() != ("SET_MUTE_FOR_ALL"@).len());
    reveal_strlit("SET_SETTINGS_UNIT");
    assert(("SET_SETTINGS_UNIT"@).len() != ("SET_MUTE_FOR_ALL"@).len());
    reveal_strlit("GET_CHAT_MESSAGES");
    assert(("GET_CHAT_MESSAGES"@).len() != ("SET_MUTE_FOR_ALL"@).len());
    reveal_strlit("SET_CHAT_MESSAGES");
    assert(("SET_CHAT_MESSAGES"@).len() != ("SET_MUTE_FOR_ALL"@).len());
    reveal_strlit("GET_EDIT_MESSAGE");
    assert(("GET_EDIT_MESSAGE"@)[0] != ("SET_MUTE_FOR_ALL"@)[0]);
    reveal_strlit("SET_EDIT_MESSAGE");
    assert(("SET_EDIT_MESSAGE"@)[4] != ("SET_MUTE_FOR_ALL"@)[4]);
    reveal_strlit("GET_CREATE_MESSAGE");
    assert(("GET_CREATE_MESSAGE"@).len() != ("SET_MUTE_FOR_ALL"@).len());
    reveal_strlit("SET_CREATE_MESSAGE");
    assert(("SET_CREATE_MESSAGE"@).len() != ("SET_MUTE_FOR_ALL"@).len());
    reveal_strlit("GET_CREATE_QUOTE");
    assert(("GET_CREATE_QUOTE"@)[0] != ("SET_MUTE_FOR_ALL"@)[0]);
    reveal_strlit("SET_CREATE_QUOTE");
    assert(("SET_CREATE_QUOTE"@)[4] != ("SET_MUTE_FOR_ALL"@)[4]);
    reveal_strlit("GET_DELETE_MESSAGE");
    assert(("GET_DELETE_MESSAGE"@).len() != ("SET_MUTE_FOR_ALL"@).len());
    reveal_strlit("SET_DELETE_MESSAGE");
    assert(("SET_DELETE_MESSAGE"@).len() != ("SET_MUTE_FOR_ALL"@).len());
    reveal_strlit("GET_TO_MUTE");
    assert(("GET_TO_MUTE"@).len() != ("SET_MUTE_FOR_ALL"@).len());
    reveal_strlit("GET_TO_BAN");
    assert(("GET_TO_BAN"@).len() != ("SET_MUTE_FOR_ALL"@).len());
    reveal_strlit("GET_TO_UNMUTE");
    assert(("GET_TO_UNMUTE"@).len() != ("SET_MUTE_FOR_ALL"@).len());
    reveal_strlit("GET_TO_UNBAN");
    assert(("GET_TO_UNBAN"@).len() != ("SET_MUTE_FOR_ALL"@).len());
    reveal_strlit("SET_BAN_LIST");
    assert(("SET_BAN_LIST"@).len() != ("SET_MUTE_FOR_ALL"@).len());
    reveal_strlit("SET_MUTE_LIST");
    assert(("SET_MUTE_LIST"@).len() != ("SET_MUTE_FOR_ALL"@).len());
    reveal_strlit("GET_RECORD");
    assert(("GET_RECORD"@).len() != ("SET_MUTE_FOR_ALL"@).len());
    reveal_strlit("SET_RECORDING");
    assert(("SET_RECORDING"@).len() != ("SET_MUTE_FOR_ALL"@).len());
    reveal_strlit("GET_VIDEO_FIND_MANY");
    assert(("GET_VIDEO_FIND_MANY"@).len() != ("SET_MUTE_FOR_ALL"@).len());
    reveal_strlit("SET_VIDEO_FIND_MANY");
    assert(("SET_VIDEO_FIND_MANY"@).len() != ("SET_MUTE_FOR_ALL"@).len());
    reveal_strlit("GET_VIDEO_FIND_FIRST");
    assert(("GET_VIDEO_FIND_FIRST"@).len() != ("SET_MUTE_FOR_ALL"@).len());
    reveal_strlit("SET_VIDEO_FIND_FIRST");
    assert(("SET_VIDEO_FIND_FIRST"@).len() != ("SET_MUTE_FOR_ALL"@).len());
    reveal_strlit("GET_ASK_FLOOR");
    assert(("GET_ASK_FLOOR"@).len() != ("SET_MUTE_FOR_ALL"@).len());
    reveal_strlit("SET_ASK_FLOOR");
    assert(("SET_ASK_FLOOR"@).len() != ("SET_MUTE_FOR_ALL"@).len());
    reveal_strlit("GET_MUTE_FOR_ALL");
    assert(("GET_MUTE_FOR_ALL"@)[0] != ("SET_MUTE_FOR_ALL"@)[0]);
}

proof fn token_names_get_block_chat()
    ensures
        from_wire_token(wire_token(MessageType::GET_BLOCK_CHAT)) == Some(MessageType::GET_BLOCK_CHAT),
{
    reveal_strlit("GET_BLOCK_CHAT");
    reveal_strlit("GET_LOCALE");
    assert(("GET_LOCALE"@).len() != ("GET_BLOCK_CHAT"@).len());
    reveal_strlit("SET_LOCALE");
    assert(("SET_LOCALE"@).len() != ("GET_BLOCK_CHAT"@).len());
    reveal_strlit("GET_USER_ID");
    assert(("GET_USER_ID"@).len() != ("GET_BLOCK_CHAT"@).len());
    reveal_strlit("SET_USER_ID");
    assert(("SET_USER_ID"@).len() != ("GET_BLOCK_CHAT"@).len());
    reveal_strlit("GET_LOGIN");
    assert(("GET_LOGIN"@).len() != ("GET_BLOCK_CHAT"@).len());
    reveal_strlit("TOKEN");
    assert(("TOKEN"@).len() != ("GET_BLOCK_CHAT"@).len());
    reveal_strlit("OFFER");
    assert(("OFFER"@).len() != ("GET_BLOCK_CHAT"@).len());
    reveal_strlit("ANSWER");
    assert(("ANSWER"@).len() != ("GET_BLOCK_CHAT"@).len());
    reveal_strlit("CANDIDATE");
    assert(("CANDIDATE"@).len() != ("GET_BLOCK_CHAT"@).len());
    reveal_strlit("GET_ROOM");
    assert(("GET_ROOM"@).len() != ("GET_BLOCK_CHAT"@).len());
    reveal_strlit("SET_ROOM");
    assert(("SET_ROOM"@).len() != ("GET_BLOCK_CHAT"@).len());
    reveal_strlit("GET_CHAT_UNIT");
    assert(("GET_CHAT_UNIT"@).len() != ("GET_BLOCK_CHAT"@).len());
    reveal_strlit("GET_SETTINGS_UNIT");
    assert(("GET_SETTINGS_UNIT"@).len() != ("GET_BLOCK_CHAT"@).len());
    reveal_strlit("SET_ERROR");
    assert(("SET_ERROR"@).len() != ("GET_BLOCK_CHAT"@).len());
    reveal_strlit("GET_ROOM_GUESTS");
    assert(("GET_ROOM_GUESTS"@).len() != ("GET_BLOCK_CHAT"@).len());
    reveal_strlit("SET_ROOM_GUESTS");
    assert(("SET_ROOM_GUESTS"@).len() != ("GET_BLOCK_CHAT"@).len());
    reveal_strlit("SET_CHANGE_UNIT");
    assert(("SET_CHANGE_UNIT"@).len() != ("GET_BLOCK_CHAT"@).len());
    reveal_strlit("GET_MUTE");
    assert(("GET_MUTE"@).len() != ("GET_BLOCK_CHAT"@).len());
    reveal_strlit("GET_NEED_RECONNECT");
    assert(("GET_NEED_RECONNECT"@).len() != ("GET_BLOCK_CHAT"@).len());
    reveal_strlit("SET_MUTE");
    assert(("SET_MUTE"@).len() != ("GET_BLOCK_CHAT"@).len());
    reveal_strlit("GET_CLOSE_PEER_CONNECTION");
    assert(("GET_CLOSE_PEER_CONNECTION"@).len() != ("GET_BLOCK_CHAT"@).len());
    reveal_strlit("SET_CLOSE_PEER_CONNECTION");
    assert(("SET_CLOSE_PEER_CONNECTION"@).len() != ("GET_BLOCK_CHAT"@).len());
    reveal_strlit("GET_ROOM_MESSAGE");
    assert(("GET_ROOM_MESSAGE"@).len() != ("GET_BLOCK_CHAT"@).len());
    reveal_strlit("SET_ROOM_MESSAGE");
    assert(("SET_ROOM_MESSAGE"@).len() != ("GET_BLOCK_CHAT"@).len());
    reveal_strlit("SET_CHAT_UNIT");
    assert(("SET_CHAT_UNIT"@).len() != ("GET_BLOCK_CHAT"@).len());
    reveal_strlit("SET_SETTINGS_UNIT");
    assert(("SET_SETTINGS_UNIT"@).len() != ("GET_BLOCK_CHAT"@).len());
    reveal_strlit("GET_CHAT_MESSAGES");
    assert(("GET_CHAT_MESSAGES"@).len() != ("GET_BLOCK_CHAT"@).len());
    reveal_strlit("SET_CHAT_MESSAGES");
    assert(("SET_CHAT_MESSAGES"@).len() != ("GET_BLOCK_CHAT"@).len());
    reveal_strlit("GET_EDIT_MESSAGE");
    assert(("GET_EDIT_MESSAGE"@).len() != ("GET_BLOCK_CHAT"@).len());
    reveal_strlit("SET_EDIT_MESSAGE");
    assert(("SET_EDIT_MESSAGE"@).len() != ("GET_BLOCK_CHAT"@).len());
    reveal_strlit("GET_CREATE_MESSAGE");
    assert(("GET_CREATE_MESSAGE"@).len() != ("GET_BLOCK_CHAT"@).len());
    reveal_strlit("SET_CREATE_MESSAGE");
    assert(("SET_CREATE_MESSAGE"@).len() != ("GET_BLOCK_CHAT"@).len());
    reveal_strlit("GET_CREATE_QUOTE");
    assert(("GET_CREATE_QUOTE"@).len() != ("GET_BLOCK_CHAT"@).len());
    reveal_strlit("SET_CREATE_QUOTE");
    assert(("SET_CREATE_QUOTE"@).len() != ("GET_BLOCK_CHAT"@).len());
    reveal_strlit("GET_DELETE_MESSAGE");
    assert(("GET_DELETE_MESSAGE"@).len() != ("GET_BLOCK_CHAT"@).len());
    reveal_strlit("SET_DELETE_MESSAGE");
    assert(("SET_DELETE_MESSAGE"@).len() != ("GET_BLOCK_CHAT"@).len());
    reveal_strlit("GET_TO_MUTE");
    assert(("GET_TO_MUTE"@).len() != ("GET_BLOCK_CHAT"@).len());
    reveal_strlit("GET_TO_BAN");
    assert(("GET_TO_BAN"@).len() != ("GET_BLOCK_CHAT"@).len());
    reveal_strlit("GET_TO_UNMUTE");
    assert(("GET_TO_UNMUTE"@).len() != ("GET_BLOCK_CHAT"@).len());
    reveal_strlit("GET_TO_UNBAN");
    assert(("GET_TO_UNBAN"@).len() != ("GET_BLOCK_CHAT"@).len());
    reveal_strlit("SET_BAN_LIST");
    assert(("SET_BAN_LIST"@).len() != ("GET_BLOCK_CHAT"@).len());
    reveal_strlit("SET_MUTE_LIST");
    assert(("SET_MUTE_LIST"@).len() != ("GET_BLOCK_CHAT"@).len());
    reveal_strlit("GET_RECORD");
    assert(("GET_RECORD"@).len() != ("GET_BLOCK_CHAT"@).len());
    reveal_strlit("SET_RECORDING");
    assert(("SET_RECORDING"@).len() != ("GET_BLOCK_CHAT"@).len());
    reveal_strlit("GET_VIDEO_FIND_MANY");
    assert(("GET_VIDEO_FIND_MANY"@).len() != ("GET_BLOCK_CHAT"@).len());
    reveal_strlit("SET_VIDEO_FIND_MANY");
    assert(("SET_VIDEO_FIND_MANY"@).len() != ("GET_BLOCK_CHAT"@).len());
    reveal_strlit("GET_VIDEO_FIND_FIRST");
    assert(("GET_VIDEO_FIND_FIRST"@).len() != ("GET_BLOCK_CHAT"@).len());
    reveal_strlit("SET_VIDEO_FIND_FIRST");
    assert(("SET_VIDEO_FIND_FIRST"@).len() != ("GET_BLOCK_CHAT"@).len());
    reveal_strlit("GET_ASK_FLOOR");
    assert(("GET_ASK_FLOOR"@).len() != ("GET_BLOCK_CHAT"@).len());
    reveal_strlit("SET_ASK_FLOOR");
    assert(("SET_ASK_FLOOR"@).len() != ("GET_BLOCK_CHAT"@).len());
    reveal_strlit("GET_MUTE_FOR_ALL");
    assert(("GET_MUTE_FOR_ALL"@).len() != ("GET_BLOCK_CHAT"@).len());
    reveal_strlit("SET_MUTE_FOR_ALL");
    assert(("SET_MUTE_FOR_ALL"@).len() != ("GET_BLOCK_CHAT"@).len());
}

proof fn token_names_set_block_chat()
    ensures
        from_wire_token(wire_token(MessageType::SET_BLOCK_CHAT)) == Some(MessageType::SET_BLOCK_CHAT),
{
    reveal_strlit("SET_BLOCK_CHAT");
    reveal_strlit("GET_LOCALE");
    assert(("GET_LOCALE"@).len() != ("SET_BLOCK_CHAT"@).len());
    reveal_strlit("SET_LOCALE");
    assert(("SET_LOCALE"@).len() != ("SET_BLOCK_CHAT"@).len());
    reveal_strlit("GET_USER_ID");
    assert(("GET_USER_ID"@).len() != ("SET_BLOCK_CHAT"@).len());
    reveal_strlit("SET_USER_ID");
    assert(("SET_USER_ID"@).len() != ("SET_BLOCK_CHAT"@).len());
    reveal_strlit("GET_LOGIN");
    assert(("GET_LOGIN"@).len() != ("SET_BLOCK_CHAT"@).len());
    reveal_strlit("TOKEN");
    assert(("TOKEN"@).len() != ("SET_BLOCK_CHAT"@).len());
    reveal_strlit("OFFER");
    assert(("OFFER"@).len() != ("SET_BLOCK_CHAT"@).len());
    reveal_strlit("ANSWER");
    assert(("ANSWER"@).len() != ("SET_BLOCK_CHAT"@).len());
    reveal_strlit("CANDIDATE");
    assert(("CANDIDATE"@).len() != ("SET_BLOCK_CHAT"@).len());
    reveal_strlit("GET_ROOM");
    assert(("GET_ROOM"@).len() != ("SET_BLOCK_CHAT"@).len());
    reveal_strlit("SET_ROOM");
    assert(("SET_ROOM"@).len() != ("SET_BLOCK_CHAT"@).len());
    reveal_strlit("GET_CHAT_UNIT");
    assert(("GET_CHAT_UNIT"@).len() != ("SET_BLOCK_CHAT"@).len());
    reveal_strlit("GET_SETTINGS_UNIT");
    assert(("GET_SETTINGS_UNIT"@).len() != ("SET_BLOCK_CHAT"@).len());
    reveal_strlit("SET_ERROR");
    assert(("SET_ERROR"@).len() != ("SET_BLOCK_CHAT"@).len());
    reveal_strlit("GET_ROOM_GUESTS");
    assert(("GET_ROOM_GUESTS"@).len() != ("SET_BLOCK_CHAT"@).len());
    reveal_strlit("SET_ROOM_GUESTS");
    assert(("SET_ROOM_GUESTS"@).len() != ("SET_BLOCK_CHAT"@).len());
    reveal_strlit("SET_CHANGE_UNIT");
    assert(("SET_CHANGE_UNIT"@).len() != ("SET_BLOCK_CHAT"@).len());
    reveal_strlit("GET_MUTE");
    assert(("GET_MUTE"@).len() != ("SET_BLOCK_CHAT"@).len());
    reveal_strlit("GET_NEED_RECONNECT");
    assert(("GET_NEED_RECONNECT"@).len() != ("SET_BLOCK_CHAT"@).len());
    reveal_strlit("SET_MUTE");
    assert(("SET_MUTE"@).len() != ("SET_BLOCK_CHAT"@).len());
    reveal_strlit("GET_CLOSE_PEER_CONNECTION");
    assert(("GET_CLOSE_PEER_CONNECTION"@).len() != ("SET_BLOCK_CHAT"@).len());
    reveal_strlit("SET_CLOSE_PEER_CONNECTION");
    assert(("SET_CLOSE_PEER_CONNECTION"@).len() != ("SET_BLOCK_CHAT"@).len());
    reveal_strlit("GET_ROOM_MESSAGE");
    assert(("GET_ROOM_MESSAGE"@).len() != ("SET_BLOCK_CHAT"@).len());
    reveal_strlit("SET_ROOM_MESSAGE");
    assert(("SET_ROOM_MESSAGE"@).len() != ("SET_BLOCK_CHAT"@).len());
    reveal_strlit("SET_CHAT_UNIT");
    assert(("SET_CHAT_UNIT"@).len() != ("SET_BLOCK_CHAT"@).len());
    reveal_strlit("SET_SETTINGS_UNIT");
    assert(("SET_SETTINGS_UNIT"@).len() != ("SET_BLOCK_CHAT"@).len());
    reveal_strlit("GET_CHAT_MESSAGES");
    assert(("GET_CHAT_MESSAGES"@).len() != ("SET_BLOCK_CHAT"@).len());
    reveal_strlit("SET_CHAT_MESSAGES");
    assert(("SET_CHAT_MESSAGES"@).len() != ("SET_BLOCK_CHAT"@).len());
    reveal_strlit("GET_EDIT_MESSAGE");
    assert(("GET_EDIT_MESSAGE"@).len() != ("SET_BLOCK_CHAT"@).len());
    reveal_strlit("SET_EDIT_MESSAGE");
    assert(("SET_EDIT_MESSAGE"@).len() != ("SET_BLOCK_CHAT"@).len());
    reveal_strlit("GET_CREATE_MESSAGE");
    assert(("GET_CREATE_MESSAGE"@).len() != ("SET_BLOCK_CHAT"@).len());
    reveal_strlit("SET_CREATE_MESSAGE");
    assert(("SET_CREATE_MESSAGE"@).len() != ("SET_BLOCK_CHAT"@).len());
    reveal_strlit("GET_CREATE_QUOTE");
    assert(("GET_CREATE_QUOTE"@).len() != ("SET_BLOCK_CHAT"@).len());
    reveal_strlit("SET_CREATE_QUOTE");
    assert(("SET_CREATE_QUOTE"@).len() != ("SET_BLOCK_CHAT"@).len());
    reveal_strlit("GET_DELETE_MESSAGE");
    assert(("GET_DELETE_MESSAGE"@).len() != ("SET_BLOCK_CHAT"@).len());
    reveal_strlit("SET_DELETE_MESSAGE");
    assert(("SET_DELETE_MESSAGE"@).len() != ("SET_BLOCK_CHAT"@).len());
    reveal_strlit("GET_TO_MUTE");
    assert(("GET_TO_MUTE"@).len() != ("SET_BLOCK_CHAT"@).len());
    reveal_strlit("GET_TO_BAN");
    assert(("GET_TO_BAN"@).len() != ("SET_BLOCK_CHAT"@).len());
    reveal_strlit("GET_TO_UNMUTE");
    assert(("GET_TO_UNMUTE"@).len() != ("SET_BLOCK_CHAT"@).len());
    reveal_strlit("GET_TO_UNBAN");
    assert(("GET_TO_UNBAN"@).len() != ("SET_BLOCK_CHAT"@).len());
    reveal_strlit("SET_BAN_LIST");
    assert(("SET_BAN_LIST"@).len() != ("SET_BLOCK_CHAT"@).len());
    reveal_strlit("SET_MUTE_LIST");
    assert(("SET_MUTE_LIST"@).len() != ("SET_BLOCK_CHAT"@).len());
    reveal_strlit("GET_RECORD");
    assert(("GET_RECORD"@).len() != ("SET_BLOCK_CHAT"@).len());
    reveal_strlit("SET_RECORDING");
    assert(("SET_RECORDING"@).len() != ("SET_BLOCK_CHAT"@).len());
    reveal_strlit("GET_VIDEO_FIND_MANY");
    assert(("GET_VIDEO_FIND_MANY"@).len() != ("SET_BLOCK_CHAT"@).len());
    reveal_strlit("SET_VIDEO_FIND_MANY");
    assert(("SET_VIDEO_FIND_MANY"@).len() != ("SET_BLOCK_CHAT"@).len());
    reveal_strlit("GET_VIDEO_FIND_FIRST");
    assert(("GET_VIDEO_FIND_FIRST"@).len() != ("SET_BLOCK_CHAT"@).len());
    reveal_strlit("SET_VIDEO_FIND_FIRST");
    assert(("SET_VIDEO_FIND_FIRST"@).len() != ("SET_BLOCK_CHAT"@).len());
    reveal_strlit("GET_ASK_FLOOR");
    assert(("GET_ASK_FLOOR"@).len() != ("SET_BLOCK_CHAT"@).len());
    reveal_strlit("SET_ASK_FLOOR");
    assert(("SET_ASK_FLOOR"@).len() != ("SET_BLOCK_CHAT"@).len());
    reveal_strlit("GET_MUTE_FOR_ALL");
    assert(("GET_MUTE_FOR_ALL"@).len() != ("SET_BLOCK_CHAT"@).len());
    reveal_strlit("SET_MUTE_FOR_ALL");
    assert(("SET_MUTE_FOR_ALL"@).len() != ("SET_BLOCK_CHAT"@).len());
    reveal_strlit("GET_BLOCK_CHAT");
    assert(("GET_BLOCK_CHAT"@)[0] != ("SET_BLOCK_CHAT"@)[0]);
}

proof fn token_names_get_video_track()
    ensures
        from_wire_token(wire_token(MessageType::GET_VIDEO_TRACK)) == Some(MessageType::GET_VIDEO_TRACK),
{
    reveal_strlit("GET_VIDEO_TRACK");
    reveal_strlit("GET_LOCALE");
    assert(("GET_LOCALE"@).len() != ("GET_VIDEO_TRACK"@).len());
    reveal_strlit("SET_LOCALE");
    assert(("SET_LOCALE"@).len() != ("GET_VIDEO_TRACK"@).len());
    reveal_strlit("GET_USER_ID");
    assert(("GET_USER_ID"@).len() != ("GET_VIDEO_TRACK"@).len());
    reveal_strlit("SET_USER_ID");
    assert(("SET_USER_ID"@).len() != ("GET_VIDEO_TRACK"@).len());
    reveal_strlit("GET_LOGIN");
    assert(("GET_LOGIN"@).len() != ("GET_VIDEO_TRACK"@).len());
    reveal_strlit("TOKEN");
    assert(("TOKEN"@).len() != ("GET_VIDEO_TRACK"@).len());
    reveal_strlit("OFFER");
    assert(("OFFER"@).len() != ("GET_VIDEO_TRACK"@).len());
    reveal_strlit("ANSWER");
    assert(("ANSWER"@).len() != ("GET_VIDEO_TRACK"@).len());
    reveal_strlit("CANDIDATE");
    assert(("CANDIDATE"@).len() != ("GET_VIDEO_TRACK"@).len());
    reveal_strlit("GET_ROOM");
    assert(("GET_ROOM"@).len() != ("GET_VIDEO_TRACK"@).len());
    reveal_strlit("SET_ROOM");
    assert(("SET_ROOM"@).len() != ("GET_VIDEO_TRACK"@).len());
    reveal_strlit("GET_CHAT_UNIT");
    assert(("GET_CHAT_UNIT"@).len() != ("GET_VIDEO_TRACK"@).len());
    reveal_strlit("GET_SETTINGS_UNIT");
    assert(("GET_SETTINGS_UNIT"@).len() != ("GET_VIDEO_TRACK"@).len());
    reveal_strlit("SET_ERROR");
    assert(("SET_ERROR"@).len() != ("GET_VIDEO_TRACK"@).len());
    reveal_strlit("GET_ROOM_GUESTS");
    assert(("GET_ROOM_GUESTS"@)[4] != ("GET_VIDEO_TRACK"@)[4]);
    reveal_strlit("SET_ROOM_GUESTS");
    assert(("SET_ROOM_GUESTS"@)[0] != ("GET_VIDEO_TRACK"@)[0]);
    reveal_strlit("SET_CHANGE_UNIT");
    assert(("SET_CHANGE_UNIT"@)[0] != ("GET_VIDEO_TRACK"@)[0]);
    reveal_strlit("GET_MUTE");
    assert(("GET_MUTE"@).len() != ("GET_VIDEO_TRACK"@).len());
    reveal_strlit("GET_NEED_RECONNECT");
    assert(("GET_NEED_RECONNECT"@).len() != ("GET_VIDEO_TRACK"@).len());
    reveal_strlit("SET_MUTE");
    assert(("SET_MUTE"@).len() != ("GET_VIDEO_TRACK"@).len());
    reveal_strlit("GET_CLOSE_PEER_CONNECTION");
    assert(("GET_CLOSE_PEER_CONNECTION"@).len() != ("GET_VIDEO_TRACK"@).len());
    reveal_strlit("SET_CLOSE_PEER_CONNECTION");
    assert(("SET_CLOSE_PEER_CONNECTION"@).len() != ("GET_VIDEO_TRACK"@).len());
    reveal_strlit("GET_ROOM_MESSAGE");
    assert(("GET_ROOM_MESSAGE"@).len() != ("GET_VIDEO_TRACK"@).len());
    reveal_strlit("SET_ROOM_MESSAGE");
    assert(("SET_ROOM_MESSAGE"@).len() != ("GET_VIDEO_TRACK"@).len());
    reveal_strlit("SET_CHAT_UNIT");
    assert(("SET_CHAT_UNIT"@).len() != ("GET_VIDEO_TRACK"@).len());
    reveal_strlit("SET_SETTINGS_UNIT");
    assert(("SET_SETTINGS_UNIT"@).len() != ("GET_VIDEO_TRACK"@).len());
    reveal_strlit("GET_CHAT_MESSAGES");
    assert(("GET_CHAT_MESSAGES"@).len() != ("GET_VIDEO_TRACK"@).len());
    reveal_strlit("SET_CHAT_MESSAGES");
    assert(("SET_CHAT_MESSAGES"@).len() != ("GET_VIDEO_TRACK"@).len());
    reveal_strlit("GET_EDIT_MESSAGE");
    assert(("GET_EDIT_MESSAGE"@).len() != ("GET_VIDEO_TRACK"@).len());
    reveal_strlit("SET_EDIT_MESSAGE");
    assert(("SET_EDIT_MESSAGE"@).len() != ("GET_VIDEO_TRACK"@).len());
    reveal_strlit("GET_CREATE_MESSAGE");
    assert(("GET_CREATE_MESSAGE"@).len() != ("GET_VIDEO_TRACK"@).len());
    reveal_strlit("SET_CREATE_MESSAGE");
    assert(("SET_CREATE_MESSAGE"@).len() != ("GET_VIDEO_TRACK"@).len());
    reveal_strlit("GET_CREATE_QUOTE");
    assert(("GET_CREATE_QUOTE"@).len() != ("GET_VIDEO_TRACK"@).len());
    reveal_strlit("SET_CREATE_QUOTE");
    assert(("SET_CREATE_QUOTE"@).len() != ("GET_VIDEO_TRACK"@).len());
    reveal_strlit("GET_DELETE_MESSAGE");
    assert(("GET_DELETE_MESSAGE"@).len() != ("GET_VIDEO_TRACK"@).len());
    reveal_strlit("SET_DELETE_MESSAGE");
    assert(("SET_DELETE_MESSAGE"@).len() != ("GET_VIDEO_TRACK"@).len());
    reveal_strlit("GET_TO_MUTE");
    assert(("GET_TO_MUTE"@).len() != ("GET_VIDEO_TRACK"@).len());
    reveal_strlit("GET_TO_BAN");
    assert(("GET_TO_BAN"@).len() != ("GET_VIDEO_TRACK"@).len());
    reveal_strlit("GET_TO_UNMUTE");
    assert(("GET_TO_UNMUTE"@).len() != ("GET_VIDEO_TRACK"@).len());
    reveal_strlit("GET_TO_UNBAN");
    assert(("GET_TO_UNBAN"@).len() != ("GET_VIDEO_TRACK"@).len());
    reveal_strlit("SET_BAN_LIST");
    assert(("SET_BAN_LIST"@).len() != ("GET_VIDEO_TRACK"@).len());
    reveal_strlit("SET_MUTE_LIST");
    assert(("SET_MUTE_LIST"@).len() != ("GET_VIDEO_TRACK"@).len());
    reveal_strlit("GET_RECORD");
    assert(("GET_RECORD"@).len() != ("GET_VIDEO_TRACK"@).len());
    reveal_strlit("SET_RECORDING");
    assert(("SET_RECORDING"@).len() != ("GET_VIDEO_TRACK"@).len());
    reveal_strlit("GET_VIDEO_FIND_MANY");
    assert(("GET_VIDEO_FIND_MANY"@).len() != ("GET_VIDEO_TRACK"@).len());
    reveal_strlit("SET_VIDEO_FIND_MANY");
    assert(("SET_VIDEO_FIND_MANY"@).len() != ("GET_VIDEO_TRACK"@).len());
    reveal_strlit("GET_VIDEO_FIND_FIRST");
    assert(("GET_VIDEO_FIND_FIRST"@).len() != ("GET_VIDEO_TRACK"@).len());
    reveal_strlit("SET_VIDEO_FIND_FIRST");
    assert(("SET_VIDEO_FIND_FIRST"@).len() != ("GET_VIDEO_TRACK"@).len());
    reveal_strlit("GET_ASK_FLOOR");
    assert(("GET_ASK_FLOOR"@).len() != ("GET_VIDEO_TRACK"@).len());
    reveal_strlit("SET_ASK_FLOOR");
    assert(("SET_ASK_FLOOR"@).len() != ("GET_VIDEO_TRACK"@).len());
    reveal_strlit("GET_MUTE_FOR_ALL");
    assert(("GET_MUTE_FOR_ALL"@).len() != ("GET_VIDEO_TRACK"@).len());
    reveal_strlit("SET_MUTE_FOR_ALL");
    assert(("SET_MUTE_FOR_ALL"@).len() != ("GET_VIDEO_TRACK"@).len());
    reveal_strlit("GET_BLOCK_CHAT");
    assert(("GET_BLOCK_CHAT"@).len() != ("GET_VIDEO_TRACK"@).len());
    reveal_strlit("SET_BLOCK_CHAT");
    assert(("SET_BLOCK_CHAT"@).len() != ("GET_VIDEO_TRACK"@).len());
}

proof fn token_names_set_video_track()
    ensures
        from_wire_token(wire_token(MessageType::SET_VIDEO_TRACK)) == Some(MessageType::SET_VIDEO_TRACK),
{
    reveal_strlit("SET_VIDEO_TRACK");
    reveal_strlit("GET_LOCALE");
    assert(("GET_LOCALE"@).len() != ("SET_VIDEO_TRACK"@).len());
    reveal_strlit("SET_LOCALE");
    assert(("SET_LOCALE"@).len() != ("SET_VIDEO_TRACK"@).len());
    reveal_strlit("GET_USER_ID");
    assert(("GET_USER_ID"@).len() != ("SET_VIDEO_TRACK"@).len());
    reveal_strlit("SET_USER_ID");
    assert(("SET_USER_ID"@).len() != ("SET_VIDEO_TRACK"@).len());
    reveal_strlit("GET_LOGIN");
    assert(("GET_LOGIN"@).len() != ("SET_VIDEO_TRACK"@).len());
    reveal_strlit("TOKEN");
    assert(("TOKEN"@).len() != ("SET_VIDEO_TRACK"@).len());
    reveal_strlit("OFFER");
    assert(("OFFER"@).len() != ("SET_VIDEO_TRACK"@).len());
    reveal_strlit("ANSWER");
    assert(("ANSWER"@).len() != ("SET_VIDEO_TRACK"@).len());
    reveal_strlit("CANDIDATE");
    assert(("CANDIDATE"@).len() != ("SET_VIDEO_TRACK"@).len());
    reveal_strlit("GET_ROOM");
    assert(("GET_ROOM"@).len() != ("SET_VIDEO_TRACK"@).len());
    reveal_strlit("SET_ROOM");
    assert(("SET_ROOM"@).len() != ("SET_VIDEO_TRACK"@).len());
    reveal_strlit("GET_CHAT_UNIT");
    assert(("GET_CHAT_UNIT"@).len() != ("SET_VIDEO_TRACK"@).len());
    reveal_strlit("GET_SETTINGS_UNIT");
    assert(("GET_SETTINGS_UNIT"@).len() != ("SET_VIDEO_TRACK"@).len());
    reveal_strlit("SET_ERROR");
    assert(("SET_ERROR"@).len() != ("SET_VIDEO_TRACK"@).len());
    reveal_strlit("GET_ROOM_GUESTS");
    assert(("GET_ROOM_GUESTS"@)[0] != ("SET_VIDEO_TRACK"@)[0]);
    reveal_strlit("SET_ROOM_GUESTS");
    assert(("SET_ROOM_GUESTS"@)[4] != ("SET_VIDEO_TRACK"@)[4]);
    reveal_strlit("SET_CHANGE_UNIT");
    assert(("SET_CHANGE_UNIT"@)[4] != ("SET_VIDEO_TRACK"@)[4]);
    reveal_strlit("GET_MUTE");
    assert(("GET_MUTE"@).len() != ("SET_VIDEO_TRACK"@).len());
    reveal_strlit("GET_NEED_RECONNECT");
    assert(("GET_NEED_RECONNECT"@).len() != ("SET_VIDEO_TRACK"@).len());
    reveal_strlit("SET_MUTE");
    assert(("SET_MUTE"@).len() != ("SET_VIDEO_TRACK"@).len());
    reveal_strlit("GET_CLOSE_PEER_CONNECTION");
    assert(("GET_CLOSE_PEER_CONNECTION"@).len() != ("SET_VIDEO_TRACK"@).len());
    reveal_strlit("SET_CLOSE_PEER_CONNECTION");
    assert(("SET_CLOSE_PEER_CONNECTION"@).len() != ("SET_VIDEO_TRACK"@).len());
    reveal_strlit("GET_ROOM_MESSAGE");
    assert(("GET_ROOM_MESSAGE"@).len() != ("SET_VIDEO_TRACK"@).len());
    reveal_strlit("SET_ROOM_MESSAGE");
    assert(("SET_ROOM_MESSAGE"@).len() != ("SET_VIDEO_TRACK"@).len());
    reveal_strlit("SET_CHAT_UNIT");
    assert(("SET_CHAT_UNIT"@).len() != ("SET_VIDEO_TRACK"@).len());
    reveal_strlit("SET_SETTINGS_UNIT");
    assert(("SET_SETTINGS_UNIT"@).len() != ("SET_VIDEO_TRACK"@).len());
    reveal_strlit("GET_CHAT_MESSAGES");
    assert(("GET_CHAT_MESSAGES"@).len() != ("SET_VIDEO_TRACK"@).len());
    reveal_strlit("SET_CHAT_MESSAGES");
    assert(("SET_CHAT_MESSAGES"@).len() != ("SET_VIDEO_TRACK"@).len());
    reveal_strlit("GET_EDIT_MESSAGE");
    assert(("GET_EDIT_MESSAGE"@).len() != ("SET_VIDEO_TRACK"@).len());
    reveal_strlit("SET_EDIT_MESSAGE");
    assert(("SET_EDIT_MESSAGE"@).len() != ("SET_VIDEO_TRACK"@).len());
    reveal_strlit("GET_CREATE_MESSAGE");
    assert(("GET_CREATE_MESSAGE"@).len() != ("SET_VIDEO_TRACK"@).len());
    reveal_strlit("SET_CREATE_MESSAGE");
    assert(("SET_CREATE_MESSAGE"@).len() != ("SET_VIDEO_TRACK"@).len());
    reveal_strlit("GET_CREATE_QUOTE");
    assert(("GET_CREATE_QUOTE"@).len() != ("SET_VIDEO_TRACK"@).len());
    reveal_strlit("SET_CREATE_QUOTE");
    assert(("SET_CREATE_QUOTE"@).len() != ("SET_VIDEO_TRACK"@).len());
    reveal_strlit("GET_DELETE_MESSAGE");
    assert(("GET_DELETE_MESSAGE"@).len() != ("SET_VIDEO_TRACK"@).len());
    reveal_strlit("SET_DELETE_MESSAGE");
    assert(("SET_DELETE_MESSAGE"@).len() != ("SET_VIDEO_TRACK"@).len());
    reveal_strlit("GET_TO_MUTE");
    assert(("GET_TO_MUTE"@).len() != ("SET_VIDEO_TRACK"@).len());
    reveal_strlit("GET_TO_BAN");
    assert(("GET_TO_BAN"@).len() != ("SET_VIDEO_TRACK"@).len());
    reveal_strlit("GET_TO_UNMUTE");
    assert(("GET_TO_UNMUTE"@).len() != ("SET_VIDEO_TRACK"@).len());
    reveal_strlit("GET_TO_UNBAN");
    assert(("GET_TO_UNBAN"@).len() != ("SET_VIDEO_TRACK"@).len());
    reveal_strlit("SET_BAN_LIST");
    assert(("SET_BAN_LIST"@).len() != ("SET_VIDEO_TRACK"@).len());
    reveal_strlit("SET_MUTE_LIST");
    assert(("SET_MUTE_LIST"@).len() != ("SET_VIDEO_TRACK"@).len());
    reveal_strlit("GET_RECORD");
    assert(("GET_RECORD"@).len() != ("SET_VIDEO_TRACK"@).len());
    reveal_strlit("SET_RECORDING");
    assert(("SET_RECORDING"@).len() != ("SET_VIDEO_TRACK"@).len());
    reveal_strlit("GET_VIDEO_FIND_MANY");
    assert(("GET_VIDEO_FIND_MANY"@).len() != ("SET_VIDEO_TRACK"@).len());
    reveal_strlit("SET_VIDEO_FIND_MANY");
    assert(("SET_VIDEO_FIND_MANY"@).len() != ("SET_VIDEO_TRACK"@).len());
    reveal_strlit("GET_VIDEO_FIND_FIRST");
    assert(("GET_VIDEO_FIND_FIRST"@).len() != ("SET_VIDEO_TRACK"@).len());
    reveal_strlit("SET_VIDEO_FIND_FIRST");
    assert(("SET_VIDEO_FIND_FIRST"@).len() != ("SET_VIDEO_TRACK"@).len());
    reveal_strlit("GET_ASK_FLOOR");
    assert(("GET_ASK_FLOOR"@).len() != ("SET_VIDEO_TRACK"@).len());
    reveal_strlit("SET_ASK_FLOOR");
    assert(("SET_ASK_FLOOR"@).len() != ("SET_VIDEO_TRACK"@).len());
    reveal_strlit("GET_MUTE_FOR_ALL");
    assert(("GET_MUTE_FOR_ALL"@).len() != ("SET_VIDEO_TRACK"@).len());
    reveal_strlit("SET_MUTE_FOR_ALL");
    assert(("SET_MUTE_FOR_ALL"@).len() != ("SET_VIDEO_TRACK"@).len());
    reveal_strlit("GET_BLOCK_CHAT");
    assert(("GET_BLOCK_CHAT"@).len() != ("SET_VIDEO_TRACK"@).len());
    reveal_strlit("SET_BLOCK_CHAT");
    assert(("SET_BLOCK_CHAT"@).len() != ("SET_VIDEO_TRACK"@).len());
    reveal_strlit("GET_VIDEO_TRACK");
    assert(("GET_VIDEO_TRACK"@)[0] != ("SET_VIDEO_TRACK"@)[0]);
}

proof fn token_names_get_to_admin()
    ensures
        from_wire_token(wire_token(MessageType::GET_TO_ADMIN)) == Some(MessageType::GET_TO_ADMIN),
{
    reveal_strlit("GET_TO_ADMIN");
    reveal_strlit("GET_LOCALE");
    assert(("GET_LOCALE"@).len() != ("GET_TO_ADMIN"@).len());
    reveal_strlit("SET_LOCALE");
    assert(("SET_LOCALE"@).len() != ("GET_TO_ADMIN"@).len());
    reveal_strlit("GET_USER_ID");
    assert(("GET_USER_ID"@).len() != ("GET_TO_ADMIN"@).len());
    reveal_strlit("SET_USER_ID");
    assert(("SET_USER_ID"@).len() != ("GET_TO_ADMIN"@).len());
    reveal_strlit("GET_LOGIN");
    assert(("GET_LOGIN"@).len() != ("GET_TO_ADMIN"@).len());
    reveal_strlit("TOKEN");
    assert(("TOKEN"@).len() != ("GET_TO_ADMIN"@).len());
    reveal_strlit("OFFER");
    assert(("OFFER"@).len() != ("GET_TO_ADMIN"@).len());
    reveal_strlit("ANSWER");
    assert(("ANSWER"@).len() != ("GET_TO_ADMIN"@).len());
    reveal_strlit("CANDIDATE");
    assert(("CANDIDATE"@).len() != ("GET_TO_ADMIN"@).len());
    reveal_strlit("GET_ROOM");
    assert(("GET_ROOM"@).len() != ("GET_TO_ADMIN"@).len());
    reveal_strlit("SET_ROOM");
    assert(("SET_ROOM"@).len() != ("GET_TO_ADMIN"@).len());
    reveal_strlit("GET_CHAT_UNIT");
    assert(("GET_CHAT_UNIT"@).len() != ("GET_TO_ADMIN"@).len());
    reveal_strlit("GET_SETTINGS_UNIT");
    assert(("GET_SETTINGS_UNIT"@).len() != ("GET_TO_ADMIN"@).len());
    reveal_strlit("SET_ERROR");
    assert(("SET_ERROR"@).len() != ("GET_TO_ADMIN"@).len());
    reveal_strlit("GET_ROOM_GUESTS");
    assert(("GET_ROOM_GUESTS"@).len() != ("GET_TO_ADMIN"@).len());
    reveal_strlit("SET_ROOM_GUESTS");
    assert(("SET_ROOM_GUESTS"@).len() != ("GET_TO_ADMIN"@).len());
    reveal_strlit("SET_CHANGE_UNIT");
    assert(("SET_CHANGE_UNIT"@).len() != ("GET_TO_ADMIN"@).len());
    reveal_strlit("GET_MUTE");
    assert(("GET_MUTE"@).len() != ("GET_TO_ADMIN"@).len());
    reveal_strlit("GET_NEED_RECONNECT");
    assert(("GET_NEED_RECONNECT"@).len() != ("GET_TO_ADMIN"@).len());
    reveal_strlit("SET_MUTE");
    assert(("SET_MUTE"@).len() != ("GET_TO_ADMIN"@).len());
    reveal_strlit("GET_CLOSE_PEER_CONNECTION");
    assert(("GET_CLOSE_PEER_CONNECTION"@).len() != ("GET_TO_ADMIN"@).len());
    reveal_strlit("SET_CLOSE_PEER_CONNECTION");
    assert(("SET_CLOSE_PEER_CONNECTION"@).len() != ("GET_TO_ADMIN"@).len());
    reveal_strlit("GET_ROOM_MESSAGE");
    assert(("GET_ROOM_MESSAGE"@).len() != ("GET_TO_ADMIN"@).len());
    reveal_strlit("SET_ROOM_MESSAGE");
    assert(("SET_ROOM_MESSAGE"@).len() != ("GET_TO_ADMIN"@).len());
    reveal_strlit("SET_CHAT_UNIT");
    assert(("SET_CHAT_UNIT"@).len() != ("GET_TO_ADMIN"@).len());
    reveal_strlit("SET_SETTINGS_UNIT");
    assert(("SET_SETTINGS_UNIT"@).len() != ("GET_TO_ADMIN"@).len());
    reveal_strlit("GET_CHAT_MESSAGES");
    assert(("GET_CHAT_MESSAGES"@).len() != ("GET_TO_ADMIN"@).len());
    reveal_strlit("SET_CHAT_MESSAGES");
    assert(("SET_CHAT_MESSAGES"@).len() != ("GET_TO_ADMIN"@).len());
    reveal_strlit("GET_EDIT_MESSAGE");
    assert(("GET_EDIT_MESSAGE"@).len() != ("GET_TO_ADMIN"@).len());
    reveal_strlit("SET_EDIT_MESSAGE");
    assert(("SET_EDIT_MESSAGE"@).len() != ("GET_TO_ADMIN"@).len());
    reveal_strlit("GET_CREATE_MESSAGE");
    assert(("GET_CREATE_MESSAGE"@).len() != ("GET_TO_ADMIN"@).len());
    reveal_strlit("SET_CREATE_MESSAGE");
    assert(("SET_CREATE_MESSAGE"@).len() != ("GET_TO_ADMIN"@).len());
    reveal_strlit("GET_CREATE_QUOTE");
    assert(("GET_CREATE_QUOTE"@).len() != ("GET_TO_ADMIN"@).len());
    reveal_strlit("SET_CREATE_QUOTE");
    assert(("SET_CREATE_QUOTE"@).len() != ("GET_TO_ADMIN"@).len());
    reveal_strlit("GET_DELETE_MESSAGE");
    assert(("GET_DELETE_MESSAGE"@).len() != ("GET_TO_ADMIN"@).len());
    reveal_strlit("SET_DELETE_MESSAGE");
    assert(("SET_DELETE_MESSAGE"@).len() != ("GET_TO_ADMIN"@).len());
    reveal_strlit("GET_TO_MUTE");
    assert(("GET_TO_MUTE"@).len() != ("GET_TO_ADMIN"@).len());
    reveal_strlit("GET_TO_BAN");
    assert(("GET_TO_BAN"@).len() != ("GET_TO_ADMIN"@).len());
    reveal_strlit("GET_TO_UNMUTE");
    assert(("GET_TO_UNMUTE"@).len() != ("GET_TO_ADMIN"@).len());
    reveal_strlit("GET_TO_UNBAN");
    assert(("GET_TO_UNBAN"@)[7] != ("GET_TO_ADMIN"@)[7]);
    reveal_strlit("SET_BAN_LIST");
    assert(("SET_BAN_LIST"@)[0] != ("GET_TO_ADMIN"@)[0]);
    reveal_strlit("SET_MUTE_LIST");
    assert(("SET_MUTE_LIST"@).len() != ("GET_TO_ADMIN"@).len());
    reveal_strlit("GET_RECORD");
    assert(("GET_RECORD"@).len() != ("GET_TO_ADMIN"@).len());
    reveal_strlit("SET_RECORDING");
    assert(("SET_RECORDING"@).len() != ("GET_TO_ADMIN"@).len());
    reveal_strlit("GET_VIDEO_FIND_MANY");
    assert(("GET_VIDEO_FIND_MANY"@).len() != ("GET_TO_ADMIN"@).len());
    reveal_strlit("SET_VIDEO_FIND_MANY");
    assert(("SET_VIDEO_FIND_MANY"@).len() != ("GET_TO_ADMIN"@).len());
    reveal_strlit("GET_VIDEO_FIND_FIRST");
    assert(("GET_VIDEO_FIND_FIRST"@).len() != ("GET_TO_ADMIN"@).len());
    reveal_strlit("SET_VIDEO_FIND_FIRST");
    assert(("SET_VIDEO_FIND_FIRST"@).len() != ("GET_TO_ADMIN"@).len());
    reveal_strlit("GET_ASK_FLOOR");
    assert(("GET_ASK_FLOOR"@).len() != ("GET_TO_ADMIN"@).len());
    reveal_strlit("SET_ASK_FLOOR");
    assert(("SET_ASK_FLOOR"@).len() != ("GET_TO_ADMIN"@).len());
    reveal_strlit("GET_MUTE_FOR_ALL");
    assert(("GET_MUTE_FOR_ALL"@).len() != ("GET_TO_ADMIN"@).len());
    reveal_strlit("SET_MUTE_FOR_ALL");
    assert(("SET_MUTE_FOR_ALL"@).len() != ("GET_TO_ADMIN"@).len());
    reveal_strlit("GET_BLOCK_CHAT");
    assert(("GET_BLOCK_CHAT"@).len() != ("GET_TO_ADMIN"@).len());
    reveal_strlit("SET_BLOCK_CHAT");
    assert(("SET_BLOCK_CHAT"@).len() != ("GET_TO_ADMIN"@).len());
    reveal_strlit("GET_VIDEO_TRACK");
    assert(("GET_VIDEO_TRACK"@).len() != ("GET_TO_ADMIN"@).len());
    reveal_strlit("SET_VIDEO_TRACK");
    assert(("SET_VIDEO_TRACK"@).len() != ("GET_TO_ADMIN"@).len());
}

proof fn token_names_set_to_admin()
    ensures
        from_wire_token(wire_token(MessageType::SET_TO_ADMIN)) == Some(MessageType::SET_TO_ADMIN),
{
    reveal_strlit("SET_TO_ADMIN");
    reveal_strlit("GET_LOCALE");
    assert(("GET_LOCALE"@).len() != ("SET_TO_ADMIN"@).len());
    reveal_strlit("SET_LOCALE");
    assert(("SET_LOCALE"@).len() != ("SET_TO_ADMIN"@).len());
    reveal_strlit("GET_USER_ID");
    assert(("GET_USER_ID"@).len() != ("SET_TO_ADMIN"@).len());
    reveal_strlit("SET_USER_ID");
    assert(("SET_USER_ID"@).len() != ("SET_TO_ADMIN"@).len());
    reveal_strlit("GET_LOGIN");
    assert(("GET_LOGIN"@).len() != ("SET_TO_ADMIN"@).len());
    reveal_strlit("TOKEN");
    assert(("TOKEN"@).len() != ("SET_TO_ADMIN"@).len());
    reveal_strlit("OFFER");
    assert(("OFFER"@).len() != ("SET_TO_ADMIN"@).len());
    reveal_strlit("ANSWER");
    assert(("ANSWER"@).len() != ("SET_TO_ADMIN"@).len());
    reveal_strlit("CANDIDATE");
    assert(("CANDIDATE"@).len() != ("SET_TO_ADMIN"@).len());
    reveal_strlit("GET_ROOM");
    assert(("GET_ROOM"@).len() != ("SET_TO_ADMIN"@).len());
    reveal_strlit("SET_ROOM");
    assert(("SET_ROOM"@).len() != ("SET_TO_ADMIN"@).len());
    reveal_strlit("GET_CHAT_UNIT");
    assert(("GET_CHAT_UNIT"@).len() != ("SET_TO_ADMIN"@).len());
    reveal_strlit("GET_SETTINGS_UNIT");
    assert(("GET_SETTINGS_UNIT"@).len() != ("SET_TO_ADMIN"@).len());
    reveal_strlit("SET_ERROR");
    assert(("SET_ERROR"@).len() != ("SET_TO_ADMIN"@).len());
    reveal_strlit("GET_ROOM_GUESTS");
    assert(("GET_ROOM_GUESTS"@).len() != ("SET_TO_ADMIN"@).len());
    reveal_strlit("SET_ROOM_GUESTS");
    assert(("SET_ROOM_GUESTS"@).len() != ("SET_TO_ADMIN"@).len());
    reveal_strlit("SET_CHANGE_UNIT");
    assert(("SET_CHANGE_UNIT"@).len() != ("SET_TO_ADMIN"@).len());
    reveal_strlit("GET_MUTE");
    assert(("GET_MUTE"@).len() != ("SET_TO_ADMIN"@).len());
    reveal_strlit("GET_NEED_RECONNECT");
    assert(("GET_NEED_RECONNECT"@).len() != ("SET_TO_ADMIN"@).len());
    reveal_strlit("SET_MUTE");
    assert(("SET_MUTE"@).len() != ("SET_TO_ADMIN"@).len());
    reveal_strlit("GET_CLOSE_PEER_CONNECTION");
    assert(("GET_CLOSE_PEER_CONNECTION"@).len() != ("SET_TO_ADMIN"@).len());
    reveal_strlit("SET_CLOSE_PEER_CONNECTION");
    assert(("SET_CLOSE_PEER_CONNECTION"@).len() != ("SET_TO_ADMIN"@).len());
    reveal_strlit("GET_ROOM_MESSAGE");
    assert(("GET_ROOM_MESSAGE"@).len() != ("SET_TO_ADMIN"@).len());
    reveal_strlit("SET_ROOM_MESSAGE");
    assert(("SET_ROOM_MESSAGE"@).len() != ("SET_TO_ADMIN"@).len());
    reveal_strlit("SET_CHAT_UNIT");
    assert(("SET_CHAT_UNIT"@).len() != ("SET_TO_ADMIN"@).len());
    reveal_strlit("SET_SETTINGS_UNIT");
    assert(("SET_SETTINGS_UNIT"@).len() != ("SET_TO_ADMIN"@).len());
    reveal_strlit("GET_CHAT_MESSAGES");
    assert(("GET_CHAT_MESSAGES"@).len() != ("SET_TO_ADMIN"@).len());
    reveal_strlit("SET_CHAT_MESSAGES");
    assert(("SET_CHAT_MESSAGES"@).len() != ("SET_TO_ADMIN"@).len());
    reveal_strlit("GET_EDIT_MESSAGE");
    assert(("GET_EDIT_MESSAGE"@).len() != ("SET_TO_ADMIN"@).len());
    reveal_strlit("SET_EDIT_MESSAGE");
    assert(("SET_EDIT_MESSAGE"@).len() != ("SET_TO_ADMIN"@).len());
    reveal_strlit("GET_CREATE_MESSAGE");
    assert(("GET_CREATE_MESSAGE"@).len() != ("SET_TO_ADMIN"@).len());
    reveal_strlit("SET_CREATE_MESSAGE");
    assert(("SET_CREATE_MESSAGE"@).len() != ("SET_TO_ADMIN"@).len());
    reveal_strlit("GET_CREATE_QUOTE");
    assert(("GET_CREATE_QUOTE"@).len() != ("SET_TO_ADMIN"@).len());
    reveal_strlit("SET_CREATE_QUOTE");
    assert(("SET_CREATE_QUOTE"@).len() != ("SET_TO_ADMIN"@).len());
    reveal_strlit("GET_DELETE_MESSAGE");
    assert(("GET_DELETE_MESSAGE"@).len() != ("SET_TO_ADMIN"@).len());
    reveal_strlit("SET_DELETE_MESSAGE");
    assert(("SET_DELETE_MESSAGE"@).len() != ("SET_TO_ADMIN"@).len());
    reveal_strlit("GET_TO_MUTE");
    assert(("GET_TO_MUTE"@).len() != ("SET_TO_ADMIN"@).len());
    reveal_strlit("GET_TO_BAN");
    assert(("GET_TO_BAN"@).len() != ("SET_TO_ADMIN"@).len());
    reveal_strlit("GET_TO_UNMUTE");
    assert(("GET_TO_UNMUTE"@).len() != ("SET_TO_ADMIN"@).len());
    reveal_strlit("GET_TO_UNBAN");
    assert(("GET_TO_UNBAN"@)[0] != ("SET_TO_ADMIN"@)[0]);
    reveal_strlit("SET_BAN_LIST");
    assert(("SET_BAN_LIST"@)[4] != ("SET_TO_ADMIN"@)[4]);
    reveal_strlit("SET_MUTE_LIST");
    assert(("SET_MUTE_LIST"@).len() != ("SET_TO_ADMIN"@).len());
    reveal_strlit("GET_RECORD");
    assert(("GET_RECORD"@).len() != ("SET_TO_ADMIN"@).len());
    reveal_strlit("SET_RECORDING");
    assert(("SET_RECORDING"@).len() != ("SET_TO_ADMIN"@).len());
    reveal_strlit("GET_VIDEO_FIND_MANY");
    assert(("GET_VIDEO_FIND_MANY"@).len() != ("SET_TO_ADMIN"@).len());
    reveal_strlit("SET_VIDEO_FIND_MANY");
    assert(("SET_VIDEO_FIND_MANY"@).len() != ("SET_TO_ADMIN"@).len());
    reveal_strlit("GET_VIDEO_FIND_FIRST");
    assert(("GET_VIDEO_FIND_FIRST"@).len() != ("SET_TO_ADMIN"@).len());
    reveal_strlit("SET_VIDEO_FIND_FIRST");
    assert(("SET_VIDEO_FIND_FIRST"@).len() != ("SET_TO_ADMIN"@).len());
    reveal_strlit("GET_ASK_FLOOR");
    assert(("GET_ASK_FLOOR"@).len() != ("SET_TO_ADMIN"@).len());
    reveal_strlit("SET_ASK_FLOOR");
    assert(("SET_ASK_FLOOR"@).len() != ("SET_TO_ADMIN"@).len());
    reveal_strlit("GET_MUTE_FOR_ALL");
    assert(("GET_MUTE_FOR_ALL"@).len() != ("SET_TO_ADMIN"@).len());
    reveal_strlit("SET_MUTE_FOR_ALL");
    assert(("SET_MUTE_FOR_ALL"@).len() != ("SET_TO_ADMIN"@).len());
    reveal_strlit("GET_BLOCK_CHAT");
    assert(("GET_BLOCK_CHAT"@).len() != ("SET_TO_ADMIN"@).len());
    reveal_strlit("SET_BLOCK_CHAT");
    assert(("SET_BLOCK_CHAT"@).len() != ("SET_TO_ADMIN"@).len());
    reveal_strlit("GET_VIDEO_TRACK");
    assert(("GET_VIDEO_TRACK"@).len() != ("SET_TO_ADMIN"@).len());
    reveal_strlit("SET_VIDEO_TRACK");
    assert(("SET_VIDEO_TRACK"@).len() != ("SET_TO_ADMIN"@).len());
    reveal_strlit("GET_TO_ADMIN");
    assert(("GET_TO_ADMIN"@)[0] != ("SET_TO_ADMIN"@)[0]);
}

proof fn token_names_get_video_settings()
    ensures
        from_wire_token(wire_token(MessageType::GET_VIDEO_SETTINGS)) == Some(MessageType::GET_VIDEO_SETTINGS),
{
    reveal_strlit("GET_VIDEO_SETTINGS");
    reveal_strlit("GET_LOCALE");
    assert(("GET_LOCALE"@).len() != ("GET_VIDEO_SETTINGS"@).len());
    reveal_strlit("SET_LOCALE");
    assert(("SET_LOCALE"@).len() != ("GET_VIDEO_SETTINGS"@).len());
    reveal_strlit("GET_USER_ID");
    assert(("GET_USER_ID"@).len() != ("GET_VIDEO_SETTINGS"@).len());
    reveal_strlit("SET_USER_ID");
    assert(("SET_USER_ID"@).len() != ("GET_VIDEO_SETTINGS"@).len());
    reveal_strlit("GET_LOGIN");
    assert(("GET_LOGIN"@).len() != ("GET_VIDEO_SETTINGS"@).len());
    reveal_strlit("TOKEN");
    assert(("TOKEN"@).len() != ("GET_VIDEO_SETTINGS"@).len());
    reveal_strlit("OFFER");
    assert(("OFFER"@).len() != ("GET_VIDEO_SETTINGS"@).len());
    reveal_strlit("ANSWER");
    assert(("ANSWER"@).len() != ("GET_VIDEO_SETTINGS"@).len());
    reveal_strlit("CANDIDATE");
    assert(("CANDIDATE"@).len() != ("GET_VIDEO_SETTINGS"@).len());
    reveal_strlit("GET_ROOM");
    assert(("GET_ROOM"@).len() != ("GET_VIDEO_SETTINGS"@).len());
    reveal_strlit("SET_ROOM");
    assert(("SET_ROOM"@).len() != ("GET_VIDEO_SETTINGS"@).len());
    reveal_strlit("GET_CHAT_UNIT");
    assert(("GET_CHAT_UNIT"@).len() != ("GET_VIDEO_SETTINGS"@).len());
    reveal_strlit("GET_SETTINGS_UNIT");
    assert(("GET_SETTINGS_UNIT"@).len() != ("GET_VIDEO_SETTINGS"@).len());
    reveal_strlit("SET_ERROR");
    assert(("SET_ERROR"@).len() != ("GET_VIDEO_SETTINGS"@).len());
    reveal_strlit("GET_ROOM_GUESTS");
    assert(("GET_ROOM_GUESTS"@).len() != ("GET_VIDEO_SETTINGS"@).len());
    reveal_strlit("SET_ROOM_GUESTS");
    assert(("SET_ROOM_GUESTS"@).len() != ("GET_VIDEO_SETTINGS"@).len());
    reveal_strlit("SET_CHANGE_UNIT");
    assert(("SET_CHANGE_UNIT"@).len() != ("GET_VIDEO_SETTINGS"@).len());
    reveal_strlit("GET_MUTE");
    assert(("GET_MUTE"@).len() != ("GET_VIDEO_SETTINGS"@).len());
    reveal_strlit("GET_NEED_RECONNECT");
    assert(("GET_NEED_RECONNECT"@)[4] != ("GET_VIDEO_SETTINGS"@)[4]);
    reveal_strlit("SET_MUTE");
    assert(("SET_MUTE"@).len() != ("GET_VIDEO_SETTINGS"@).len());
    reveal_strlit("GET_CLOSE_PEER_CONNECTION");
    assert(("GET_CLOSE_PEER_CONNECTION"@).len() != ("GET_VIDEO_SETTINGS"@).len());
    reveal_strlit("SET_CLOSE_PEER_CONNECTION");
    assert(("SET_CLOSE_PEER_CONNECTION"@).len() != ("GET_VIDEO_SETTINGS"@).len());
    reveal_strlit("GET_ROOM_MESSAGE");
    assert(("GET_ROOM_MESSAGE"@).len() != ("GET_VIDEO_SETTINGS"@).len());
    reveal_strlit("SET_ROOM_MESSAGE");
    assert(("SET_ROOM_MESSAGE"@).len() != ("GET_VIDEO_SETTINGS"@).len());
    reveal_strlit("SET_CHAT_UNIT");
    assert(("SET_CHAT_UNIT"@).len() != ("GET_VIDEO_SETTINGS"@).len());
    reveal_strlit("SET_SETTINGS_UNIT");
    assert(("SET_SETTINGS_UNIT"@).len() != ("GET_VIDEO_SETTINGS"@).len());
    reveal_strlit("GET_CHAT_MESSAGES");
    assert(("GET_CHAT_MESSAGES"@).len() != ("GET_VIDEO_SETTINGS"@).len());
    reveal_strlit("SET_CHAT_MESSAGES");
    assert(("SET_CHAT_MESSAGES"@).len() != ("GET_VIDEO_SETTINGS"@).len());
    reveal_strlit("GET_EDIT_MESSAGE");
    assert(("GET_EDIT_MESSAGE"@).len() != ("GET_VIDEO_SETTINGS"@).len());
    reveal_strlit("SET_EDIT_MESSAGE");
    assert(("SET_EDIT_MESSAGE"@).len() != ("GET_VIDEO_SETTINGS"@).len());
    reveal_strlit("GET_CREATE_MESSAGE");
    assert(("GET_CREATE_MESSAGE"@)[4] != ("GET_VIDEO_SETTINGS"@)[4]);
    reveal_strlit("SET_CREATE_MESSAGE");
    assert(("SET_CREATE_MESSAGE"@)[0] != ("GET_VIDEO_SETTINGS"@)[0]);
    reveal_strlit("GET_CREATE_QUOTE");
    assert(("GET_CREATE_QUOTE"@).len() != ("GET_VIDEO_SETTINGS"@).len());
    reveal_strlit("SET_CREATE_QUOTE");
    assert(("SET_CREATE_QUOTE"@).len() != ("GET_VIDEO_SETTINGS"@).len());
    reveal_strlit("GET_DELETE_MESSAGE");
    assert(("GET_DELETE_MESSAGE"@)[4] != ("GET_VIDEO_SETTINGS"@)[4]);
    reveal_strlit("SET_DELETE_MESSAGE");
    assert(("SET_DELETE_MESSAGE"@)[0] != ("GET_VIDEO_SETTINGS"@)[0]);
    reveal_strlit("GET_TO_MUTE");
    assert(("GET_TO_MUTE"@).len() != ("GET_VIDEO_SETTINGS"@).len());
    reveal_strlit("GET_TO_BAN");
    assert(("GET_TO_BAN"@).len() != ("GET_VIDEO_SETTINGS"@).len());
    reveal_strlit("GET_TO_UNMUTE");
    assert(("GET_TO_UNMUTE"@).len() != ("GET_VIDEO_SETTINGS"@).len());
    reveal_strlit("GET_TO_UNBAN");
    assert(("GET_TO_UNBAN"@).len() != ("GET_VIDEO_SETTINGS"@).len());
    reveal_strlit("SET_BAN_LIST");
    assert(("SET_BAN_LIST"@).len() != ("GET_VIDEO_SETTINGS"@).len());
    reveal_strlit("SET_MUTE_LIST");
    assert(("SET_MUTE_LIST"@).len() != ("GET_VIDEO_SETTINGS"@).len());
    reveal_strlit("GET_RECORD");
    assert(("GET_RECORD"@).len() != ("GET_VIDEO_SETTINGS"@).len());
    reveal_strlit("SET_RECORDING");
    assert(("SET_RECORDING"@).len() != ("GET_VIDEO_SETTINGS"@).len());
    reveal_strlit("GET_VIDEO_FIND_MANY");
    assert(("GET_VIDEO_FIND_MANY"@).len() != ("GET_VIDEO_SETTINGS"@).len());
    reveal_strlit("SET_VIDEO_FIND_MANY");
    assert(("SET_VIDEO_FIND_MANY"@).len() != ("GET_VIDEO_SETTINGS"@).len());
    reveal_strlit("GET_VIDEO_FIND_FIRST");
    assert(("GET_VIDEO_FIND_FIRST"@).len() != ("GET_VIDEO_SETTINGS"@).len());
    reveal_strlit("SET_VIDEO_FIND_FIRST");
    assert(("SET_VIDEO_FIND_FIRST"@).len() != ("GET_VIDEO_SETTINGS"@).len());
    reveal_strlit("GET_ASK_FLOOR");
    assert(("GET_ASK_FLOOR"@).len() != ("GET_VIDEO_SETTINGS"@).len());
    reveal_strlit("SET_ASK_FLOOR");
    assert(("SET_ASK_FLOOR"@).len() != ("GET_VIDEO_SETTINGS"@).len());
    reveal_strlit("GET_MUTE_FOR_ALL");
    assert(("GET_MUTE_FOR_ALL"@).len() != ("GET_VIDEO_SETTINGS"@).len());
    reveal_strlit("SET_MUTE_FOR_ALL");
    assert(("SET_MUTE_FOR_ALL"@).len() != ("GET_VIDEO_SETTINGS"@).len());
    reveal_strlit("GET_BLOCK_CHAT");
    assert(("GET_BLOCK_CHAT"@).len() != ("GET_VIDEO_SETTINGS"@).len());
    reveal_strlit("SET_BLOCK_CHAT");
    assert(("SET_BLOCK_CHAT"@).len() != ("GET_VIDEO_SETTINGS"@).len());
    reveal_strlit("GET_VIDEO_TRACK");
    assert(("GET_VIDEO_TRACK"@).len() != ("GET_VIDEO_SETTINGS"@).len());
    reveal_strlit("SET_VIDEO_TRACK");
    assert(("SET_VIDEO_TRACK"@).len() != ("GET_VIDEO_SETTINGS"@).len());
    reveal_strlit("GET_TO_ADMIN");
    assert(("GET_TO_ADMIN"@).len() != ("GET_VIDEO_SETTINGS"@).len());
    reveal_strlit("SET_TO_ADMIN");
    assert(("SET_TO_ADMIN"@).len() != ("GET_VIDEO_SETTINGS"@).len());
}

proof fn token_names_set_create_video()
    ensures
        from_wire_token(wire_token(MessageType::SET_CREATE_VIDEO)) == Some(MessageType::SET_CREATE_VIDEO),
{
    reveal_strlit("SET_CREATE_VIDEO");
    reveal_strlit("GET_LOCALE");
    assert(("GET_LOCALE"@).len() != ("SET_CREATE_VIDEO"@).len());
    reveal_strlit("SET_LOCALE");
    assert(("SET_LOCALE"@).len() != ("SET_CREATE_VIDEO"@).len());
    reveal_strlit("GET_USER_ID");
    assert(("GET_USER_ID"@).len() != ("SET_CREATE_VIDEO"@).len());
    reveal_strlit("SET_USER_ID");
    assert(("SET_USER_ID"@).len() != ("SET_CREATE_VIDEO"@).len());
    reveal_strlit("GET_LOGIN");
    assert(("GET_LOGIN"@).len() != ("SET_CREATE_VIDEO"@).len());
    reveal_strlit("TOKEN");
    assert(("TOKEN"@).len() != ("SET_CREATE_VIDEO"@).len());
    reveal_strlit("OFFER");
    assert(("OFFER"@).len() != ("SET_CREATE_VIDEO"@).len());
    reveal_strlit("ANSWER");
    assert(("ANSWER"@).len() != ("SET_CREATE_VIDEO"@).len());
    reveal_strlit("CANDIDATE");
    assert(("CANDIDATE"@).len() != ("SET_CREATE_VIDEO"@).len());
    reveal_strlit("GET_ROOM");
    assert(("GET_ROOM"@).len() != ("SET_CREATE_VIDEO"@).len());
    reveal_strlit("SET_ROOM");
    assert(("SET_ROOM"@).len() != ("SET_CREATE_VIDEO"@).len());
    reveal_strlit("GET_CHAT_UNIT");
    assert(("GET_CHAT_UNIT"@).len() != ("SET_CREATE_VIDEO"@).len());
    reveal_strlit("GET_SETTINGS_UNIT");
    assert(("GET_SETTINGS_UNIT"@).len() != ("SET_CREATE_VIDEO"@).len());
    reveal_strlit("SET_ERROR");
    assert(("SET_ERROR"@).len() != ("SET_CREATE_VIDEO"@).len());
    reveal_strlit("GET_ROOM_GUESTS");
    assert(("GET_ROOM_GUESTS"@).len() != ("SET_CREATE_VIDEO"@).len());
    reveal_strlit("SET_ROOM_GUESTS");
    assert(("SET_ROOM_GUESTS"@).len() != ("SET_CREATE_VIDEO"@).len());
    reveal_strlit("SET_CHANGE_UNIT");
    assert(("SET_CHANGE_UNIT"@).len() != ("SET_CREATE_VIDEO"@).len());
    reveal_strlit("GET_MUTE");
    assert(("GET_MUTE"@).len() != ("SET_CREATE_VIDEO"@).len());
    reveal_strlit("GET_NEED_RECONNECT");
    assert(("GET_NEED_RECONNECT"@).len() != ("SET_CREATE_VIDEO"@).len());
    reveal_strlit("SET_MUTE");
    assert(("SET_MUTE"@).len() != ("SET_CREATE_VIDEO"@).len());
    reveal_strlit("GET_CLOSE_PEER_CONNECTION");
    assert(("GET_CLOSE_PEER_CONNECTION"@).len() != ("SET_CREATE_VIDEO"@).len());
    reveal_strlit("SET_CLOSE_PEER_CONNECTION");
    assert(("SET_CLOSE_PEER_CONNECTION"@).len() != ("SET_CREATE_VIDEO"@).len());
    reveal_strlit("GET_ROOM_MESSAGE");
    assert(("GET_ROOM_MESSAGE"@)[0] != ("SET_CREATE_VIDEO"@)[0]);
    reveal_strlit("SET_ROOM_MESSAGE");
    assert(("SET_ROOM_MESSAGE"@)[4] != ("SET_CREATE_VIDEO"@)[4]);
    reveal_strlit("SET_CHAT_UNIT");
    assert(("SET_CHAT_UNIT"@).len() != ("SET_CREATE_VIDEO"@).len());
    reveal_strlit("SET_SETTINGS_UNIT");
    assert(("SET_SETTINGS_UNIT"@).len() != ("SET_CREATE_VIDEO"@).len());
    reveal_strlit("GET_CHAT_MESSAGES");
    assert(("GET_CHAT_MESSAGES"@).len() != ("SET_CREATE_VIDEO"@).len());
    reveal_strlit("SET_CHAT_MESSAGES");
    assert(("SET_CHAT_MESSAGES"@).len() != ("SET_CREATE_VIDEO"@).len());
    reveal_strlit("GET_EDIT_MESSAGE");
    assert(("GET_EDIT_MESSAGE"@)[0] != ("SET_CREATE_VIDEO"@)[0]);
    reveal_strlit("SET_EDIT_MESSAGE");
    assert(("SET_EDIT_MESSAGE"@)[4] != ("SET_CREATE_VIDEO"@)[4]);
    reveal_strlit("GET_CREATE_MESSAGE");
    assert(("GET_CREATE_MESSAGE"@).len() != ("SET_CREATE_VIDEO"@).len());
    reveal_strlit("SET_CREATE_MESSAGE");
    assert(("SET_CREATE_MESSAGE"@).len() != ("SET_CREATE_VIDEO"@).len());
    reveal_strlit("GET_CREATE_QUOTE");
    assert(("GET_CREATE_QUOTE"@)[0] != ("SET_CREATE_VIDEO"@)[0]);
    reveal_strlit("SET_CREATE_QUOTE");
    assert(("SET_CREATE_QUOTE"@)[11] != ("SET_CREATE_VIDEO"@)[11]);
    reveal_strlit("GET_DELETE_MESSAGE");
    assert(("GET_DELETE_MESSAGE"@).len() != ("SET_CREATE_VIDEO"@).len());
    reveal_strlit("SET_DELETE_MESSAGE");
    assert(("SET_DELETE_MESSAGE"@).len() != ("SET_CREATE_VIDEO"@).len());
    reveal_strlit("GET_TO_MUTE");
    assert(("GET_TO_MUTE"@).len() != ("SET_CREATE_VIDEO"@).len());
    reveal_strlit("GET_TO_BAN");
    assert(("GET_TO_BAN"@).len() != ("SET_CREATE_VIDEO"@).len());
    reveal_strlit("GET_TO_UNMUTE");
    assert(("GET_TO_UNMUTE"@).len() != ("SET_CREATE_VIDEO"@).len());
    reveal_strlit("GET_TO_UNBAN");
    assert(("GET_TO_UNBAN"@).len() != ("SET_CREATE_VIDEO"@).len());
    reveal_strlit("SET_BAN_LIST");
    assert(("SET_BAN_LIST"@).len() != ("SET_CREATE_VIDEO"@).len());
    reveal_strlit("SET_MUTE_LIST");
    assert(("SET_MUTE_LIST"@).len() != ("SET_CREATE_VIDEO"@).len());
    reveal_strlit("GET_RECORD");
    assert(("GET_RECORD"@).len() != ("SET_CREATE_VIDEO"@).len());
    reveal_strlit("SET_RECORDING");
    assert(("SET_RECORDING"@).len() != ("SET_CREATE_VIDEO"@).len());
    reveal_strlit("GET_VIDEO_FIND_MANY");
    assert(("GET_VIDEO_FIND_MANY"@).len() != ("SET_CREATE_VIDEO"@).len());
    reveal_strlit("SET_VIDEO_FIND_MANY");
    assert(("SET_VIDEO_FIND_MANY"@).len() != ("SET_CREATE_VIDEO"@).len());
    reveal_strlit("GET_VIDEO_FIND_FIRST");
    assert(("GET_VIDEO_FIND_FIRST"@).len() != ("SET_CREATE_VIDEO"@).len());
    reveal_strlit("SET_VIDEO_FIND_FIRST");
    assert(("SET_VIDEO_FIND_FIRST"@).len() != ("SET_CREATE_VIDEO"@).len());
    reveal_strlit("GET_ASK_FLOOR");
    assert(("GET_ASK_FLOOR"@).len() != ("SET_CREATE_VIDEO"@).len());
    reveal_strlit("SET_ASK_FLOOR");
    assert(("SET_ASK_FLOOR"@).len() != ("SET_CREATE_VIDEO"@).len());
    reveal_strlit("GET_MUTE_FOR_ALL");
    assert(("GET_MUTE_FOR_ALL"@)[0] != ("SET_CREATE_VIDEO"@)[0]);
    reveal_strlit("SET_MUTE_FOR_ALL");
    assert(("SET_MUTE_FOR_ALL"@)[4] != ("SET_CREATE_VIDEO"@)[4]);
    reveal_strlit("GET_BLOCK_CHAT");
    assert(("GET_BLOCK_CHAT"@).len() != ("SET_CREATE_VIDEO"@).len());
    reveal_strlit("SET_BLOCK_CHAT");
    assert(("SET_BLOCK_CHAT"@).len() != ("SET_CREATE_VIDEO"@).len());
    reveal_strlit("GET_VIDEO_TRACK");
    assert(("GET_VIDEO_TRACK"@).len() != ("SET_CREATE_VIDEO"@).len());
    reveal_strlit("SET_VIDEO_TRACK");
    assert(("SET_VIDEO_TRACK"@).len() != ("SET_CREATE_VIDEO"@).len());
    reveal_strlit("GET_TO_ADMIN");
    assert(("GET_TO_ADMIN"@).len() != ("SET_CREATE_VIDEO"@).len());
    reveal_strlit("SET_TO_ADMIN");
    assert(("SET_TO_ADMIN"@).len() != ("SET_CREATE_VIDEO"@).len());
    reveal_strlit("GET_VIDEO_SETTINGS");
    assert(("GET_VIDEO_SETTINGS"@).len() != ("SET_CREATE_VIDEO"@).len());
}

proof fn token_names_get_video_delete()
    ensures
        from_wire_token(wire_token(MessageType::GET_VIDEO_DELETE)) == Some(MessageType::GET_VIDEO_DELETE),
{
    reveal_strlit("GET_VIDEO_DELETE");
    reveal_strlit("GET_LOCALE");
    assert(("GET_LOCALE"@).len() != ("GET_VIDEO_DELETE"@).len());
    reveal_strlit("SET_LOCALE");
    assert(("SET_LOCALE"@).len() != ("GET_VIDEO_DELETE"@).len());
    reveal_strlit("GET_USER_ID");
    assert(("GET_USER_ID"@).len() != ("GET_VIDEO_DELETE"@).len());
    reveal_strlit("SET_USER_ID");
    assert(("SET_USER_ID"@).len() != ("GET_VIDEO_DELETE"@).len());
    reveal_strlit("GET_LOGIN");
    assert(("GET_LOGIN"@).len() != ("GET_VIDEO_DELETE"@).len());
    reveal_strlit("TOKEN");
    assert(("TOKEN"@).len() != ("GET_VIDEO_DELETE"@).len());
    reveal_strlit("OFFER");
    assert(("OFFER"@).len() != ("GET_VIDEO_DELETE"@).len());
    reveal_strlit("ANSWER");
    assert(("ANSWER"@).len() != ("GET_VIDEO_DELETE"@).len());
    reveal_strlit("CANDIDATE");
    assert(("CANDIDATE"@).len() != ("GET_VIDEO_DELETE"@).len());
    reveal_strlit("GET_ROOM");
    assert(("GET_ROOM"@).len() != ("GET_VIDEO_DELETE"@).len());
    reveal_strlit("SET_ROOM");
    assert(("SET_ROOM"@).len() != ("GET_VIDEO_DELETE"@).len());
    reveal_strlit("GET_CHAT_UNIT");
    assert(("GET_CHAT_UNIT"@).len() != ("GET_VIDEO_DELETE"@).len());
    reveal_strlit("GET_SETTINGS_UNIT");
    assert(("GET_SETTINGS_UNIT"@).len() != ("GET_VIDEO_DELETE"@).len());
    reveal_strlit("SET_ERROR");
    assert(("SET_ERROR"@).len() != ("GET_VIDEO_DELETE"@).len());
    reveal_strlit("GET_ROOM_GUESTS");
    assert(("GET_ROOM_GUESTS"@).len() != ("GET_VIDEO_DELETE"@).len());
    reveal_strlit("SET_ROOM_GUESTS");
    assert(("SET_ROOM_GUESTS"@).len() != ("GET_VIDEO_DELETE"@).len());
    reveal_strlit("SET_CHANGE_UNIT");
    assert(("SET_CHANGE_UNIT"@).len() != ("GET_VIDEO_DELETE"@).len());
    reveal_strlit("GET_MUTE");
    assert(("GET_MUTE"@).len() != ("GET_VIDEO_DELETE"@).len());
    reveal_strlit("GET_NEED_RECONNECT");
    assert(("GET_NEED_RECONNECT"@).len() != ("GET_VIDEO_DELETE"@).len());
    reveal_strlit("SET_MUTE");
    assert(("SET_MUTE"@).len() != ("GET_VIDEO_DELETE"@).len());
    reveal_strlit("GET_CLOSE_PEER_CONNECTION");
    assert(("GET_CLOSE_PEER_CONNECTION"@).len() != ("GET_VIDEO_DELETE"@).len());
    reveal_strlit("SET_CLOSE_PEER_CONNECTION");
    assert(("SET_CLOSE_PEER_CONNECTION"@).len() != ("GET_VIDEO_DELETE"@).len());
    reveal_strlit("GET_ROOM_MESSAGE");
    assert(("GET_ROOM_MESSAGE"@)[4] != ("GET_VIDEO_DELETE"@)[4]);
    reveal_strlit("SET_ROOM_MESSAGE");
    assert(("SET_ROOM_MESSAGE"@)[0] != ("GET_VIDEO_DELETE"@)[0]);
    reveal_strlit("SET_CHAT_UNIT");
    assert(("SET_CHAT_UNIT"@).len() != ("GET_VIDEO_DELETE"@).len());
    reveal_strlit("SET_SETTINGS_UNIT");
    assert(("SET_SETTINGS_UNIT"@).len() != ("GET_VIDEO_DELETE"@).len());
    reveal_strlit("GET_CHAT_MESSAGES");
    assert(("GET_CHAT_MESSAGES"@).len() != ("GET_VIDEO_DELETE"@).len());
    reveal_strlit("SET_CHAT_MESSAGES");
    assert(("SET_CHAT_MESSAGES"@).len() != ("GET_VIDEO_DELETE"@).len());
    reveal_strlit("GET_EDIT_MESSAGE");
    assert(("GET_EDIT_MESSAGE"@)[4] != ("GET_VIDEO_DELETE"@)[4]);
    reveal_strlit("SET_EDIT_MESSAGE");
    assert(("SET_EDIT_MESSAGE"@)[0] != ("GET_VIDEO_DELETE"@)[0]);
    reveal_strlit("GET_CREATE_MESSAGE");
    assert(("GET_CREATE_MESSAGE"@).len() != ("GET_VIDEO_DELETE"@).len());
    reveal_strlit("SET_CREATE_MESSAGE");
    assert(("SET_CREATE_MESSAGE"@).len() != ("GET_VIDEO_DELETE"@).len());
    reveal_strlit("GET_CREATE_QUOTE");
    assert(("GET_CREATE_QUOTE"@)[4] != ("GET_VIDEO_DELETE"@)[4]);
    reveal_strlit("SET_CREATE_QUOTE");
    assert(("SET_CREATE_QUOTE"@)[0] != ("GET_VIDEO_DELETE"@)[0]);
    reveal_strlit("GET_DELETE_MESSAGE");
    assert(("GET_DELETE_MESSAGE"@).len() != ("GET_VIDEO_DELETE"@).len());
    reveal_strlit("SET_DELETE_MESSAGE");
    assert(("SET_DELETE_MESSAGE"@).len() != ("GET_VIDEO_DELETE"@).len());
    reveal_strlit("GET_TO_MUTE");
    assert(("GET_TO_MUTE"@).len() != ("GET_VIDEO_DELETE"@).len());
    reveal_strlit("GET_TO_BAN");
    assert(("GET_TO_BAN"@).len() != ("GET_VIDEO_DELETE"@).len());
    reveal_strlit("GET_TO_UNMUTE");
    assert(("GET_TO_UNMUTE"@).len() != ("GET_VIDEO_DELETE"@).len());
    reveal_strlit("GET_TO_UNBAN");
    assert(("GET_TO_UNBAN"@).len() != ("GET_VIDEO_DELETE"@).len());
    reveal_strlit("SET_BAN_LIST");
    assert(("SET_BAN_LIST"@).len() != ("GET_VIDEO_DELETE"@).len());
    reveal_strlit("SET_MUTE_LIST");
    assert(("SET_MUTE_LIST"@).len() != ("GET_VIDEO_DELETE"@).len());
    reveal_strlit("GET_RECORD");
    assert(("GET_RECORD"@).len() != ("GET_VIDEO_DELETE"@).len());
    reveal_strlit("SET_RECORDING");
    assert(("SET_RECORDING"@).len() != ("GET_VIDEO_DELETE"@).len());
    reveal_strlit("GET_VIDEO_FIND_MANY");
    assert(("GET_VIDEO_FIND_MANY"@).len() != ("GET_VIDEO_DELETE"@).len());
    reveal_strlit("SET_VIDEO_FIND_MANY");
    assert(("SET_VIDEO_FIND_MANY"@).len() != ("GET_VIDEO_DELETE"@).len());
    reveal_strlit("GET_VIDEO_FIND_FIRST");
    assert(("GET_VIDEO_FIND_FIRST"@).len() != ("GET_VIDEO_DELETE"@).len());
    reveal_strlit("SET_VIDEO_FIND_FIRST");
    assert(("SET_VIDEO_FIND_FIRST"@).len() != ("GET_VIDEO_DELETE"@).len());
    reveal_strlit("GET_ASK_FLOOR");
    assert(("GET_ASK_FLOOR"@).len() != ("GET_VIDEO_DELETE"@).len());
    reveal_strlit("SET_ASK_FLOOR");
    assert(("SET_ASK_FLOOR"@).len() != ("GET_VIDEO_DELETE"@).len());
    reveal_strlit("GET_MUTE_FOR_ALL");
    assert(("GET_MUTE_FOR_ALL"@)[4] != ("GET_VIDEO_DELETE"@)[4]);
    reveal_strlit("SET_MUTE_FOR_ALL");
    assert(("SET_MUTE_FOR_ALL"@)[0] != ("GET_VIDEO_DELETE"@)[0]);
    reveal_strlit("GET_BLOCK_CHAT");
    assert(("GET_BLOCK_CHAT"@).len() != ("GET_VIDEO_DELETE"@).len());
    reveal_strlit("SET_BLOCK_CHAT");
    assert(("SET_BLOCK_CHAT"@).len() != ("GET_VIDEO_DELETE"@).len());
    reveal_strlit("GET_VIDEO_TRACK");
    assert(("GET_VIDEO_TRACK"@).len() != ("GET_VIDEO_DELETE"@).len());
    reveal_strlit("SET_VIDEO_TRACK");
    assert(("SET_VIDEO_TRACK"@).len() != ("GET_VIDEO_DELETE"@).len());
    reveal_strlit("GET_TO_ADMIN");
    assert(("GET_TO_ADMIN"@).len() != ("GET_VIDEO_DELETE"@).len());
    reveal_strlit("SET_TO_ADMIN");
    assert(("SET_TO_ADMIN"@).len() != ("GET_VIDEO_DELETE"@).len());
    reveal_strlit("GET_VIDEO_SETTINGS");
    assert(("GET_VIDEO_SETTINGS"@).len() != ("GET_VIDEO_DELETE"@).len());
    reveal_strlit("SET_CREATE_VIDEO");
    assert(("SET_CREATE_VIDEO"@)[0] != ("GET_VIDEO_DELETE"@)[0]);
}

proof fn token_names_set_video_delete()
    ensures
        from_wire_token(wire_token(MessageType::SET_VIDEO_DELETE)) == Some(MessageType::SET_VIDEO_DELETE),
{
    reveal_strlit("SET_VIDEO_DELETE");
    reveal_strlit("GET_LOCALE");
    assert(("GET_LOCALE"@).len() != ("SET_VIDEO_DELETE"@).len());
    reveal_strlit("SET_LOCALE");
    assert(("SET_LOCALE"@).len() != ("SET_VIDEO_DELETE"@).len());
    reveal_strlit("GET_USER_ID");
    assert(("GET_USER_ID"@).len() != ("SET_VIDEO_DELETE"@).len());
    reveal_strlit("SET_USER_ID");
    assert(("SET_USER_ID"@).len() != ("SET_VIDEO_DELETE"@).len());
    reveal_strlit("GET_LOGIN");
    assert(("GET_LOGIN"@).len() != ("SET_VIDEO_DELETE"@).len());
    reveal_strlit("TOKEN");
    assert(("TOKEN"@).len() != ("SET_VIDEO_DELETE"@).len());
    reveal_strlit("OFFER");
    assert(("OFFER"@).len() != ("SET_VIDEO_DELETE"@).len());
    reveal_strlit("ANSWER");
    assert(("ANSWER"@).len() != ("SET_VIDEO_DELETE"@).len());
    reveal_strlit("CANDIDATE");
    assert(("CANDIDATE"@).len() != ("SET_VIDEO_DELETE"@).len());
    reveal_strlit("GET_ROOM");
    assert(("GET_ROOM"@).len() != ("SET_VIDEO_DELETE"@).len());
    reveal_strlit("SET_ROOM");
    assert(("SET_ROOM"@).len() != ("SET_VIDEO_DELETE"@).len());
    reveal_strlit("GET_CHAT_UNIT");
    assert(("GET_CHAT_UNIT"@).len() != ("SET_VIDEO_DELETE"@).len());
    reveal_strlit("GET_SETTINGS_UNIT");
    assert(("GET_SETTINGS_UNIT"@).len() != ("SET_VIDEO_DELETE"@).len());
    reveal_strlit("SET_ERROR");
    assert(("SET_ERROR"@).len() != ("SET_VIDEO_DELETE"@).len());
    reveal_strlit("GET_ROOM_GUESTS");
    assert(("GET_ROOM_GUESTS"@).len() != ("SET_VIDEO_DELETE"@).len());
    reveal_strlit("SET_ROOM_GUESTS");
    assert(("SET_ROOM_GUESTS"@).len() != ("SET_VIDEO_DELETE"@).len());
    reveal_strlit("SET_CHANGE_UNIT");
    assert(("SET_CHANGE_UNIT"@).len() != ("SET_VIDEO_DELETE"@).len());
    reveal_strlit("GET_MUTE");
    assert(("GET_MUTE"@).len() != ("SET_VIDEO_DELETE"@).len());
    reveal_strlit("GET_NEED_RECONNECT");
    assert(("GET_NEED_RECONNECT"@).len() != ("SET_VIDEO_DELETE"@).len());
    reveal_strlit("SET_MUTE");
    assert(("SET_MUTE"@).len() != ("SET_VIDEO_DELETE"@).len());
    reveal_strlit("GET_CLOSE_PEER_CONNECTION");
    assert(("GET_CLOSE_PEER_CONNECTION"@).len() != ("SET_VIDEO_DELETE"@).len());
    reveal_strlit("SET_CLOSE_PEER_CONNECTION");
    assert(("SET_CLOSE_PEER_CONNECTION"@).len() != ("SET_VIDEO_DELETE"@).len());
    reveal_strlit("GET_ROOM_MESSAGE");
    assert(("GET_ROOM_MESSAGE"@)[0] != ("SET_VIDEO_DELETE"@)[0]);
    reveal_strlit("SET_ROOM_MESSAGE");
    assert(("SET_ROOM_MESSAGE"@)[4] != ("SET_VIDEO_DELETE"@)[4]);
    reveal_strlit("SET_CHAT_UNIT");
    assert(("SET_CHAT_UNIT"@).len() != ("SET_VIDEO_DELETE"@).len());
    reveal_strlit("SET_SETTINGS_UNIT");
    assert(("SET_SETTINGS_UNIT"@).len() != ("SET_VIDEO_DELETE"@).len());
    reveal_strlit("GET_CHAT_MESSAGES");
    assert(("GET_CHAT_MESSAGES"@).len() != ("SET_VIDEO_DELETE"@).len());
    reveal_strlit("SET_CHAT_MESSAGES");
    assert(("SET_CHAT_MESSAGES"@).len() != ("SET_VIDEO_DELETE"@).len());
    reveal_strlit("GET_EDIT_MESSAGE");
    assert(("GET_EDIT_MESSAGE"@)[0] != ("SET_VIDEO_DELETE"@)[0]);
    reveal_strlit("SET_EDIT_MESSAGE");
    assert(("SET_EDIT_MESSAGE"@)[4] != ("SET_VIDEO_DELETE"@)[4]);
    reveal_strlit("GET_CREATE_MESSAGE");
    assert(("GET_CREATE_MESSAGE"@).len() != ("SET_VIDEO_DELETE"@).len());
    reveal_strlit("SET_CREATE_MESSAGE");
    assert(("SET_CREATE_MESSAGE"@).len() != ("SET_VIDEO_DELETE"@).len());
    reveal_strlit("GET_CREATE_QUOTE");
    assert(("GET_CREATE_QUOTE"@)[0] != ("SET_VIDEO_DELETE"@)[0]);
    reveal_strlit("SET_CREATE_QUOTE");
    assert(("SET_CREATE_QUOTE"@)[4] != ("SET_VIDEO_DELETE"@)[4]);
    reveal_strlit("GET_DELETE_MESSAGE");
    assert(("GET_DELETE_MESSAGE"@).len() != ("SET_VIDEO_DELETE"@).len());
    reveal_strlit("SET_DELETE_MESSAGE");
    assert(("SET_DELETE_MESSAGE"@).len() != ("SET_VIDEO_DELETE"@).len());
    reveal_strlit("GET_TO_MUTE");
    assert(("GET_TO_MUTE"@).len() != ("SET_VIDEO_DELETE"@).len());
    reveal_strlit("GET_TO_BAN");
    assert(("GET_TO_BAN"@).len() != ("SET_VIDEO_DELETE"@).len());
    reveal_strlit("GET_TO_UNMUTE");
    assert(("GET_TO_UNMUTE"@).len() != ("SET_VIDEO_DELETE"@).len());
    reveal_strlit("GET_TO_UNBAN");
    assert(("GET_TO_UNBAN"@).len() != ("SET_VIDEO_DELETE"@).len());
    reveal_strlit("SET_BAN_LIST");
    assert(("SET_BAN_LIST"@).len() != ("SET_VIDEO_DELETE"@).len());
    reveal_strlit("SET_MUTE_LIST");
    assert(("SET_MUTE_LIST"@).len() != ("SET_VIDEO_DELETE"@).len());
    reveal_strlit("GET_RECORD");
    assert(("GET_RECORD"@).len() != ("SET_VIDEO_DELETE"@).len());
    reveal_strlit("SET_RECORDING");
    assert(("SET_RECORDING"@).len() != ("SET_VIDEO_DELETE"@).len());
    reveal_strlit("GET_VIDEO_FIND_MANY");
    assert(("GET_VIDEO_FIND_MANY"@).len() != ("SET_VIDEO_DELETE"@).len());
    reveal_strlit("SET_VIDEO_FIND_MANY");
    assert(("SET_VIDEO_FIND_MANY"@).len() != ("SET_VIDEO_DELETE"@).len());
    reveal_strlit("GET_VIDEO_FIND_FIRST");
    assert(("GET_VIDEO_FIND_FIRST"@).len() != ("SET_VIDEO_DELETE"@).len());
    reveal_strlit("SET_VIDEO_FIND_FIRST");
    assert(("SET_VIDEO_FIND_FIRST"@).len() != ("SET_VIDEO_DELETE"@).len());
    reveal_strlit("GET_ASK_FLOOR");
    assert(("GET_ASK_FLOOR"@).len() != ("SET_VIDEO_DELETE"@).len());
    reveal_strlit("SET_ASK_FLOOR");
    assert(("SET_ASK_FLOOR"@).len() != ("SET_VIDEO_DELETE"@).len());
    reveal_strlit("GET_MUTE_FOR_ALL");
    assert(("GET_MUTE_FOR_ALL"@)[0] != ("SET_VIDEO_DELETE"@)[0]);
    reveal_strlit("SET_MUTE_FOR_ALL");
    assert(("SET_MUTE_FOR_ALL"@)[4] != ("SET_VIDEO_DELETE"@)[4]);
    reveal_strlit("GET_BLOCK_CHAT");
    assert(("GET_BLOCK_CHAT"@).len() != ("SET_VIDEO_DELETE"@).len());
    reveal_strlit("SET_BLOCK_CHAT");
    assert(("SET_BLOCK_CHAT"@).len() != ("SET_VIDEO_DELETE"@).len());
    reveal_strlit("GET_VIDEO_TRACK");
    assert(("GET_VIDEO_TRACK"@).len() != ("SET_VIDEO_DELETE"@).len());
    reveal_strlit("SET_VIDEO_TRACK");
    assert(("SET_VIDEO_TRACK"@).len() != ("SET_VIDEO_DELETE"@).len());
    reveal_strlit("GET_TO_ADMIN");
    assert(("GET_TO_ADMIN"@).len() != ("SET_VIDEO_DELETE"@).len());
    reveal_strlit("SET_TO_ADMIN");
    assert(("SET_TO_ADMIN"@).len() != ("SET_VIDEO_DELETE"@).len());
    reveal_strlit("GET_VIDEO_SETTINGS");
    assert(("GET_VIDEO_SETTINGS"@).len() != ("SET_VIDEO_DELETE"@).len());
    reveal_strlit("SET_CREATE_VIDEO");
    assert(("SET_CREATE_VIDEO"@)[4] != ("SET_VIDEO_DELETE"@)[4]);
    reveal_strlit("GET_VIDEO_DELETE");
    assert(("GET_VIDEO_DELETE"@)[0] != ("SET_VIDEO_DELETE"@)[0]);
}

proof fn token_names_get_video_update()
    ensures
        from_wire_token(wire_token(MessageType::GET_VIDEO_UPDATE)) == Some(MessageType::GET_VIDEO_UPDATE),
{
    reveal_strlit("GET_VIDEO_UPDATE");
    reveal_strlit("GET_LOCALE");
    assert(("GET_LOCALE"@).len() != ("GET_VIDEO_UPDATE"@).len());
    reveal_strlit("SET_LOCALE");
    assert(("SET_LOCALE"@).len() != ("GET_VIDEO_UPDATE"@).len());
    reveal_strlit("GET_USER_ID");
    assert(("GET_USER_ID"@).len() != ("GET_VIDEO_UPDATE"@).len());
    reveal_strlit("SET_USER_ID");
    assert(("SET_USER_ID"@).len() != ("GET_VIDEO_UPDATE"@).len());
    reveal_strlit("GET_LOGIN");
    assert(("GET_LOGIN"@).len() != ("GET_VIDEO_UPDATE"@).len());
    reveal_strlit("TOKEN");
    assert(("TOKEN"@).len() != ("GET_VIDEO_UPDATE"@).len());
    reveal_strlit("OFFER");
    assert(("OFFER"@).len() != ("GET_VIDEO_UPDATE"@).len());
    reveal_strlit("ANSWER");
    assert(("ANSWER"@).len() != ("GET_VIDEO_UPDATE"@).len());
    reveal_strlit("CANDIDATE");
    assert(("CANDIDATE"@).len() != ("GET_VIDEO_UPDATE"@).len());
    reveal_strlit("GET_ROOM");
    assert(("GET_ROOM"@).len() != ("GET_VIDEO_UPDATE"@).len());
    reveal_strlit("SET_ROOM");
    assert(("SET_ROOM"@).len() != ("GET_VIDEO_UPDATE"@).len());
    reveal_strlit("GET_CHAT_UNIT");
    assert(("GET_CHAT_UNIT"@).len() != ("GET_VIDEO_UPDATE"@).len());
    reveal_strlit("GET_SETTINGS_UNIT");
    assert(("GET_SETTINGS_UNIT"@).len() != ("GET_VIDEO_UPDATE"@).len());
    reveal_strlit("SET_ERROR");
    assert(("SET_ERROR"@).len() != ("GET_VIDEO_UPDATE"@).len());
    reveal_strlit("GET_ROOM_GUESTS");
    assert(("GET_ROOM_GUESTS"@).len() != ("GET_VIDEO_UPDATE"@).len());
    reveal_strlit("SET_ROOM_GUESTS");
    assert(("SET_ROOM_GUESTS"@).len() != ("GET_VIDEO_UPDATE"@).len());
    reveal_strlit("SET_CHANGE_UNIT");
    assert(("SET_CHANGE_UNIT"@).len() != ("GET_VIDEO_UPDATE"@).len());
    reveal_strlit("GET_MUTE");
    assert(("GET_MUTE"@).len() != ("GET_VIDEO_UPDATE"@).len());
    reveal_strlit("GET_NEED_RECONNECT");
    assert(("GET_NEED_RECONNECT"@).len() != ("GET_VIDEO_UPDATE"@).len());
    reveal_strlit("SET_MUTE");
    assert(("SET_MUTE"@).len() != ("GET_VIDEO_UPDATE"@).len());
    reveal_strlit("GET_CLOSE_PEER_CONNECTION");
    assert(("GET_CLOSE_PEER_CONNECTION"@).len() != ("GET_VIDEO_UPDATE"@).len());
    reveal_strlit("SET_CLOSE_PEER_CONNECTION");
    assert(("SET_CLOSE_PEER_CONNECTION"@).len() != ("GET_VIDEO_UPDATE"@).len());
    reveal_strlit("GET_ROOM_MESSAGE");
    assert(("GET_ROOM_MESSAGE"@)[4] != ("GET_VIDEO_UPDATE"@)[4]);
    reveal_strlit("SET_ROOM_MESSAGE");
    assert(("SET_ROOM_MESSAGE"@)[0] != ("GET_VIDEO_UPDATE"@)[0]);
    reveal_strlit("SET_CHAT_UNIT");
    assert(("SET_CHAT_UNIT"@).len() != ("GET_VIDEO_UPDATE"@).len());
    reveal_strlit("SET_SETTINGS_UNIT");
    assert(("SET_SETTINGS_UNIT"@).len() != ("GET_VIDEO_UPDATE"@).len());
    reveal_strlit("GET_CHAT_MESSAGES");
    assert(("GET_CHAT_MESSAGES"@).len() != ("GET_VIDEO_UPDATE"@).len());
    reveal_strlit("SET_CHAT_MESSAGES");
    assert(("SET_CHAT_MESSAGES"@).len() != ("GET_VIDEO_UPDATE"@).len());
    reveal_strlit("GET_EDIT_MESSAGE");
    assert(("GET_EDIT_MESSAGE"@)[4] != ("GET_VIDEO_UPDATE"@)[4]);
    reveal_strlit("SET_EDIT_MESSAGE");
    assert(("SET_EDIT_MESSAGE"@)[0] != ("GET_VIDEO_UPDATE"@)[0]);
    reveal_strlit("GET_CREATE_MESSAGE");
    assert(("GET_CREATE_MESSAGE"@).len() != ("GET_VIDEO_UPDATE"@).len());
    reveal_strlit("SET_CREATE_MESSAGE");
    assert(("SET_CREATE_MESSAGE"@).len() != ("GET_VIDEO_UPDATE"@).len());
    reveal_strlit("GET_CREATE_QUOTE");
    assert(("GET_CREATE_QUOTE"@)[4] != ("GET_VIDEO_UPDATE"@)[4]);
    reveal_strlit("SET_CREATE_QUOTE");
    assert(("SET_CREATE_QUOTE"@)[0] != ("GET_VIDEO_UPDATE"@)[0]);
    reveal_strlit("GET_DELETE_MESSAGE");
    assert(("GET_DELETE_MESSAGE"@).len() != ("GET_VIDEO_UPDATE"@).len());
    reveal_strlit("SET_DELETE_MESSAGE");
    assert(("SET_DELETE_MESSAGE"@).len() != ("GET_VIDEO_UPDATE"@).len());
    reveal_strlit("GET_TO_MUTE");
    assert(("GET_TO_MUTE"@).len() != ("GET_VIDEO_UPDATE"@).len());
    reveal_strlit("GET_TO_BAN");
    assert(("GET_TO_BAN"@).len() != ("GET_VIDEO_UPDATE"@).len());
    reveal_strlit("GET_TO_UNMUTE");
    assert(("GET_TO_UNMUTE"@).len() != ("GET_VIDEO_UPDATE"@).len());
    reveal_strlit("GET_TO_UNBAN");
    assert(("GET_TO_UNBAN"@).len() != ("GET_VIDEO_UPDATE"@).len());
    reveal_strlit("SET_BAN_LIST");
    assert(("SET_BAN_LIST"@).len() != ("GET_VIDEO_UPDATE"@).len());
    reveal_strlit("SET_MUTE_LIST");
    assert(("SET_MUTE_LIST"@).len() != ("GET_VIDEO_UPDATE"@).len());
    reveal_strlit("GET_RECORD");
    assert(("GET_RECORD"@).len() != ("GET_VIDEO_UPDATE"@).len());
    reveal_strlit("SET_RECORDING");
    assert(("SET_RECORDING"@).len() != ("GET_VIDEO_UPDATE"@).len());
    reveal_strlit("GET_VIDEO_FIND_MANY");
    assert(("GET_VIDEO_FIND_MANY"@).len() != ("GET_VIDEO_UPDATE"@).len());
    reveal_strlit("SET_VIDEO_FIND_MANY");
    assert(("SET_VIDEO_FIND_MANY"@).len() != ("GET_VIDEO_UPDATE"@).len());
    reveal_strlit("GET_VIDEO_FIND_FIRST");
    assert(("GET_VIDEO_FIND_FIRST"@).len() != ("GET_VIDEO_UPDATE"@).len());
    reveal_strlit("SET_VIDEO_FIND_FIRST");
    assert(("SET_VIDEO_FIND_FIRST"@).len() != ("GET_VIDEO_UPDATE"@).len());
    reveal_strlit("GET_ASK_FLOOR");
    assert(("GET_ASK_FLOOR"@).len() != ("GET_VIDEO_UPDATE"@).len());
    reveal_strlit("SET_ASK_FLOOR");
    assert(("SET_ASK_FLOOR"@).len() != ("GET_VIDEO_UPDATE"@).len());
    reveal_strlit("GET_MUTE_FOR_ALL");
    assert(("GET_MUTE_FOR_ALL"@)[4] != ("GET_VIDEO_UPDATE"@)[4]);
    reveal_strlit("SET_MUTE_FOR_ALL");
    assert(("SET_MUTE_FOR_ALL"@)[0] != ("GET_VIDEO_UPDATE"@)[0]);
    reveal_strlit("GET_BLOCK_CHAT");
    assert(("GET_BLOCK_CHAT"@).len() != ("GET_VIDEO_UPDATE"@).len());
    reveal_strlit("SET_BLOCK_CHAT");
    assert(("SET_BLOCK_CHAT"@).len() != ("GET_VIDEO_UPDATE"@).len());
    reveal_strlit("GET_VIDEO_TRACK");
    assert(("GET_VIDEO_TRACK"@).len() != ("GET_VIDEO_UPDATE"@).len());
    reveal_strlit("SET_VIDEO_TRACK");
    assert(("SET_VIDEO_TRACK"@).len() != ("GET_VIDEO_UPDATE"@).len());
    reveal_strlit("GET_TO_ADMIN");
    assert(("GET_TO_ADMIN"@).len() != ("GET_VIDEO_UPDATE"@).len());
    reveal_strlit("SET_TO_ADMIN");
    assert(("SET_TO_ADMIN"@).len() != ("GET_VIDEO_UPDATE"@).len());
    reveal_strlit("GET_VIDEO_SETTINGS");
    assert(("GET_VIDEO_SETTINGS"@).len() != ("GET_VIDEO_UPDATE"@).len());
    reveal_strlit("SET_CREATE_VIDEO");
    assert(("SET_CREATE_VIDEO"@)[0] != ("GET_VIDEO_UPDATE"@)[0]);
    reveal_strlit("GET_VIDEO_DELETE");
    assert(("GET_VIDEO_DELETE"@)[10] != ("GET_VIDEO_UPDATE"@)[10]);
    reveal_strlit("SET_VIDEO_DELETE");
    assert(("SET_VIDEO_DELETE"@)[0] != ("GET_VIDEO_UPDATE"@)[0]);
}

proof fn token_names_set_video_update()
    ensures
        from_wire_token(wire_token(MessageType::SET_VIDEO_UPDATE)) == Some(MessageType::SET_VIDEO_UPDATE),
{
    reveal_strlit("SET_VIDEO_UPDATE");
    reveal_strlit("GET_LOCALE");
    assert(("GET_LOCALE"@).len() != ("SET_VIDEO_UPDATE"@).len());
    reveal_strlit("SET_LOCALE");
    assert(("SET_LOCALE"@).len() != ("SET_VIDEO_UPDATE"@).len());
    reveal_strlit("GET_USER_ID");
    assert(("GET_USER_ID"@).len() != ("SET_VIDEO_UPDATE"@).len());
    reveal_strlit("SET_USER_ID");
    assert(("SET_USER_ID"@).len() != ("SET_VIDEO_UPDATE"@).len());
    reveal_strlit("GET_LOGIN");
    assert(("GET_LOGIN"@).len() != ("SET_VIDEO_UPDATE"@).len());
    reveal_strlit("TOKEN");
    assert(("TOKEN"@).len() != ("SET_VIDEO_UPDATE"@).len());
    reveal_strlit("OFFER");
    assert(("OFFER"@).len() != ("SET_VIDEO_UPDATE"@).len());
    reveal_strlit("ANSWER");
    assert(("ANSWER"@).len() != ("SET_VIDEO_UPDATE"@).len());
    reveal_strlit("CANDIDATE");
    assert(("CANDIDATE"@).len() != ("SET_VIDEO_UPDATE"@).len());
    reveal_strlit("GET_ROOM");
    assert(("GET_ROOM"@).len() != ("SET_VIDEO_UPDATE"@).len());
    reveal_strlit("SET_ROOM");
    assert(("SET_ROOM"@).len() != ("SET_VIDEO_UPDATE"@).len());
    reveal_strlit("GET_CHAT_UNIT");
    assert(("GET_CHAT_UNIT"@).len() != ("SET_VIDEO_UPDATE"@).len());
    reveal_strlit("GET_SETTINGS_UNIT");
    assert(("GET_SETTINGS_UNIT"@).len() != ("SET_VIDEO_UPDATE"@).len());
    reveal_strlit("SET_ERROR");
    assert(("SET_ERROR"@).len() != ("SET_VIDEO_UPDATE"@).len());
    reveal_strlit("GET_ROOM_GUESTS");
    assert(("GET_ROOM_GUESTS"@).len() != ("SET_VIDEO_UPDATE"@).len());
    reveal_strlit("SET_ROOM_GUESTS");
    assert(("SET_ROOM_GUESTS"@).len() != ("SET_VIDEO_UPDATE"@).len());
    reveal_strlit("SET_CHANGE_UNIT");
    assert(("SET_CHANGE_UNIT"@).len() != ("SET_VIDEO_UPDATE"@).len());
    reveal_strlit("GET_MUTE");
    assert(("GET_MUTE"@).len() != ("SET_VIDEO_UPDATE"@).len());
    reveal_strlit("GET_NEED_RECONNECT");
    assert(("GET_NEED_RECONNECT"@).len() != ("SET_VIDEO_UPDATE"@).len());
    reveal_strlit("SET_MUTE");
    assert(("SET_MUTE"@).len() != ("SET_VIDEO_UPDATE"@).len());
    reveal_strlit("GET_CLOSE_PEER_CONNECTION");
    assert(("GET_CLOSE_PEER_CONNECTION"@).len() != ("SET_VIDEO_UPDATE"@).len());
    reveal_strlit("SET_CLOSE_PEER_CONNECTION");
    assert(("SET_CLOSE_PEER_CONNECTION"@).len() != ("SET_VIDEO_UPDATE"@).len());
    reveal_strlit("GET_ROOM_MESSAGE");
    assert(("GET_ROOM_MESSAGE"@)[0] != ("SET_VIDEO_UPDATE"@)[0]);
    reveal_strlit("SET_ROOM_MESSAGE");
    assert(("SET_ROOM_MESSAGE"@)[4] != ("SET_VIDEO_UPDATE"@)[4]);
    reveal_strlit("SET_CHAT_UNIT");
    assert(("SET_CHAT_UNIT"@).len() != ("SET_VIDEO_UPDATE"@).len());
    reveal_strlit("SET_SETTINGS_UNIT");
    assert(("SET_SETTINGS_UNIT"@).len() != ("SET_VIDEO_UPDATE"@).len());
    reveal_strlit("GET_CHAT_MESSAGES");
    assert(("GET_CHAT_MESSAGES"@).len() != ("SET_VIDEO_UPDATE"@).len());
    reveal_strlit("SET_CHAT_MESSAGES");
    assert(("SET_CHAT_MESSAGES"@).len() != ("SET_VIDEO_UPDATE"@).len());
    reveal_strlit("GET_EDIT_MESSAGE");
    assert(("GET_EDIT_MESSAGE"@)[0] != ("SET_VIDEO_UPDATE"@)[0]);
    reveal_strlit("SET_EDIT_MESSAGE");
    assert(("SET_EDIT_MESSAGE"@)[4] != ("SET_VIDEO_UPDATE"@)[4]);
    reveal_strlit("GET_CREATE_MESSAGE");
    assert(("GET_CREATE_MESSAGE"@).len() != ("SET_VIDEO_UPDATE"@).len());
    reveal_strlit("SET_CREATE_MESSAGE");
    assert(("SET_CREATE_MESSAGE"@).len() != ("SET_VIDEO_UPDATE"@).len());
    reveal_strlit("GET_CREATE_QUOTE");
    assert(("GET_CREATE_QUOTE"@)[0] != ("SET_VIDEO_UPDATE"@)[0]);
    reveal_strlit("SET_CREATE_QUOTE");
    assert(("SET_CREATE_QUOTE"@)[4] != ("SET_VIDEO_UPDATE"@)[4]);
    reveal_strlit("GET_DELETE_MESSAGE");
    assert(("GET_DELETE_MESSAGE"@).len() != ("SET_VIDEO_UPDATE"@).len());
    reveal_strlit("SET_DELETE_MESSAGE");
    assert(("SET_DELETE_MESSAGE"@).len() != ("SET_VIDEO_UPDATE"@).len());
    reveal_strlit("GET_TO_MUTE");
    assert(("GET_TO_MUTE"@).len() != ("SET_VIDEO_UPDATE"@).len());
    reveal_strlit("GET_TO_BAN");
    assert(("GET_TO_BAN"@).len() != ("SET_VIDEO_UPDATE"@).len());
    reveal_strlit("GET_TO_UNMUTE");
    assert(("GET_TO_UNMUTE"@).len() != ("SET_VIDEO_UPDATE"@).len());
    reveal_strlit("GET_TO_UNBAN");
    assert(("GET_TO_UNBAN"@).len() != ("SET_VIDEO_UPDATE"@).len());
    reveal_strlit("SET_BAN_LIST");
    assert(("SET_BAN_LIST"@).len() != ("SET_VIDEO_UPDATE"@).len());
    reveal_strlit("SET_MUTE_LIST");
    assert(("SET_MUTE_LIST"@).len() != ("SET_VIDEO_UPDATE"@).len());
    reveal_strlit("GET_RECORD");
    assert(("GET_RECORD"@).len() != ("SET_VIDEO_UPDATE"@).len());
    reveal_strlit("SET_RECORDING");
    assert(("SET_RECORDING"@).len() != ("SET_VIDEO_UPDATE"@).len());
    reveal_strlit("GET_VIDEO_FIND_MANY");
    assert(("GET_VIDEO_FIND_MANY"@).len() != ("SET_VIDEO_UPDATE"@).len());
    reveal_strlit("SET_VIDEO_FIND_MANY");
    assert(("SET_VIDEO_FIND_MANY"@).len() != ("SET_VIDEO_UPDATE"@).len());
    reveal_strlit("GET_VIDEO_FIND_FIRST");
    assert(("GET_VIDEO_FIND_FIRST"@).len() != ("SET_VIDEO_UPDATE"@).len());
    reveal_strlit("SET_VIDEO_FIND_FIRST");
    assert(("SET_VIDEO_FIND_FIRST"@).len() != ("SET_VIDEO_UPDATE"@).len());
    reveal_strlit("GET_ASK_FLOOR");
    assert(("GET_ASK_FLOOR"@).len() != ("SET_VIDEO_UPDATE"@).len());
    reveal_strlit("SET_ASK_FLOOR");
    assert(("SET_ASK_FLOOR"@).len() != ("SET_VIDEO_UPDATE"@).len());
    reveal_strlit("GET_MUTE_FOR_ALL");
    assert(("GET_MUTE_FOR_ALL"@)[0] != ("SET_VIDEO_UPDATE"@)[0]);
    reveal_strlit("SET_MUTE_FOR_ALL");
    assert(("SET_MUTE_FOR_ALL"@)[4] != ("SET_VIDEO_UPDATE"@)[4]);
    reveal_strlit("GET_BLOCK_CHAT");
    assert(("GET_BLOCK_CHAT"@).len() != ("SET_VIDEO_UPDATE"@).len());
    reveal_strlit("SET_BLOCK_CHAT");
    assert(("SET_BLOCK_CHAT"@).len() != ("SET_VIDEO_UPDATE"@).len());
    reveal_strlit("GET_VIDEO_TRACK");
    assert(("GET_VIDEO_TRACK"@).len() != ("SET_VIDEO_UPDATE"@).len());
    reveal_strlit("SET_VIDEO_TRACK");
    assert(("SET_VIDEO_TRACK"@).len() != ("SET_VIDEO_UPDATE"@).len());
    reveal_strlit("GET_TO_ADMIN");
    assert(("GET_TO_ADMIN"@).len() != ("SET_VIDEO_UPDATE"@).len());
    reveal_strlit("SET_TO_ADMIN");
    assert(("SET_TO_ADMIN"@).len() != ("SET_VIDEO_UPDATE"@).len());
    reveal_strlit("GET_VIDEO_SETTINGS");
    assert(("GET_VIDEO_SETTINGS"@).len() != ("SET_VIDEO_UPDATE"@).len());
    reveal_strlit("SET_CREATE_VIDEO");
    assert(("SET_CREATE_VIDEO"@)[4] != ("SET_VIDEO_UPDATE"@)[4]);
    reveal_strlit("GET_VIDEO_DELETE");
    assert(("GET_VIDEO_DELETE"@)[0] != ("SET_VIDEO_UPDATE"@)[0]);
    reveal_strlit("SET_VIDEO_DELETE");
    assert(("SET_VIDEO_DELETE"@)[10] != ("SET_VIDEO_UPDATE"@)[10]);
    reveal_strlit("GET_VIDEO_UPDATE");
    assert(("GET_VIDEO_UPDATE"@)[0] != ("SET_VIDEO_UPDATE"@)[0]);
}

/// Round trip of the catalog: the wire token of every kind names that kind
/// again, so the token mapping is injective and covers every kind.
pub proof fn lemma_wire_token_round_trip(k: MessageType)
    ensures
        from_wire_token(wire_token(k)) == Some(k),
{
    match k {
        MessageType::SET_LOCALE => token_names_set_locale(),
        MessageType::GET_LOCALE => token_names_get_locale(),
        MessageType::GET_USER_ID => token_names_get_user_id(),
        MessageType::SET_USER_ID => token_names_set_user_id(),
        MessageType::GET_LOGIN => token_names_get_login(),
        MessageType::TOKEN => token_names_token(),
        MessageType::OFFER => token_names_offer(),
        MessageType::CANDIDATE => token_names_candidate(),
        MessageType::ANSWER => token_names_answer(),
        MessageType::GET_ROOM => token_names_get_room(),
        MessageType::SET_ROOM => token_names_set_room(),
        MessageType::GET_CHAT_UNIT => token_names_get_chat_unit(),
        MessageType::GET_SETTINGS_UNIT => token_names_get_settings_unit(),
        MessageType::SET_ERROR => token_names_set_error(),
        MessageType::GET_ROOM_GUESTS => token_names_get_room_guests(),
        MessageType::SET_ROOM_GUESTS => token_names_set_room_guests(),
        MessageType::SET_CHANGE_UNIT => token_names_set_change_unit(),
        MessageType::GET_MUTE => token_names_get_mute(),
        MessageType::SET_MUTE => token_names_set_mute(),
        MessageType::GET_NEED_RECONNECT => token_names_get_need_reconnect(),
        MessageType::GET_CLOSE_PEER_CONNECTION => token_names_get_close_peer_connection(),
        MessageType::SET_CLOSE_PEER_CONNECTION => token_names_set_close_peer_connection(),
        MessageType::GET_ROOM_MESSAGE => token_names_get_room_message(),
        MessageType::SET_ROOM_MESSAGE => token_names_set_room_message(),
        MessageType::SET_CHAT_UNIT => token_names_set_chat_unit(),
        MessageType::SET_SETTINGS_UNIT => token_names_set_settings_unit(),
        MessageType::GET_CHAT_MESSAGES => token_names_get_chat_messages(),
        MessageType::SET_CHAT_MESSAGES => token_names_set_chat_messages(),
        MessageType::GET_EDIT_MESSAGE => token_names_get_edit_message(),
        MessageType::SET_EDIT_MESSAGE => token_names_set_edit_message(),
        MessageType::GET_CREATE_MESSAGE => token_names_get_create_message(),
        MessageType::SET_CREATE_MESSAGE => token_names_set_create_message(),
        MessageType::GET_CREATE_QUOTE => token_names_get_create_quote(),
        MessageType::SET_CREATE_QUOTE => token_names_set_create_quote(),
        MessageType::GET_DELETE_MESSAGE => token_names_get_delete_message(),
        MessageType::SET_DELETE_MESSAGE => token_names_set_delete_message(),
        MessageType::GET_TO_MUTE => token_names_get_to_mute(),
        MessageType::GET_TO_BAN => token_names_get_to_ban(),
        MessageType::GET_TO_UNMUTE => token_names_get_to_unmute(),
        MessageType::GET_TO_UNBAN => token_names_get_to_unban(),
        MessageType::SET_BAN_LIST => token_names_set_ban_list(),
        MessageType::SET_MUTE_LIST => token_names_set_mute_list(),
        MessageType::GET_RECORD => token_names_get_record(),
        MessageType::SET_RECORDING => token_names_set_recording(),
        MessageType::GET_VIDEO_FIND_MANY => token_names_get_video_find_many(),
        MessageType::SET_VIDEO_FIND_MANY => token_names_set_video_find_many(),
        MessageType::GET_VIDEO_FIND_FIRST => token_names_get_video_find_first(),
        MessageType::SET_VIDEO_FIND_FIRST => token_names_set_video_find_first(),
        MessageType::GET_ASK_FLOOR => token_names_get_ask_floor(),
        MessageType::SET_ASK_FLOOR => token_names_set_ask_floor(),
        MessageType::GET_MUTE_FOR_ALL => token_names_get_mute_for_all(),
        MessageType::SET_MUTE_FOR_ALL => token_names_set_mute_for_all(),
        MessageType::GET_BLOCK_CHAT => token_names_get_block_chat(),
        MessageType::SET_BLOCK_CHAT => token_names_set_block_chat(),
        MessageType::GET_VIDEO_TRACK => token_names_get_video_track(),
        MessageType::SET_VIDEO_TRACK => token_names_set_video_track(),
        MessageType::GET_TO_ADMIN => token_names_get_to_admin(),
        MessageType::SET_TO_ADMIN => token_names_set_to_admin(),
        MessageType::GET_VIDEO_SETTINGS => token_names_get_video_settings(),
        MessageType::SET_CREATE_VIDEO => token_names_set_create_video(),
        MessageType::GET_VIDEO_DELETE => token_names_get_video_delete(),
        MessageType::SET_VIDEO_DELETE => token_names_set_video_delete(),
        MessageType::GET_VIDEO_UPDATE => token_names_get_video_update(),
        MessageType::SET_VIDEO_UPDATE => token_names_set_video_update(),
    }
}

} // verus!
