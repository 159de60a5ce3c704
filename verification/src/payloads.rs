//! The per-kind payload records and their decode rules.
//!
//! One decode rule per message kind that carries inbound data: a required
//! field that is missing, null, or of the wrong JSON type aborts the decode
//! with a typed failure naming the field.  Encoding is the mirror: the wire
//! object is built from the typed payload's fields under the same field
//! names, and every encoder's contract says that its output decodes back to
//! the value it was built from.

use vstd::prelude::*;

use crate::error::{malformed, DecodeError, DecodeErrorV};
use crate::json::{
    field_of, get_field, req_bool, req_bool_v, req_str, req_str_v, FromValue, Json,
};
use crate::locale::{lemma_locale_token_round_trip, locale_from_token, LocaleValue};
use crate::sdp::{
    decode_session_description, lemma_sdp_type_token_round_trip, session_description_of,
    SessionDescription, SessionDescriptionV,
};

verus! {

/// A required locale field: a closed vocabulary, so a present string outside
/// it is an invalid enumeration value, not a malformed payload.
pub open spec fn req_locale_v(v: Json, key: Seq<char>) -> Result<LocaleValue, DecodeErrorV> {
    match field_of(v, key) {
        Some(Json::Str(s)) => match locale_from_token(s@) {
            Some(l) => Ok(l),
            None => Err(DecodeErrorV::InvalidEnumValue { field: key, got: s@ }),
        },
        _ => Err(DecodeErrorV::MalformedPayload { field: key }),
    }
}

/// Reads the required locale field `key` of `v`.
pub fn req_locale(v: &Json, key: &str) -> (r: Result<LocaleValue, DecodeError>)
    ensures
        match r {
            Ok(l) => req_locale_v(*v, key@) == Ok::<LocaleValue, DecodeErrorV>(l),
            Err(e) => req_locale_v(*v, key@) == Err::<LocaleValue, DecodeErrorV>(e@),
        },
{
    match get_field(v, key) {
        Some(Json::Str(s)) => match LocaleValue::from_str(s.as_str()) {
            Some(l) => Ok(l),
            None => Err(crate::error::invalid_enum(key, s.as_str())),
        },
        _ => Err(malformed(key)),
    }
}

/// The locale query: which locale the client asks the catalog for.
#[derive(Debug)]
pub struct GetLocale {
    pub locale: LocaleValue,
}

/// The mathematical reading of a `GetLocale`.
pub struct GetLocaleV {
    pub locale: LocaleValue,
}

impl View for GetLocale {
    type V = GetLocaleV;

    open spec fn view(&self) -> GetLocaleV {
        GetLocaleV { locale: self.locale }
    }
}

/// The locale-query payload `v` carries, or the first failure met.
pub open spec fn get_locale_of(v: Json) -> Result<GetLocaleV, DecodeErrorV> {
    match req_locale_v(v, "locale"@) {
        Ok(l) => Ok(GetLocaleV { locale: l }),
        Err(e) => Err(e),
    }
}

impl GetLocale {
    /// Decodes a locale query from an untyped payload value.
    pub fn from_value(v: &Json) -> (r: Result<GetLocale, DecodeError>)
        ensures
            match r {
                Ok(p) => get_locale_of(*v) == Ok::<GetLocaleV, DecodeErrorV>(p@),
                Err(e) => get_locale_of(*v) == Err::<GetLocaleV, DecodeErrorV>(e@),
            },
    {
        let locale = match req_locale(v, "locale") {
            Ok(l) => l,
            Err(e) => {
                return Err(e);
            },
        };
        Ok(GetLocale { locale })
    }

    /// Encodes this payload under the same field names; the result decodes
    /// back to this very value.
    pub fn to_value(&self) -> (r: Json)
        ensures
            get_locale_of(r) == Ok::<GetLocaleV, DecodeErrorV>(self@),
    {
        let mut fields: Vec<(String, Json)> = Vec::new();
        fields.push(("locale".to_owned(), Json::Str(self.locale.as_str().to_owned())));
        let r = Json::Obj(fields);
        proof {
            lemma_locale_token_round_trip(self.locale);
        }
        r
    }
}

/// The chat-unit query: which user's chat view to assemble, in which locale.
#[allow(non_snake_case)]
#[derive(Debug)]
pub struct GetChatUnit {
    pub userId: String,
    pub locale: LocaleValue,
}

/// The mathematical reading of a `GetChatUnit`.
#[allow(non_snake_case)]
pub struct GetChatUnitV {
    pub userId: Seq<char>,
    pub locale: LocaleValue,
}

impl View for GetChatUnit {
    type V = GetChatUnitV;

    open spec fn view(&self) -> GetChatUnitV {
        GetChatUnitV { userId: self.userId@, locale: self.locale }
    }
}

/// The chat-unit payload `v` carries, or the first failure met while
/// reading `userId` then `locale`.
pub open spec fn get_chat_unit_of(v: Json) -> Result<GetChatUnitV, DecodeErrorV> {
    match req_str_v(v, "userId"@) {
        Ok(user_id) => match req_locale_v(v, "locale"@) {
            Ok(l) => Ok(GetChatUnitV { userId: user_id, locale: l }),
            Err(e) => Err(e),
        },
        Err(e) => Err(e),
    }
}

impl GetChatUnit {
    /// Decodes a chat-unit query from an untyped payload value.
    pub fn from_value(v: &Json) -> (r: Result<GetChatUnit, DecodeError>)
        ensures
            match r {
                Ok(p) => get_chat_unit_of(*v) == Ok::<GetChatUnitV, DecodeErrorV>(p@),
                Err(e) => get_chat_unit_of(*v) == Err::<GetChatUnitV, DecodeErrorV>(e@),
            },
    {
        let user_id = match req_str(v, "userId") {
            Ok(s) => s,
            Err(e) => {
                return Err(e);
            },
        };
        let locale = match req_locale(v, "locale") {
            Ok(l) => l,
            Err(e) => {
                return Err(e);
            },
        };
        Ok(GetChatUnit { userId: user_id, locale })
    }

    /// Encodes this payload under the same field names; the result decodes
    /// back to this very value.
    pub fn to_value(&self) -> (r: Json)
        ensures
            get_chat_unit_of(r) == Ok::<GetChatUnitV, DecodeErrorV>(self@),
    {
        let mut fields: Vec<(String, Json)> = Vec::new();
        fields.push(("userId".to_owned(), Json::Str(self.userId.clone())));
        fields.push(("locale".to_owned(), Json::Str(self.locale.as_str().to_owned())));
        let r = Json::Obj(fields);
        proof {
            reveal_with_fuel(crate::json::lookup_fields, 8);
            reveal_strlit("userId");
            reveal_strlit("locale");
            assert(("userId"@)[0] != ("locale"@)[0]);
            lemma_locale_token_round_trip(self.locale);
        }
        r
    }
}

/// The user-id query: a user name to register, in which locale, and whether
/// the caller acts as a room.
#[allow(non_snake_case)]
#[derive(Debug)]
pub struct GetUserId {
    pub isRoom: Option<bool>,
    pub userName: String,
    pub locale: LocaleValue,
}

/// The mathematical reading of a `GetUserId`.
#[allow(non_snake_case)]
pub struct GetUserIdV {
    pub isRoom: Option<bool>,
    pub userName: Seq<char>,
    pub locale: LocaleValue,
}

impl View for GetUserId {
    type V = GetUserIdV;

    open spec fn view(&self) -> GetUserIdV {
        GetUserIdV { isRoom: self.isRoom, userName: self.userName@, locale: self.locale }
    }
}

/// The optional `isRoom` flag: only a boolean is taken up; anything else
/// present reads as absent, as the wire contract has always had it.
pub open spec fn is_room_of(v: Json) -> Option<bool> {
    match field_of(v, "isRoom"@) {
        Some(Json::Bool(b)) => Some(b),
        _ => None,
    }
}

/// The user-id payload `v` carries, or the first failure met while reading
/// `userName` then `locale`.
pub open spec fn get_user_id_of(v: Json) -> Result<GetUserIdV, DecodeErrorV> {
    match req_str_v(v, "userName"@) {
        Ok(user_name) => match req_locale_v(v, "locale"@) {
            Ok(l) => Ok(GetUserIdV { isRoom: is_room_of(v), userName: user_name, locale: l }),
            Err(e) => Err(e),
        },
        Err(e) => Err(e),
    }
}

impl GetUserId {
    /// Decodes a user-id query from an untyped payload value.
    pub fn from_value(v: &Json) -> (r: Result<GetUserId, DecodeError>)
        ensures
            match r {
                Ok(p) => get_user_id_of(*v) == Ok::<GetUserIdV, DecodeErrorV>(p@),
                Err(e) => get_user_id_of(*v) == Err::<GetUserIdV, DecodeErrorV>(e@),
            },
    {
        let is_room = match get_field(v, "isRoom") {
            Some(Json::Bool(b)) => Some(*b),
            _ => None,
        };
        let user_name = match req_str(v, "userName") {
            Ok(s) => s,
            Err(e) => {
                return Err(e);
            },
        };
        let locale = match req_locale(v, "locale") {
            Ok(l) => l,
            Err(e) => {
                return Err(e);
            },
        };
        Ok(GetUserId { isRoom: is_room, userName: user_name, locale })
    }

    /// Encodes this payload under the same field names, an absent flag as an
    /// omitted `isRoom`; the result decodes back to this very value.
    pub fn to_value(&self) -> (r: Json)
        ensures
            get_user_id_of(r) == Ok::<GetUserIdV, DecodeErrorV>(self@),
    {
        let mut fields: Vec<(String, Json)> = Vec::new();
        match self.isRoom {
            Some(b) => {
                fields.push(("isRoom".to_owned(), Json::Bool(b)));
            },
            None => {},
        }
        fields.push(("userName".to_owned(), Json::Str(self.userName.clone())));
        fields.push(("locale".to_owned(), Json::Str(self.locale.as_str().to_owned())));
        let r = Json::Obj(fields);
        proof {
            reveal_with_fuel(crate::json::lookup_fields, 8);
            reveal_strlit("isRoom");
            reveal_strlit("userName");
            reveal_strlit("locale");
            assert(("isRoom"@).len() != ("userName"@).len());
            assert(("isRoom"@)[0] != ("locale"@)[0]);
            assert(("userName"@)[0] != ("locale"@)[0]);
            lemma_locale_token_round_trip(self.locale);
        }
        r
    }
}

/// The room query: who opens it, the media type asked for, and whether the
/// room is public.
#[allow(non_snake_case)]
#[derive(Debug)]
pub struct GetRoom {
    pub userId: String,
    pub mimeType: String,
    pub isPublic: bool,
}

/// The mathematical reading of a `GetRoom`.
#[allow(non_snake_case)]
pub struct GetRoomV {
    pub userId: Seq<char>,
    pub mimeType: Seq<char>,
    pub isPublic: bool,
}

impl View for GetRoom {
    type V = GetRoomV;

    open spec fn view(&self) -> GetRoomV {
        GetRoomV { userId: self.userId@, mimeType: self.mimeType@, isPublic: self.isPublic }
    }
}

/// The room payload `v` carries, or the first failure met while reading
/// `isPublic`, `mimeType`, then `userId`.
pub open spec fn get_room_of(v: Json) -> Result<GetRoomV, DecodeErrorV> {
    match req_bool_v(v, "isPublic"@) {
        Ok(is_public) => match req_str_v(v, "mimeType"@) {
            Ok(mime_type) => match req_str_v(v, "userId"@) {
                Ok(user_id) => Ok(GetRoomV {
                    userId: user_id,
                    mimeType: mime_type,
                    isPublic: is_public,
                }),
                Err(e) => Err(e),
            },
            Err(e) => Err(e),
        },
        Err(e) => Err(e),
    }
}

impl GetRoom {
    /// Decodes a room query from an untyped payload value.
    pub fn from_value(v: &Json) -> (r: Result<GetRoom, DecodeError>)
        ensures
            match r {
                Ok(p) => get_room_of(*v) == Ok::<GetRoomV, DecodeErrorV>(p@),
                Err(e) => get_room_of(*v) == Err::<GetRoomV, DecodeErrorV>(e@),
            },
    {
        let is_public = match req_bool(v, "isPublic") {
            Ok(b) => b,
            Err(e) => {
                return Err(e);
            },
        };
        let mime_type = match req_str(v, "mimeType") {
            Ok(s) => s,
            Err(e) => {
                return Err(e);
            },
        };
        let user_id = match req_str(v, "userId") {
            Ok(s) => s,
            Err(e) => {
                return Err(e);
            },
        };
        Ok(GetRoom { userId: user_id, mimeType: mime_type, isPublic: is_public })
    }

    /// Encodes this payload under the same field names; the result decodes
    /// back to this very value.
    pub fn to_value(&self) -> (r: Json)
        ensures
            get_room_of(r) == Ok::<GetRoomV, DecodeErrorV>(self@),
    {
        let mut fields: Vec<(String, Json)> = Vec::new();
        fields.push(("userId".to_owned(), Json::Str(self.userId.clone())));
        fields.push(("mimeType".to_owned(), Json::Str(self.mimeType.clone())));
        fields.push(("isPublic".to_owned(), Json::Bool(self.isPublic)));
        let r = Json::Obj(fields);
        proof {
            reveal_with_fuel(crate::json::lookup_fields, 8);
            reveal_strlit("userId");
            reveal_strlit("mimeType");
            reveal_strlit("isPublic");
            assert(("userId"@).len() != ("mimeType"@).len());
            assert(("userId"@)[0] != ("isPublic"@)[0]);
            assert(("mimeType"@)[0] != ("isPublic"@)[0]);
        }
        r
    }
}

/// The settings-unit query: which user's settings view to assemble, in
/// which locale.
#[allow(non_snake_case)]
#[derive(Debug)]
pub struct GetSettingsUnit {
    pub userId: String,
    pub locale: LocaleValue,
}

/// The locale answer: which locale the server settled on for the client.
#[derive(Debug)]
pub struct SetLocale {
    pub locale: LocaleValue,
}

/// The user-id answer: the display name the server registered.
#[derive(Debug)]
pub struct SetUserId {
    pub name: String,
}

impl SetUserId {
    /// Encodes this payload under the same field names.
    pub fn to_value(&self) -> (r: Json)
        ensures
            req_str_v(r, "name"@) == Ok::<Seq<char>, DecodeErrorV>(self.name@),
    {
        let mut fields: Vec<(String, Json)> = Vec::new();
        fields.push(("name".to_owned(), Json::Str(self.name.clone())));
        Json::Obj(fields)
    }
}

/// Whether every item of `j` is the string array `ss`, item for item.
pub open spec fn is_string_array(j: Json, ss: Seq<Seq<char>>) -> bool {
    &&& j is Arr
    &&& j->Arr_0@.len() == ss.len()
    &&& forall|i: int|
        0 <= i < ss.len() ==> (#[trigger] j->Arr_0@[i]) is Str && j->Arr_0@[i]->Str_0@ == ss[i]
}

/// Encodes a list of strings as a JSON array.
pub fn strings_to_value(items: &Vec<String>) -> (r: Json)
    ensures
        is_string_array(r, items.deep_view()),
{
    let mut out: Vec<Json> = Vec::new();
    let n = items.len();
    let mut i: usize = 0;
    while i < n
        invariant
            n == items@.len(),
            i <= n,
            out@.len() == i,
            forall|k: int|
                0 <= k < i ==> (#[trigger] out@[k]) is Str && out@[k]->Str_0@
                    == items.deep_view()[k],
        decreases n - i,
    {
        out.push(Json::Str(items[i].clone()));
        i = i + 1;
    }
    Json::Arr(out)
}

/// The room answer: whether the caller owns the room, and who asked to join.
#[allow(non_snake_case)]
#[derive(Debug)]
pub struct SetRoom {
    pub isOwner: bool,
    pub asked: Vec<String>,
}

impl SetRoom {
    /// Encodes this payload under the same field names.
    pub fn to_value(&self) -> (r: Json)
        ensures
            req_bool_v(r, "isOwner"@) == Ok::<bool, DecodeErrorV>(self.isOwner),
            match field_of(r, "asked"@) {
                Some(a) => is_string_array(a, self.asked.deep_view()),
                None => false,
            },
    {
        let mut fields: Vec<(String, Json)> = Vec::new();
        fields.push(("isOwner".to_owned(), Json::Bool(self.isOwner)));
        fields.push(("asked".to_owned(), strings_to_value(&self.asked)));
        let r = Json::Obj(fields);
        proof {
            reveal_with_fuel(crate::json::lookup_fields, 8);
            reveal_strlit("isOwner");
            reveal_strlit("asked");
            assert(("isOwner"@).len() != ("asked"@).len());
        }
        r
    }
}

/// The offer payload: a session description proposed to a peer, with the
/// routing and media fields beside it.
#[allow(non_snake_case)]
#[derive(Debug)]
pub struct Offer {
    pub sdp: SessionDescription,
    pub userId: String,
    pub target: String,
    pub mimeType: String,
    pub roomId: String,
}

/// The mathematical reading of an `Offer`.
#[allow(non_snake_case)]
pub struct OfferV {
    pub sdp: SessionDescriptionV,
    pub userId: Seq<char>,
    pub target: Seq<char>,
    pub mimeType: Seq<char>,
    pub roomId: Seq<char>,
}

impl View for Offer {
    type V = OfferV;

    open spec fn view(&self) -> OfferV {
        OfferV {
            sdp: self.sdp@,
            userId: self.userId@,
            target: self.target@,
            mimeType: self.mimeType@,
            roomId: self.roomId@,
        }
    }
}

/// The offer payload `v` carries, or the first failure met while reading
/// the session description, `userId`, `mimeType`, `target`, then `roomId`.
pub open spec fn offer_of(v: Json) -> Result<OfferV, DecodeErrorV> {
    match session_description_of(v) {
        Ok(sd) => match req_str_v(v, "userId"@) {
            Ok(user_id) => match req_str_v(v, "mimeType"@) {
                Ok(mime_type) => match req_str_v(v, "target"@) {
                    Ok(target) => match req_str_v(v, "roomId"@) {
                        Ok(room_id) => Ok(OfferV {
                            sdp: sd,
                            userId: user_id,
                            target,
                            mimeType: mime_type,
                            roomId: room_id,
                        }),
                        Err(e) => Err(e),
                    },
                    Err(e) => Err(e),
                },
                Err(e) => Err(e),
            },
            Err(e) => Err(e),
        },
        Err(e) => Err(e),
    }
}

impl Offer {
    /// Decodes an offer payload from an untyped payload value.
    pub fn from_value(v: &Json) -> (r: Result<Offer, DecodeError>)
        ensures
            match r {
                Ok(p) => offer_of(*v) == Ok::<OfferV, DecodeErrorV>(p@),
                Err(e) => offer_of(*v) == Err::<OfferV, DecodeErrorV>(e@),
            },
    {
        let sdp = match decode_session_description(v) {
            Ok(d) => d,
            Err(e) => {
                return Err(e);
            },
        };
        let user_id = match req_str(v, "userId") {
            Ok(s) => s,
            Err(e) => {
                return Err(e);
            },
        };
        let mime_type = match req_str(v, "mimeType") {
            Ok(s) => s,
            Err(e) => {
                return Err(e);
            },
        };
        let target = match req_str(v, "target") {
            Ok(s) => s,
            Err(e) => {
                return Err(e);
            },
        };
        let room_id = match req_str(v, "roomId") {
            Ok(s) => s,
            Err(e) => {
                return Err(e);
            },
        };
        Ok(Offer { sdp, userId: user_id, target, mimeType: mime_type, roomId: room_id })
    }

    /// Encodes this payload under the same field names, the session
    /// description as the canonical nested `{sdp, type}` object; the result
    /// decodes back to this very value.
    pub fn to_value(&self) -> (r: Json)
        ensures
            offer_of(r) == Ok::<OfferV, DecodeErrorV>(self@),
    {
        let mut sd: Vec<(String, Json)> = Vec::new();
        sd.push(("sdp".to_owned(), Json::Str(self.sdp.sdp.clone())));
        sd.push(("type".to_owned(), Json::Str(self.sdp.sdp_type.as_str().to_owned())));
        let mut fields: Vec<(String, Json)> = Vec::new();
        fields.push(("sdp".to_owned(), Json::Obj(sd)));
        fields.push(("userId".to_owned(), Json::Str(self.userId.clone())));
        fields.push(("target".to_owned(), Json::Str(self.target.clone())));
        fields.push(("mimeType".to_owned(), Json::Str(self.mimeType.clone())));
        fields.push(("roomId".to_owned(), Json::Str(self.roomId.clone())));
        let r = Json::Obj(fields);
        proof {
            reveal_with_fuel(crate::json::lookup_fields, 8);
            reveal_strlit("sdp");
            reveal_strlit("type");
            reveal_strlit("userId");
            reveal_strlit("target");
            reveal_strlit("mimeType");
            reveal_strlit("roomId");
            assert(("sdp"@).len() == 3);
            assert(("type"@).len() == 4);
            assert(("userId"@).len() == 6);
            assert(("target"@).len() == 6);
            assert(("mimeType"@).len() == 8);
            assert(("roomId"@).len() == 6);
            assert(("userId"@)[0] != ("target"@)[0]);
            assert(("userId"@)[0] != ("roomId"@)[0]);
            assert(("target"@)[0] != ("roomId"@)[0]);
            lemma_sdp_type_token_round_trip(self.sdp.sdp_type);
        }
        r
    }
}

/// The answer payload: a session description answering an offer.
#[allow(non_snake_case)]
#[derive(Debug)]
pub struct Answer {
    pub sdp: SessionDescription,
    pub userId: String,
    pub target: String,
}

/// The mathematical reading of an `Answer`.
#[allow(non_snake_case)]
pub struct AnswerV {
    pub sdp: SessionDescriptionV,
    pub userId: Seq<char>,
    pub target: Seq<char>,
}

impl View for Answer {
    type V = AnswerV;

    open spec fn view(&self) -> AnswerV {
        AnswerV { sdp: self.sdp@, userId: self.userId@, target: self.target@ }
    }
}

/// The answer payload `v` carries, or the first failure met while reading
/// the session description, `userId`, then `target`.
pub open spec fn answer_of(v: Json) -> Result<AnswerV, DecodeErrorV> {
    match session_description_of(v) {
        Ok(sd) => match req_str_v(v, "userId"@) {
            Ok(user_id) => match req_str_v(v, "target"@) {
                Ok(target) => Ok(AnswerV { sdp: sd, userId: user_id, target }),
                Err(e) => Err(e),
            },
            Err(e) => Err(e),
        },
        Err(e) => Err(e),
    }
}

impl Answer {
    /// Decodes an answer payload from an untyped payload value.
    pub fn from_value(v: &Json) -> (r: Result<Answer, DecodeError>)
        ensures
            match r {
                Ok(p) => answer_of(*v) == Ok::<AnswerV, DecodeErrorV>(p@),
                Err(e) => answer_of(*v) == Err::<AnswerV, DecodeErrorV>(e@),
            },
    {
        let sdp = match decode_session_description(v) {
            Ok(d) => d,
            Err(e) => {
                return Err(e);
            },
        };
        let user_id = match req_str(v, "userId") {
            Ok(s) => s,
            Err(e) => {
                return Err(e);
            },
        };
        let target = match req_str(v, "target") {
            Ok(s) => s,
            Err(e) => {
                return Err(e);
            },
        };
        Ok(Answer { sdp, userId: user_id, target })
    }

    /// Encodes this payload under the same field names; the result decodes
    /// back to this very value.
    pub fn to_value(&self) -> (r: Json)
        ensures
            answer_of(r) == Ok::<AnswerV, DecodeErrorV>(self@),
    {
        let mut sd: Vec<(String, Json)> = Vec::new();
        sd.push(("sdp".to_owned(), Json::Str(self.sdp.sdp.clone())));
        sd.push(("type".to_owned(), Json::Str(self.sdp.sdp_type.as_str().to_owned())));
        let mut fields: Vec<(String, Json)> = Vec::new();
        fields.push(("sdp".to_owned(), Json::Obj(sd)));
        fields.push(("userId".to_owned(), Json::Str(self.userId.clone())));
        fields.push(("target".to_owned(), Json::Str(self.target.clone())));
        let r = Json::Obj(fields);
        proof {
            reveal_with_fuel(crate::json::lookup_fields, 8);
            reveal_strlit("sdp");
            reveal_strlit("type");
            reveal_strlit("userId");
            reveal_strlit("target");
            assert(("sdp"@).len() == 3);
            assert(("type"@).len() == 4);
            assert(("userId"@).len() == 6);
            assert(("target"@).len() == 6);
            assert(("userId"@)[0] != ("target"@)[0]);
            lemma_sdp_type_token_round_trip(self.sdp.sdp_type);
        }
        r
    }
}

/// A room and the users present in it, for roster messages.
#[derive(Debug)]
pub struct RoomList {
    pub room_id: String,
    pub users: Vec<String>,
}

impl RoomList {
    /// Encodes this record under the same field names.
    pub fn to_value(&self) -> (r: Json)
        ensures
            req_str_v(r, "room_id"@) == Ok::<Seq<char>, DecodeErrorV>(self.room_id@),
            match field_of(r, "users"@) {
                Some(a) => is_string_array(a, self.users.deep_view()),
                None => false,
            },
    {
        let mut fields: Vec<(String, Json)> = Vec::new();
        fields.push(("room_id".to_owned(), Json::Str(self.room_id.clone())));
        fields.push(("users".to_owned(), strings_to_value(&self.users)));
        let r = Json::Obj(fields);
        proof {
            reveal_with_fuel(crate::json::lookup_fields, 8);
            reveal_strlit("room_id");
            reveal_strlit("users");
            assert(("room_id"@).len() != ("users"@).len());
        }
        r
    }
}

impl FromValue for GetLocale {
    open spec fn decoded(v: Json) -> Result<GetLocaleV, DecodeErrorV> {
        get_locale_of(v)
    }

    fn from_value(v: &Json) -> (r: Result<GetLocale, DecodeError>) {
        GetLocale::from_value(v)
    }
}

impl FromValue for GetChatUnit {
    open spec fn decoded(v: Json) -> Result<GetChatUnitV, DecodeErrorV> {
        get_chat_unit_of(v)
    }

    fn from_value(v: &Json) -> (r: Result<GetChatUnit, DecodeError>) {
        GetChatUnit::from_value(v)
    }
}

impl FromValue for GetUserId {
    open spec fn decoded(v: Json) -> Result<GetUserIdV, DecodeErrorV> {
        get_user_id_of(v)
    }

    fn from_value(v: &Json) -> (r: Result<GetUserId, DecodeError>) {
        GetUserId::from_value(v)
    }
}

impl FromValue for GetRoom {
    open spec fn decoded(v: Json) -> Result<GetRoomV, DecodeErrorV> {
        get_room_of(v)
    }

    fn from_value(v: &Json) -> (r: Result<GetRoom, DecodeError>) {
        GetRoom::from_value(v)
    }
}

impl FromValue for Offer {
    open spec fn decoded(v: Json) -> Result<OfferV, DecodeErrorV> {
        offer_of(v)
    }

    fn from_value(v: &Json) -> (r: Result<Offer, DecodeError>) {
        Offer::from_value(v)
    }
}

impl FromValue for Answer {
    open spec fn decoded(v: Json) -> Result<AnswerV, DecodeErrorV> {
        answer_of(v)
    }

    fn from_value(v: &Json) -> (r: Result<Answer, DecodeError>) {
        Answer::from_value(v)
    }
}

} // verus!
