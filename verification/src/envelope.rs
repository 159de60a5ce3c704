//! The envelope: the `{id, connId, type, data}` wrapper of every exchanged
//! message, and the per-kind decoder registry behind it.
//!
//! Decoding an inbound frame requires `id`, `connId` and `type` to be
//! present strings; the `type` token must be in the catalog; and the kind's
//! own rule then decodes `data`.  Encoding is the mirror, and its contract
//! says the frame decodes back to the envelope it was built from.

use vstd::prelude::*;

use crate::candidate::{candidate_of, Candidate, CandidateV};
use crate::error::{DecodeError, DecodeErrorV};
use crate::json::{field_of, get_field, req_str, req_str_v, Json};
use crate::kind::{from_wire_token, lemma_wire_token_round_trip, wire_token, MessageType};
use crate::payloads::{
    answer_of, get_chat_unit_of, get_locale_of, get_room_of, get_user_id_of, offer_of, Answer,
    AnswerV, GetChatUnit, GetChatUnitV, GetLocale, GetLocaleV, GetRoom, GetRoomV, GetUserId,
    GetUserIdV, Offer, OfferV,
};

verus! {

/// The envelope of every exchanged message.
#[allow(non_snake_case)]
#[derive(Debug)]
pub struct MessageArgs<T> {
    /// Caller-assigned message id; uniqueness is not enforced here.
    pub id: String,
    /// The sender's transport session.
    pub connId: String,
    /// The message kind; `data`'s shape must match what it implies.
    pub kind: MessageType,
    pub data: T,
}

/// The mathematical reading of a `MessageArgs`.
#[allow(non_snake_case)]
pub struct MessageArgsV<D> {
    pub id: Seq<char>,
    pub connId: Seq<char>,
    pub kind: MessageType,
    pub data: D,
}

impl<T: View> View for MessageArgs<T> {
    type V = MessageArgsV<T::V>;

    open spec fn view(&self) -> MessageArgsV<T::V> {
        MessageArgsV { id: self.id@, connId: self.connId@, kind: self.kind, data: self.data@ }
    }
}

/// A decoded payload: one variant per kind that carries inbound data, and a
/// unit variant for every kind without one.
#[derive(Debug)]
pub enum Payload {
    GetLocale(GetLocale),
    GetChatUnit(GetChatUnit),
    GetUserId(GetUserId),
    GetRoom(GetRoom),
    Offer(Offer),
    Answer(Answer),
    Candidate(Candidate),
    Unit,
}

/// The mathematical reading of a `Payload`.
pub enum PayloadV {
    GetLocale(GetLocaleV),
    GetChatUnit(GetChatUnitV),
    GetUserId(GetUserIdV),
    GetRoom(GetRoomV),
    Offer(OfferV),
    Answer(AnswerV),
    Candidate(CandidateV),
    Unit,
}

impl View for Payload {
    type V = PayloadV;

    open spec fn view(&self) -> PayloadV {
        match self {
            Payload::GetLocale(p) => PayloadV::GetLocale(p@),
            Payload::GetChatUnit(p) => PayloadV::GetChatUnit(p@),
            Payload::GetUserId(p) => PayloadV::GetUserId(p@),
            Payload::GetRoom(p) => PayloadV::GetRoom(p@),
            Payload::Offer(p) => PayloadV::Offer(p@),
            Payload::Answer(p) => PayloadV::Answer(p@),
            Payload::Candidate(p) => PayloadV::Candidate(p@),
            Payload::Unit => PayloadV::Unit,
        }
    }
}

/// The registry: what the kind's own rule makes of the `data` value.  A
/// kind without inbound data takes the unit payload whatever `data` holds.
pub open spec fn payload_of(k: MessageType, data: Json) -> Result<PayloadV, DecodeErrorV> {
    match k {
        MessageType::GET_LOCALE => match get_locale_of(data) {
            Ok(p) => Ok(PayloadV::GetLocale(p)),
            Err(e) => Err(e),
        },
        MessageType::GET_CHAT_UNIT => match get_chat_unit_of(data) {
            Ok(p) => Ok(PayloadV::GetChatUnit(p)),
            Err(e) => Err(e),
        },
        MessageType::GET_USER_ID => match get_user_id_of(data) {
            Ok(p) => Ok(PayloadV::GetUserId(p)),
            Err(e) => Err(e),
        },
        MessageType::GET_ROOM => match get_room_of(data) {
            Ok(p) => Ok(PayloadV::GetRoom(p)),
            Err(e) => Err(e),
        },
        MessageType::OFFER => match offer_of(data) {
            Ok(p) => Ok(PayloadV::Offer(p)),
            Err(e) => Err(e),
        },
        MessageType::ANSWER => match answer_of(data) {
            Ok(p) => Ok(PayloadV::Answer(p)),
            Err(e) => Err(e),
        },
        MessageType::CANDIDATE => match candidate_of(data) {
            Ok(p) => Ok(PayloadV::Candidate(p)),
            Err(e) => Err(e),
        },
        _ => Ok(PayloadV::Unit),
    }
}

/// The message a wire frame carries, or the first failure met while reading
/// `id`, `connId`, `type`, then the kind's own payload from `data`.
pub open spec fn message_of(v: Json) -> Result<MessageArgsV<PayloadV>, DecodeErrorV> {
    match req_str_v(v, "id"@) {
        Ok(id) => match req_str_v(v, "connId"@) {
            Ok(conn_id) => match req_str_v(v, "type"@) {
                Ok(tok) => match from_wire_token(tok) {
                    Some(k) => {
                        let data = match field_of(v, "data"@) {
                            Some(d) => d,
                            None => Json::Null,
                        };
                        match payload_of(k, data) {
                            Ok(p) => Ok(MessageArgsV { id, connId: conn_id, kind: k, data: p }),
                            Err(e) => Err(e),
                        }
                    },
                    None => Err(DecodeErrorV::UnknownKind { got: tok }),
                },
                Err(e) => Err(e),
            },
            Err(e) => Err(e),
        },
        Err(e) => Err(e),
    }
}

/// Decodes a wire frame into a typed envelope.
pub fn decode_message(v: &Json) -> (r: Result<MessageArgs<Payload>, DecodeError>)
    ensures
        match r {
            Ok(m) => message_of(*v) == Ok::<MessageArgsV<PayloadV>, DecodeErrorV>(m@),
            Err(e) => message_of(*v) == Err::<MessageArgsV<PayloadV>, DecodeErrorV>(e@),
        },
{
    let id = match req_str(v, "id") {
        Ok(s) => s,
        Err(e) => {
            return Err(e);
        },
    };
    let conn_id = match req_str(v, "connId") {
        Ok(s) => s,
        Err(e) => {
            return Err(e);
        },
    };
    let tok = match req_str(v, "type") {
        Ok(s) => s,
        Err(e) => {
            return Err(e);
        },
    };
    let kind = match MessageType::from_str(tok.as_str()) {
        Ok(k) => k,
        Err(e) => {
            return Err(e);
        },
    };
    let null = Json::Null;
    let data: &Json = match get_field(v, "data") {
        Some(d) => d,
        None => &null,
    };
    let payload = match kind {
        MessageType::GET_LOCALE => match GetLocale::from_value(data) {
            Ok(p) => Payload::GetLocale(p),
            Err(e) => {
                return Err(e);
            },
        },
        MessageType::GET_CHAT_UNIT => match GetChatUnit::from_value(data) {
            Ok(p) => Payload::GetChatUnit(p),
            Err(e) => {
                return Err(e);
            },
        },
        MessageType::GET_USER_ID => match GetUserId::from_value(data) {
            Ok(p) => Payload::GetUserId(p),
            Err(e) => {
                return Err(e);
            },
        },
        MessageType::GET_ROOM => match GetRoom::from_value(data) {
            Ok(p) => Payload::GetRoom(p),
            Err(e) => {
                return Err(e);
            },
        },
        MessageType::OFFER => match Offer::from_value(data) {
            Ok(p) => Payload::Offer(p),
            Err(e) => {
                return Err(e);
            },
        },
        MessageType::ANSWER => match Answer::from_value(data) {
            Ok(p) => Payload::Answer(p),
            Err(e) => {
                return Err(e);
            },
        },
        MessageType::CANDIDATE => match Candidate::from_value(data) {
            Ok(p) => Payload::Candidate(p),
            Err(e) => {
                return Err(e);
            },
        },
        _ => Payload::Unit,
    };
    Ok(MessageArgs { id, connId: conn_id, kind, data: payload })
}

/// Whether the payload's encoding decodes back to it under the rule its
/// envelope's kind names.
pub open spec fn encodes_back(p: Payload, r: Json) -> bool {
    match p {
        Payload::GetLocale(x) => get_locale_of(r) == Ok::<GetLocaleV, DecodeErrorV>(x@),
        Payload::GetChatUnit(x) => get_chat_unit_of(r) == Ok::<GetChatUnitV, DecodeErrorV>(x@),
        Payload::GetUserId(x) => get_user_id_of(r) == Ok::<GetUserIdV, DecodeErrorV>(x@),
        Payload::GetRoom(x) => get_room_of(r) == Ok::<GetRoomV, DecodeErrorV>(x@),
        Payload::Offer(x) => offer_of(r) == Ok::<OfferV, DecodeErrorV>(x@),
        Payload::Answer(x) => answer_of(r) == Ok::<AnswerV, DecodeErrorV>(x@),
        Payload::Candidate(x) => candidate_of(r) is Ok && ((x.candidate.related_port
            == x.candidate.port && x.candidate.component <= 2) ==> candidate_of(r)
            == Ok::<CandidateV, DecodeErrorV>(x@)),
        Payload::Unit => r is Null,
    }
}

impl Payload {
    /// Encodes this payload per its own kind's rule; a unit payload
    /// serializes as JSON null.
    pub fn to_value(&self) -> (r: Json)
        ensures
            encodes_back(*self, r),
    {
        match self {
            Payload::GetLocale(x) => x.to_value(),
            Payload::GetChatUnit(x) => x.to_value(),
            Payload::GetUserId(x) => x.to_value(),
            Payload::GetRoom(x) => x.to_value(),
            Payload::Offer(x) => x.to_value(),
            Payload::Answer(x) => x.to_value(),
            Payload::Candidate(x) => x.to_value(),
            Payload::Unit => Json::Null,
        }
    }
}

/// Whether `kind` names the decode rule that yields payloads of `data`'s
/// variant: under the envelope invariant the wrapper cannot enforce by
/// construction, an encoded frame decodes back to itself.
pub open spec fn kind_carries(kind: MessageType, data: PayloadV) -> bool {
    match data {
        PayloadV::GetLocale(_) => kind == MessageType::GET_LOCALE,
        PayloadV::GetChatUnit(_) => kind == MessageType::GET_CHAT_UNIT,
        PayloadV::GetUserId(_) => kind == MessageType::GET_USER_ID,
        PayloadV::GetRoom(_) => kind == MessageType::GET_ROOM,
        PayloadV::Offer(_) => kind == MessageType::OFFER,
        PayloadV::Answer(_) => kind == MessageType::ANSWER,
        PayloadV::Candidate(_) => kind == MessageType::CANDIDATE,
        PayloadV::Unit => kind != MessageType::GET_LOCALE && kind != MessageType::GET_CHAT_UNIT
            && kind != MessageType::GET_USER_ID && kind != MessageType::GET_ROOM && kind
            != MessageType::OFFER && kind != MessageType::ANSWER && kind
            != MessageType::CANDIDATE,
    }
}

/// Whether the candidate payload, if any, lies in the image of the wire:
/// the wire carries one number for both ports and a two-valued component
/// vocabulary.
pub open spec fn wire_expressible(data: PayloadV) -> bool {
    match data {
        PayloadV::Candidate(x) => x.candidate.related_port == x.candidate.port
            && x.candidate.component <= 2,
        _ => true,
    }
}

impl MessageArgs<Payload> {
    /// Encodes this envelope as the flat four-field wire frame.  The frame
    /// always preserves `id`, `connId` and the kind's wire token; and it
    /// decodes back to this very envelope whenever the kind matches the
    /// payload it carries and the payload is expressible on the wire.
    pub fn to_value(&self) -> (r: Json)
        ensures
            req_str_v(r, "id"@) == Ok::<Seq<char>, DecodeErrorV>(self.id@),
            req_str_v(r, "connId"@) == Ok::<Seq<char>, DecodeErrorV>(self.connId@),
            req_str_v(r, "type"@) == Ok::<Seq<char>, DecodeErrorV>(wire_token(self.kind)),
            kind_carries(self.kind, self.data@) && wire_expressible(self.data@)
                ==> message_of(r) == Ok::<MessageArgsV<PayloadV>, DecodeErrorV>(self@),
    {
        let data = self.data.to_value();
        let mut fields: Vec<(String, Json)> = Vec::new();
        fields.push(("id".to_owned(), Json::Str(self.id.clone())));
        fields.push(("connId".to_owned(), Json::Str(self.connId.clone())));
        fields.push(("type".to_owned(), Json::Str(self.kind.as_str().to_owned())));
        fields.push(("data".to_owned(), data));
        let r = Json::Obj(fields);
        proof {
            reveal_with_fuel(crate::json::lookup_fields, 8);
            reveal_strlit("id");
            reveal_strlit("connId");
            reveal_strlit("type");
            reveal_strlit("data");
            assert(("id"@).len() == 2);
            assert(("connId"@).len() == 6);
            assert(("type"@).len() == 4);
            assert(("data"@).len() == 4);
            assert(("type"@)[0] != ("data"@)[0]);
            lemma_wire_token_round_trip(self.kind);
        }
        r
    }
}

/// Encodes an outbound message from its parts: the flat four-field frame
/// the transport sends.
pub fn encode_message(kind: MessageType, data: Payload, id: String, conn_id: String) -> (r: Json)
    ensures
        req_str_v(r, "id"@) == Ok::<Seq<char>, DecodeErrorV>(id@),
        req_str_v(r, "connId"@) == Ok::<Seq<char>, DecodeErrorV>(conn_id@),
        req_str_v(r, "type"@) == Ok::<Seq<char>, DecodeErrorV>(wire_token(kind)),
        kind_carries(kind, data@) && wire_expressible(data@) ==> message_of(r) == Ok::<
            MessageArgsV<PayloadV>,
            DecodeErrorV,
        >(MessageArgsV { id: id@, connId: conn_id@, kind, data: data@ }),
{
    let m = MessageArgs { id, connId: conn_id, kind, data };
    m.to_value()
}

} // verus!
