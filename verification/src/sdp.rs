//! The session-description bridge for offer/answer negotiation.
//!
//! Decoding always passes through the canonical two-field `{type, sdp}`
//! record before reaching the internal negotiation type, so wire-level field
//! extraction and the internal type's own construction rules can evolve
//! independently.

use vstd::prelude::*;

use crate::error::{malformed, DecodeError, DecodeErrorV};
use crate::json::{field_of, get_field, str_eq, Json};

verus! {

/// The closed vocabulary of session-description type tags.
#[derive(Debug, Clone, Copy, PartialEq, Eq, Structural)]
pub enum SdpType {
    Offer,
    Answer,
    Pranswer,
    Rollback,
}

/// The wire token of a session-description type tag.
pub open spec fn sdp_type_token(t: SdpType) -> Seq<char> {
    match t {
        SdpType::Offer => "offer"@,
        SdpType::Answer => "answer"@,
        SdpType::Pranswer => "pranswer"@,
        SdpType::Rollback => "rollback"@,
    }
}

/// The type tag a wire token names; `None` outside the vocabulary.
pub open spec fn sdp_type_from_token(s: Seq<char>) -> Option<SdpType> {
    if s == "offer"@ {
        Some(SdpType::Offer)
    } else if s == "answer"@ {
        Some(SdpType::Answer)
    } else if s == "pranswer"@ {
        Some(SdpType::Pranswer)
    } else if s == "rollback"@ {
        Some(SdpType::Rollback)
    } else {
        None
    }
}

/// The internal session-description record of the negotiation layer.
#[derive(Debug, Clone)]
pub struct SessionDescription {
    pub sdp_type: SdpType,
    /// The session-description text, opaque to this layer.
    pub sdp: String,
}

/// The mathematical reading of a `SessionDescription`.
pub struct SessionDescriptionV {
    pub sdp_type: SdpType,
    pub sdp: Seq<char>,
}

impl View for SessionDescription {
    type V = SessionDescriptionV;

    open spec fn view(&self) -> SessionDescriptionV {
        SessionDescriptionV { sdp_type: self.sdp_type, sdp: self.sdp@ }
    }
}

impl SdpType {
    /// The canonical wire token of this type tag.
    pub fn as_str(&self) -> (r: &'static str)
        ensures
            r@ == sdp_type_token(*self),
    {
        match self {
            SdpType::Offer => "offer",
            SdpType::Answer => "answer",
            SdpType::Pranswer => "pranswer",
            SdpType::Rollback => "rollback",
        }
    }
}

impl SessionDescription {
    /// The internal constructor: takes the canonical `{type, sdp}` record
    /// and rejects a type tag outside its vocabulary.
    pub fn from_canonical(type_tag: &str, sdp: String) -> (r: Result<SessionDescription, DecodeError>)
        ensures
            match r {
                Ok(d) => sdp_type_from_token(type_tag@) == Some(d.sdp_type) && d.sdp@ == sdp@,
                Err(e) => sdp_type_from_token(type_tag@) is None && e@
                    == DecodeErrorV::InternalConstructionRejected,
            },
    {
        let sdp_type = if str_eq(type_tag, "offer") {
            SdpType::Offer
        } else if str_eq(type_tag, "answer") {
            SdpType::Answer
        } else if str_eq(type_tag, "pranswer") {
            SdpType::Pranswer
        } else if str_eq(type_tag, "rollback") {
            SdpType::Rollback
        } else {
            return Err(DecodeError::InternalConstructionRejected);
        };
        Ok(SessionDescription { sdp_type, sdp })
    }
}

/// The canonical reading of the `sdp` object nested in payload `v`: the
/// session description the payload carries, or the first failure met while
/// reading `sdp.sdp` then `sdp.type`.
pub open spec fn session_description_of(v: Json) -> Result<SessionDescriptionV, DecodeErrorV> {
    let inner = match field_of(v, "sdp"@) {
        Some(o) => o,
        None => Json::Null,
    };
    match field_of(inner, "sdp"@) {
        Some(Json::Str(sdp)) => match field_of(inner, "type"@) {
            Some(Json::Str(tag)) => match sdp_type_from_token(tag@) {
                Some(t) => Ok(SessionDescriptionV { sdp_type: t, sdp: sdp@ }),
                None => Err(DecodeErrorV::InternalConstructionRejected),
            },
            _ => Err(DecodeErrorV::MalformedPayload { field: "sdp.type"@ }),
        },
        _ => Err(DecodeErrorV::MalformedPayload { field: "sdp.sdp"@ }),
    }
}

/// Reads the canonical `{type, sdp}` pair out of the `sdp` object nested in
/// payload `v` and hands it to the internal constructor, propagating its
/// rejection as a decode failure.
pub fn decode_session_description(v: &Json) -> (r: Result<SessionDescription, DecodeError>)
    ensures
        match r {
            Ok(d) => session_description_of(*v) == Ok::<SessionDescriptionV, DecodeErrorV>(d@),
            Err(e) => session_description_of(*v) == Err::<SessionDescriptionV, DecodeErrorV>(e@),
        },
{
    let inner = match get_field(v, "sdp") {
        Some(o) => o,
        None => {
            return Err(malformed("sdp.sdp"));
        },
    };
    let sdp = match get_field(inner, "sdp") {
        Some(Json::Str(s)) => s.clone(),
        _ => {
            return Err(malformed("sdp.sdp"));
        },
    };
    let tag = match get_field(inner, "type") {
        Some(Json::Str(t)) => t,
        _ => {
            return Err(malformed("sdp.type"));
        },
    };
    SessionDescription::from_canonical(tag.as_str(), sdp)
}

/// The wire token of every session-description type tag names that tag
/// again.
pub proof fn lemma_sdp_type_token_round_trip(t: SdpType)
    ensures
        sdp_type_from_token(sdp_type_token(t)) == Some(t),
{
    reveal_strlit("offer");
    reveal_strlit("answer");
    reveal_strlit("pranswer");
    reveal_strlit("rollback");
    assert(("offer"@).len() != ("answer"@).len());
    assert(("offer"@).len() != ("pranswer"@).len());
    assert(("offer"@).len() != ("rollback"@).len());
    assert(("answer"@).len() != ("pranswer"@).len());
    assert(("answer"@).len() != ("rollback"@).len());
    assert(("pranswer"@)[0] != ("rollback"@)[0]);
}

} // verus!
