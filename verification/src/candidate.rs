//! The ICE-candidate bridge and the candidate payload.
//!
//! Every one of the candidate sub-fields is independently optional on the
//! wire: an absent (or null) sub-field resolves to the fixed "empty
//! candidate" default, never an error, while a present sub-field of the
//! wrong type or outside its vocabulary fails the whole decode.  The wire
//! nests the sub-fields under a `candidate` object using browser-native
//! names (`usernameFragment`, `ip`, ...) beside sibling `userId`, `target`
//! and `roomId` fields.

use vstd::prelude::*;

use crate::error::{invalid_enum, malformed, DecodeError, DecodeErrorV};
use crate::json::{field_of, get_field, req_str, req_str_v, str_eq, FromValue, Json};

verus! {

/// The closed vocabulary of candidate transport protocols.
#[derive(Debug, Clone, Copy, PartialEq, Eq, Structural)]
pub enum IceProtocol {
    Unspecified,
    Udp,
    Tcp,
}

/// The closed vocabulary of candidate types.
#[derive(Debug, Clone, Copy, PartialEq, Eq, Structural)]
pub enum IceCandidateType {
    Unspecified,
    Host,
    Srflx,
    Prflx,
    Relay,
}

/// The wire token of a transport protocol.
pub open spec fn protocol_token(p: IceProtocol) -> Seq<char> {
    match p {
        IceProtocol::Unspecified => "unspecified"@,
        IceProtocol::Udp => "udp"@,
        IceProtocol::Tcp => "tcp"@,
    }
}

/// The protocol a wire token names; `None` outside the vocabulary.
pub open spec fn protocol_from_token(s: Seq<char>) -> Option<IceProtocol> {
    if s == "udp"@ {
        Some(IceProtocol::Udp)
    } else if s == "tcp"@ {
        Some(IceProtocol::Tcp)
    } else {
        None
    }
}

/// The wire token of a candidate type.
pub open spec fn candidate_type_token(t: IceCandidateType) -> Seq<char> {
    match t {
        IceCandidateType::Unspecified => "unspecified"@,
        IceCandidateType::Host => "host"@,
        IceCandidateType::Srflx => "srflx"@,
        IceCandidateType::Prflx => "prflx"@,
        IceCandidateType::Relay => "relay"@,
    }
}

/// The candidate type a wire token names; `None` outside the vocabulary.
pub open spec fn candidate_type_from_token(s: Seq<char>) -> Option<IceCandidateType> {
    if s == "host"@ {
        Some(IceCandidateType::Host)
    } else if s == "srflx"@ {
        Some(IceCandidateType::Srflx)
    } else if s == "prflx"@ {
        Some(IceCandidateType::Prflx)
    } else if s == "relay"@ {
        Some(IceCandidateType::Relay)
    } else {
        None
    }
}

impl IceProtocol {
    /// The canonical wire token of this protocol.
    pub fn as_str(&self) -> (r: &'static str)
        ensures
            r@ == protocol_token(*self),
    {
        match self {
            IceProtocol::Unspecified => "unspecified",
            IceProtocol::Udp => "udp",
            IceProtocol::Tcp => "tcp",
        }
    }
}

impl IceCandidateType {
    /// The canonical wire token of this candidate type.
    pub fn as_str(&self) -> (r: &'static str)
        ensures
            r@ == candidate_type_token(*self),
    {
        match self {
            IceCandidateType::Unspecified => "unspecified",
            IceCandidateType::Host => "host",
            IceCandidateType::Srflx => "srflx",
            IceCandidateType::Prflx => "prflx",
            IceCandidateType::Relay => "relay",
        }
    }
}

/// The wire token of every specified protocol names that protocol again.
pub proof fn lemma_protocol_token_round_trip(p: IceProtocol)
    requires
        p != IceProtocol::Unspecified,
    ensures
        protocol_from_token(protocol_token(p)) == Some(p),
{
    reveal_strlit("udp");
    reveal_strlit("tcp");
    assert(("udp"@)[0] != ("tcp"@)[0]);
}

/// The wire token of every specified candidate type names that type again.
pub proof fn lemma_candidate_type_token_round_trip(t: IceCandidateType)
    requires
        t != IceCandidateType::Unspecified,
    ensures
        candidate_type_from_token(candidate_type_token(t)) == Some(t),
{
    reveal_strlit("host");
    reveal_strlit("srflx");
    reveal_strlit("prflx");
    reveal_strlit("relay");
    assert(("host"@).len() != ("srflx"@).len());
    assert(("host"@).len() != ("prflx"@).len());
    assert(("host"@).len() != ("relay"@).len());
    assert(("srflx"@)[0] != ("prflx"@)[0]);
    assert(("srflx"@)[0] != ("relay"@)[0]);
    assert(("prflx"@)[0] != ("relay"@)[0]);
}

/// The internal candidate record: a single network-path proposal.
#[derive(Debug, Clone)]
pub struct IceCandidate {
    pub stats_id: String,
    pub foundation: String,
    pub priority: u32,
    pub address: String,
    pub protocol: IceProtocol,
    pub port: u16,
    pub typ: IceCandidateType,
    pub component: u16,
    pub related_address: String,
    pub related_port: u16,
    pub tcp_type: String,
}

/// The mathematical reading of an `IceCandidate`.
pub struct IceCandidateV {
    pub stats_id: Seq<char>,
    pub foundation: Seq<char>,
    pub priority: u32,
    pub address: Seq<char>,
    pub protocol: IceProtocol,
    pub port: u16,
    pub typ: IceCandidateType,
    pub component: u16,
    pub related_address: Seq<char>,
    pub related_port: u16,
    pub tcp_type: Seq<char>,
}

impl View for IceCandidate {
    type V = IceCandidateV;

    open spec fn view(&self) -> IceCandidateV {
        IceCandidateV {
            stats_id: self.stats_id@,
            foundation: self.foundation@,
            priority: self.priority,
            address: self.address@,
            protocol: self.protocol,
            port: self.port,
            typ: self.typ,
            component: self.component,
            related_address: self.related_address@,
            related_port: self.related_port,
            tcp_type: self.tcp_type@,
        }
    }
}

/// The fixed "empty candidate": every sub-field's platform default.
pub open spec fn default_candidate() -> IceCandidateV {
    IceCandidateV {
        stats_id: Seq::<char>::empty(),
        foundation: Seq::<char>::empty(),
        priority: 0,
        address: Seq::<char>::empty(),
        protocol: IceProtocol::Unspecified,
        port: 0,
        typ: IceCandidateType::Unspecified,
        component: 0,
        related_address: Seq::<char>::empty(),
        related_port: 0,
        tcp_type: Seq::<char>::empty(),
    }
}

impl Default for IceCandidate {
    /// The fixed "empty candidate" as a value.
    fn default() -> (r: IceCandidate)
        ensures
            r@ == default_candidate(),
    {
        IceCandidate {
            stats_id: String::new(),
            foundation: String::new(),
            priority: 0,
            address: String::new(),
            protocol: IceProtocol::Unspecified,
            port: 0,
            typ: IceCandidateType::Unspecified,
            component: 0,
            related_address: String::new(),
            related_port: 0,
            tcp_type: String::new(),
        }
    }
}

/// An optional string sub-field: absent resolves to the empty default, a
/// present non-string is a malformed payload naming `field`.
pub open spec fn opt_str_v(c: Json, key: Seq<char>, field: Seq<char>) -> Result<
    Seq<char>,
    DecodeErrorV,
> {
    match field_of(c, key) {
        None => Ok(Seq::<char>::empty()),
        Some(Json::Str(s)) => Ok(s@),
        Some(_) => Err(DecodeErrorV::MalformedPayload { field }),
    }
}

/// An optional 16-bit sub-field: absent resolves to zero; a present value
/// that is not a JSON number fitting the width is an error.
pub open spec fn opt_u16_v(c: Json, key: Seq<char>, field: Seq<char>) -> Result<
    u16,
    DecodeErrorV,
> {
    match field_of(c, key) {
        None => Ok(0u16),
        Some(Json::Num(Some(n))) => if n <= 0xffff {
            Ok(n as u16)
        } else {
            Err(DecodeErrorV::MalformedPayload { field })
        },
        Some(_) => Err(DecodeErrorV::MalformedPayload { field }),
    }
}

/// An optional 32-bit sub-field, read the same way.
pub open spec fn opt_u32_v(c: Json, key: Seq<char>, field: Seq<char>) -> Result<
    u32,
    DecodeErrorV,
> {
    match field_of(c, key) {
        None => Ok(0u32),
        Some(Json::Num(Some(n))) => if n <= 0xffff_ffff {
            Ok(n as u32)
        } else {
            Err(DecodeErrorV::MalformedPayload { field })
        },
        Some(_) => Err(DecodeErrorV::MalformedPayload { field }),
    }
}

/// The optional protocol sub-field, against its closed vocabulary.
pub open spec fn opt_protocol_v(c: Json) -> Result<IceProtocol, DecodeErrorV> {
    match field_of(c, "protocol"@) {
        None => Ok(IceProtocol::Unspecified),
        Some(Json::Str(s)) => match protocol_from_token(s@) {
            Some(p) => Ok(p),
            None => Err(DecodeErrorV::InvalidEnumValue {
                field: "candidate.protocol"@,
                got: s@,
            }),
        },
        Some(_) => Err(DecodeErrorV::MalformedPayload { field: "candidate.protocol"@ }),
    }
}

/// The optional candidate-type sub-field, against its closed vocabulary.
pub open spec fn opt_candidate_type_v(c: Json) -> Result<IceCandidateType, DecodeErrorV> {
    match field_of(c, "type"@) {
        None => Ok(IceCandidateType::Unspecified),
        Some(Json::Str(s)) => match candidate_type_from_token(s@) {
            Some(t) => Ok(t),
            None => Err(DecodeErrorV::InvalidEnumValue { field: "candidate.type"@, got: s@ }),
        },
        Some(_) => Err(DecodeErrorV::MalformedPayload { field: "candidate.type"@ }),
    }
}

/// The optional component sub-field: a two-valued string vocabulary, `"rtp"`
/// for component 1 and any other present string for component 2.
pub open spec fn opt_component_v(c: Json) -> Result<u16, DecodeErrorV> {
    match field_of(c, "component"@) {
        None => Ok(0u16),
        Some(Json::Str(s)) => Ok(if s@ == "rtp"@ {
            1u16
        } else {
            2u16
        }),
        Some(_) => Err(DecodeErrorV::MalformedPayload { field: "candidate.component"@ }),
    }
}

/// The candidate payload: the resolved internal candidate plus its sibling
/// routing fields.
#[allow(non_snake_case)]
#[derive(Debug)]
pub struct Candidate {
    pub candidate: IceCandidate,
    pub userId: String,
    pub target: String,
    pub roomId: String,
}

/// The mathematical reading of a `Candidate`.
#[allow(non_snake_case)]
pub struct CandidateV {
    pub candidate: IceCandidateV,
    pub userId: Seq<char>,
    pub target: Seq<char>,
    pub roomId: Seq<char>,
}

impl View for Candidate {
    type V = CandidateV;

    open spec fn view(&self) -> CandidateV {
        CandidateV {
            candidate: self.candidate@,
            userId: self.userId@,
            target: self.target@,
            roomId: self.roomId@,
        }
    }
}

/// The candidate payload `v` carries, or the first failure met, sub-fields
/// in wire order before the required `userId`, `target` and `roomId`.
///
/// The wire's `port` number fills both `port` and `relatedPort` of the
/// resolved candidate, and the candidate `type` sub-field is consulted only
/// when `tcpType` is present — a long-standing quirk of the wire contract,
/// kept for compatibility with existing clients.
pub open spec fn candidate_of(v: Json) -> Result<CandidateV, DecodeErrorV> {
    let c = match field_of(v, "candidate"@) {
        Some(o) => o,
        None => Json::Null,
    };
    let stats_id = opt_str_v(c, "usernameFragment"@, "candidate.usernameFragment"@);
    let foundation = opt_str_v(c, "foundation"@, "candidate.foundation"@);
    let address = opt_str_v(c, "address"@, "candidate.address"@);
    let protocol = opt_protocol_v(c);
    let port = opt_u16_v(c, "port"@, "candidate.port"@);
    let priority = opt_u32_v(c, "priority"@, "candidate.priority"@);
    let related_address = opt_str_v(c, "ip"@, "candidate.ip"@);
    let component = opt_component_v(c);
    let tcp_type = opt_str_v(c, "tcpType"@, "candidate.tcpType"@);
    let typ = if field_of(c, "tcpType"@) is Some {
        opt_candidate_type_v(c)
    } else {
        Ok(IceCandidateType::Unspecified)
    };
    let user_id = req_str_v(v, "userId"@);
    let target = req_str_v(v, "target"@);
    let room_id = req_str_v(v, "roomId"@);
    if stats_id is Err {
        Err(stats_id->Err_0)
    } else if foundation is Err {
        Err(foundation->Err_0)
    } else if address is Err {
        Err(address->Err_0)
    } else if protocol is Err {
        Err(protocol->Err_0)
    } else if port is Err {
        Err(port->Err_0)
    } else if priority is Err {
        Err(priority->Err_0)
    } else if related_address is Err {
        Err(related_address->Err_0)
    } else if component is Err {
        Err(component->Err_0)
    } else if tcp_type is Err {
        Err(tcp_type->Err_0)
    } else if typ is Err {
        Err(typ->Err_0)
    } else if user_id is Err {
        Err(user_id->Err_0)
    } else if target is Err {
        Err(target->Err_0)
    } else if room_id is Err {
        Err(room_id->Err_0)
    } else {
        Ok(
            CandidateV {
                candidate: IceCandidateV {
                    stats_id: stats_id->Ok_0,
                    foundation: foundation->Ok_0,
                    priority: priority->Ok_0,
                    address: address->Ok_0,
                    protocol: protocol->Ok_0,
                    port: port->Ok_0,
                    typ: typ->Ok_0,
                    component: component->Ok_0,
                    related_address: related_address->Ok_0,
                    related_port: port->Ok_0,
                    tcp_type: tcp_type->Ok_0,
                },
                userId: user_id->Ok_0,
                target: target->Ok_0,
                roomId: room_id->Ok_0,
            },
        )
    }
}

/// Reads the optional string sub-field `key` of the candidate object.
fn opt_str(c: &Json, key: &str, field: &str) -> (r: Result<String, DecodeError>)
    ensures
        match r {
            Ok(s) => opt_str_v(*c, key@, field@) == Ok::<Seq<char>, DecodeErrorV>(s@),
            Err(e) => opt_str_v(*c, key@, field@) == Err::<Seq<char>, DecodeErrorV>(e@),
        },
{
    match get_field(c, key) {
        None => Ok(String::new()),
        Some(Json::Str(s)) => Ok(s.clone()),
        Some(_) => Err(malformed(field)),
    }
}

/// Reads the optional 16-bit sub-field `key` of the candidate object.
fn opt_u16(c: &Json, key: &str, field: &str) -> (r: Result<u16, DecodeError>)
    ensures
        match r {
            Ok(x) => opt_u16_v(*c, key@, field@) == Ok::<u16, DecodeErrorV>(x),
            Err(e) => opt_u16_v(*c, key@, field@) == Err::<u16, DecodeErrorV>(e@),
        },
{
    match get_field(c, key) {
        None => Ok(0),
        Some(Json::Num(n)) => match n {
            Some(x) => if *x <= 0xffff {
                Ok(*x as u16)
            } else {
                Err(malformed(field))
            },
            None => Err(malformed(field)),
        },
        Some(_) => Err(malformed(field)),
    }
}

/// Reads the optional 32-bit sub-field `key` of the candidate object.
fn opt_u32(c: &Json, key: &str, field: &str) -> (r: Result<u32, DecodeError>)
    ensures
        match r {
            Ok(x) => opt_u32_v(*c, key@, field@) == Ok::<u32, DecodeErrorV>(x),
            Err(e) => opt_u32_v(*c, key@, field@) == Err::<u32, DecodeErrorV>(e@),
        },
{
    match get_field(c, key) {
        None => Ok(0),
        Some(Json::Num(n)) => match n {
            Some(x) => if *x <= 0xffff_ffff {
                Ok(*x as u32)
            } else {
                Err(malformed(field))
            },
            None => Err(malformed(field)),
        },
        Some(_) => Err(malformed(field)),
    }
}

/// Reads the optional protocol sub-field of the candidate object.
fn opt_protocol(c: &Json) -> (r: Result<IceProtocol, DecodeError>)
    ensures
        match r {
            Ok(p) => opt_protocol_v(*c) == Ok::<IceProtocol, DecodeErrorV>(p),
            Err(e) => opt_protocol_v(*c) == Err::<IceProtocol, DecodeErrorV>(e@),
        },
{
    match get_field(c, "protocol") {
        None => Ok(IceProtocol::Unspecified),
        Some(Json::Str(s)) => {
            if str_eq(s.as_str(), "udp") {
                Ok(IceProtocol::Udp)
            } else if str_eq(s.as_str(), "tcp") {
                Ok(IceProtocol::Tcp)
            } else {
                Err(invalid_enum("candidate.protocol", s.as_str()))
            }
        },
        Some(_) => Err(malformed("candidate.protocol")),
    }
}

/// Reads the optional candidate-type sub-field of the candidate object.
fn opt_candidate_type(c: &Json) -> (r: Result<IceCandidateType, DecodeError>)
    ensures
        match r {
            Ok(t) => opt_candidate_type_v(*c) == Ok::<IceCandidateType, DecodeErrorV>(t),
            Err(e) => opt_candidate_type_v(*c) == Err::<IceCandidateType, DecodeErrorV>(e@),
        },
{
    match get_field(c, "type") {
        None => Ok(IceCandidateType::Unspecified),
        Some(Json::Str(s)) => {
            if str_eq(s.as_str(), "host") {
                Ok(IceCandidateType::Host)
            } else if str_eq(s.as_str(), "srflx") {
                Ok(IceCandidateType::Srflx)
            } else if str_eq(s.as_str(), "prflx") {
                Ok(IceCandidateType::Prflx)
            } else if str_eq(s.as_str(), "relay") {
                Ok(IceCandidateType::Relay)
            } else {
                Err(invalid_enum("candidate.type", s.as_str()))
            }
        },
        Some(_) => Err(malformed("candidate.type")),
    }
}

/// Reads the optional component sub-field of the candidate object.
fn opt_component(c: &Json) -> (r: Result<u16, DecodeError>)
    ensures
        match r {
            Ok(x) => opt_component_v(*c) == Ok::<u16, DecodeErrorV>(x),
            Err(e) => opt_component_v(*c) == Err::<u16, DecodeErrorV>(e@),
        },
{
    match get_field(c, "component") {
        None => Ok(0),
        Some(Json::Str(s)) => {
            if str_eq(s.as_str(), "rtp") {
                Ok(1)
            } else {
                Ok(2)
            }
        },
        Some(_) => Err(malformed("candidate.component")),
    }
}

impl Candidate {
    /// Decodes a candidate payload from an untyped payload value.
    pub fn from_value(v: &Json) -> (r: Result<Candidate, DecodeError>)
        ensures
            match r {
                Ok(p) => candidate_of(*v) == Ok::<CandidateV, DecodeErrorV>(p@),
                Err(e) => candidate_of(*v) == Err::<CandidateV, DecodeErrorV>(e@),
            },
    {
        let null = Json::Null;
        let c: &Json = match get_field(v, "candidate") {
            Some(o) => o,
            None => &null,
        };
        let stats_id = match opt_str(c, "usernameFragment", "candidate.usernameFragment") {
            Ok(x) => x,
            Err(e) => {
                return Err(e);
            },
        };
        let foundation = match opt_str(c, "foundation", "candidate.foundation") {
            Ok(x) => x,
            Err(e) => {
                return Err(e);
            },
        };
        let address = match opt_str(c, "address", "candidate.address") {
            Ok(x) => x,
            Err(e) => {
                return Err(e);
            },
        };
        let protocol = match opt_protocol(c) {
            Ok(x) => x,
            Err(e) => {
                return Err(e);
            },
        };
        let port = match opt_u16(c, "port", "candidate.port") {
            Ok(x) => x,
            Err(e) => {
                return Err(e);
            },
        };
        let priority = match opt_u32(c, "priority", "candidate.priority") {
            Ok(x) => x,
            Err(e) => {
                return Err(e);
            },
        };
        let related_address = match opt_str(c, "ip", "candidate.ip") {
            Ok(x) => x,
            Err(e) => {
                return Err(e);
            },
        };
        let component = match opt_component(c) {
            Ok(x) => x,
            Err(e) => {
                return Err(e);
            },
        };
        let tcp_type = match opt_str(c, "tcpType", "candidate.tcpType") {
            Ok(x) => x,
            Err(e) => {
                return Err(e);
            },
        };
        // NOTE: the candidate `type` sub-field is consulted only when
        // `tcpType` is present; this quirk is part of the wire contract and
        // is kept for compatibility with existing clients.
        let tcp_present = match get_field(c, "tcpType") {
            Some(_) => true,
            None => false,
        };
        let typ = if tcp_present {
            match opt_candidate_type(c) {
                Ok(x) => x,
                Err(e) => {
                    return Err(e);
                },
            }
        } else {
            IceCandidateType::Unspecified
        };
        let user_id = match req_str(v, "userId") {
            Ok(x) => x,
            Err(e) => {
                return Err(e);
            },
        };
        let target = match req_str(v, "target") {
            Ok(x) => x,
            Err(e) => {
                return Err(e);
            },
        };
        let room_id = match req_str(v, "roomId") {
            Ok(x) => x,
            Err(e) => {
                return Err(e);
            },
        };
        Ok(
            Candidate {
                candidate: IceCandidate {
                    stats_id,
                    foundation,
                    priority,
                    address,
                    protocol,
                    port,
                    typ,
                    component,
                    related_address,
                    related_port: port,
                    tcp_type,
                },
                userId: user_id,
                target,
                roomId: room_id,
            },
        )
    }

    /// Encodes this payload under the same field names, a defaulted
    /// vocabulary sub-field as JSON null.  The result always decodes, and it
    /// decodes back to this very value whenever the candidate's
    /// `related_port` agrees with its `port` (the wire carries one number
    /// for both) and its `component` is one the component vocabulary can
    /// express.
    #[verifier::rlimit(60)]
    pub fn to_value(&self) -> (r: Json)
        ensures
            candidate_of(r) is Ok,
            self.candidate.related_port == self.candidate.port && self.candidate.component <= 2
                ==> candidate_of(r) == Ok::<CandidateV, DecodeErrorV>(self@),
    {
        let mut inner: Vec<(String, Json)> = Vec::new();
        inner.push(("usernameFragment".to_owned(), Json::Str(self.candidate.stats_id.clone())));
        inner.push(("foundation".to_owned(), Json::Str(self.candidate.foundation.clone())));
        inner.push(("address".to_owned(), Json::Str(self.candidate.address.clone())));
        let protocol = match self.candidate.protocol {
            IceProtocol::Unspecified => Json::Null,
            _ => Json::Str(self.candidate.protocol.as_str().to_owned()),
        };
        inner.push(("protocol".to_owned(), protocol));
        inner.push(("port".to_owned(), Json::Num(Some(self.candidate.port as u64))));
        inner.push(("priority".to_owned(), Json::Num(Some(self.candidate.priority as u64))));
        inner.push(("ip".to_owned(), Json::Str(self.candidate.related_address.clone())));
        let component = if self.candidate.component == 0 {
            Json::Null
        } else if self.candidate.component == 1 {
            Json::Str("rtp".to_owned())
        } else {
            Json::Str("rtcp".to_owned())
        };
        inner.push(("component".to_owned(), component));
        inner.push(("tcpType".to_owned(), Json::Str(self.candidate.tcp_type.clone())));
        let typ = match self.candidate.typ {
            IceCandidateType::Unspecified => Json::Null,
            _ => Json::Str(self.candidate.typ.as_str().to_owned()),
        };
        inner.push(("type".to_owned(), typ));
        let mut fields: Vec<(String, Json)> = Vec::new();
        fields.push(("candidate".to_owned(), Json::Obj(inner)));
        fields.push(("userId".to_owned(), Json::Str(self.userId.clone())));
        fields.push(("target".to_owned(), Json::Str(self.target.clone())));
        fields.push(("roomId".to_owned(), Json::Str(self.roomId.clone())));
        let r = Json::Obj(fields);
        proof {
            reveal_with_fuel(crate::json::lookup_fields, 12);
            reveal_strlit("usernameFragment");
            reveal_strlit("foundation");
            reveal_strlit("address");
            reveal_strlit("protocol");
            reveal_strlit("port");
            reveal_strlit("priority");
            reveal_strlit("ip");
            reveal_strlit("component");
            reveal_strlit("tcpType");
            reveal_strlit("type");
            reveal_strlit("candidate");
            reveal_strlit("userId");
            reveal_strlit("target");
            reveal_strlit("roomId");
            reveal_strlit("rtp");
            reveal_strlit("rtcp");
            assert(("usernameFragment"@).len() == 16);
            assert(("foundation"@).len() == 10);
            assert(("address"@).len() == 7);
            assert(("protocol"@).len() == 8);
            assert(("port"@).len() == 4);
            assert(("priority"@).len() == 8);
            assert(("ip"@).len() == 2);
            assert(("component"@).len() == 9);
            assert(("tcpType"@).len() == 7);
            assert(("type"@).len() == 4);
            assert(("candidate"@).len() == 9);
            assert(("userId"@).len() == 6);
            assert(("target"@).len() == 6);
            assert(("roomId"@).len() == 6);
            assert(("rtp"@).len() == 3);
            assert(("rtcp"@).len() == 4);
            assert(("protocol"@)[2] != ("priority"@)[2]);
            assert(("address"@)[0] != ("tcpType"@)[0]);
            assert(("port"@)[0] != ("type"@)[0]);
            assert(("userId"@)[0] != ("target"@)[0]);
            assert(("userId"@)[0] != ("roomId"@)[0]);
            assert(("target"@)[0] != ("roomId"@)[0]);
            if self.candidate.protocol != IceProtocol::Unspecified {
                lemma_protocol_token_round_trip(self.candidate.protocol);
            }
            if self.candidate.typ != IceCandidateType::Unspecified {
                lemma_candidate_type_token_round_trip(self.candidate.typ);
            }
        }
        r
    }
}

impl FromValue for Candidate {
    open spec fn decoded(v: Json) -> Result<CandidateV, DecodeErrorV> {
        candidate_of(v)
    }

    fn from_value(v: &Json) -> (r: Result<Candidate, DecodeError>) {
        Candidate::from_value(v)
    }
}

} // verus!
