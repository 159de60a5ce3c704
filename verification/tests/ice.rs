use signaling::candidate::{Candidate, IceCandidate, IceCandidateType, IceProtocol};
use signaling::error::DecodeError;
use signaling::json::Json;

fn s(x: &str) -> Json {
    Json::Str(x.to_string())
}

fn n(x: u64) -> Json {
    Json::Num(Some(x))
}

fn obj(fields: Vec<(&str, Json)>) -> Json {
    Json::Obj(fields.into_iter().map(|(k, v)| (k.to_string(), v)).collect())
}

fn with_candidate(c: Json) -> Json {
    obj(vec![
        ("candidate", c),
        ("userId", s("u1")),
        ("target", s("u2")),
        ("roomId", s("r1")),
    ])
}

#[test]
fn empty_candidate_object_resolves_every_default() {
    let p = Candidate::from_value(&with_candidate(obj(vec![]))).unwrap();
    let d = IceCandidate::default();
    assert_eq!(p.candidate.stats_id, d.stats_id);
    assert_eq!(p.candidate.foundation, d.foundation);
    assert_eq!(p.candidate.priority, d.priority);
    assert_eq!(p.candidate.address, d.address);
    assert_eq!(p.candidate.protocol, d.protocol);
    assert_eq!(p.candidate.port, d.port);
    assert_eq!(p.candidate.typ, d.typ);
    assert_eq!(p.candidate.component, d.component);
    assert_eq!(p.candidate.related_address, d.related_address);
    assert_eq!(p.candidate.related_port, d.related_port);
    assert_eq!(p.candidate.tcp_type, d.tcp_type);
    assert_eq!(p.userId, "u1");
    assert_eq!(p.target, "u2");
    assert_eq!(p.roomId, "r1");
}

#[test]
fn empty_candidate_defaults_are_the_pinned_constants() {
    let d = IceCandidate::default();
    assert_eq!(d.stats_id, "");
    assert_eq!(d.foundation, "");
    assert_eq!(d.priority, 0);
    assert_eq!(d.address, "");
    assert_eq!(d.protocol, IceProtocol::Unspecified);
    assert_eq!(d.port, 0);
    assert_eq!(d.typ, IceCandidateType::Unspecified);
    assert_eq!(d.component, 0);
    assert_eq!(d.related_address, "");
    assert_eq!(d.related_port, 0);
    assert_eq!(d.tcp_type, "");
}

#[test]
fn missing_candidate_object_also_defaults() {
    let v = obj(vec![
        ("userId", s("u1")),
        ("target", s("u2")),
        ("roomId", s("r1")),
    ]);
    let p = Candidate::from_value(&v).unwrap();
    assert_eq!(p.candidate.port, 0);
    assert_eq!(p.candidate.protocol, IceProtocol::Unspecified);
}

#[test]
fn component_rtp_is_one() {
    let p = Candidate::from_value(&with_candidate(obj(vec![("component", s("rtp"))]))).unwrap();
    assert_eq!(p.candidate.component, 1);
}

#[test]
fn component_other_present_value_is_two() {
    let p = Candidate::from_value(&with_candidate(obj(vec![("component", s("rtcp"))]))).unwrap();
    assert_eq!(p.candidate.component, 2);
    let q = Candidate::from_value(&with_candidate(obj(vec![("component", s("video"))]))).unwrap();
    assert_eq!(q.candidate.component, 2);
}

#[test]
fn component_absent_is_default() {
    let p = Candidate::from_value(&with_candidate(obj(vec![]))).unwrap();
    assert_eq!(p.candidate.component, 0);
}

#[test]
fn wrong_typed_port_fails_instead_of_defaulting() {
    match Candidate::from_value(&with_candidate(obj(vec![("port", s("abc"))]))) {
        Err(DecodeError::MalformedPayload { field }) => assert_eq!(field, "candidate.port"),
        other => panic!("expected MalformedPayload candidate.port, got {:?}", other),
    }
}

#[test]
fn numeric_port_fills_port_and_related_port() {
    let p = Candidate::from_value(&with_candidate(obj(vec![("port", n(58063))]))).unwrap();
    assert_eq!(p.candidate.port, 58063);
    assert_eq!(p.candidate.related_port, 58063);
}

#[test]
fn port_out_of_width_fails() {
    match Candidate::from_value(&with_candidate(obj(vec![("port", n(70000))]))) {
        Err(DecodeError::MalformedPayload { field }) => assert_eq!(field, "candidate.port"),
        other => panic!("expected MalformedPayload candidate.port, got {:?}", other),
    }
}

#[test]
fn priority_parses_into_its_width() {
    let p =
        Candidate::from_value(&with_candidate(obj(vec![("priority", n(2122252543))]))).unwrap();
    assert_eq!(p.candidate.priority, 2122252543);
}

#[test]
fn protocol_outside_vocabulary_is_invalid_enum() {
    match Candidate::from_value(&with_candidate(obj(vec![("protocol", s("sctp"))]))) {
        Err(DecodeError::InvalidEnumValue { field, got }) => {
            assert_eq!(field, "candidate.protocol");
            assert_eq!(got, "sctp");
        }
        other => panic!("expected InvalidEnumValue, got {:?}", other),
    }
}

#[test]
fn protocol_vocabulary_decodes() {
    let p = Candidate::from_value(&with_candidate(obj(vec![("protocol", s("udp"))]))).unwrap();
    assert_eq!(p.candidate.protocol, IceProtocol::Udp);
    let q = Candidate::from_value(&with_candidate(obj(vec![("protocol", s("tcp"))]))).unwrap();
    assert_eq!(q.candidate.protocol, IceProtocol::Tcp);
}

#[test]
fn type_is_ignored_without_tcp_type() {
    let p = Candidate::from_value(&with_candidate(obj(vec![("type", s("host"))]))).unwrap();
    assert_eq!(p.candidate.typ, IceCandidateType::Unspecified);
}

#[test]
fn type_is_read_when_tcp_type_is_present() {
    let p = Candidate::from_value(&with_candidate(obj(vec![
        ("tcpType", s("active")),
        ("type", s("host")),
    ])))
    .unwrap();
    assert_eq!(p.candidate.typ, IceCandidateType::Host);
    assert_eq!(p.candidate.tcp_type, "active");
}

#[test]
fn type_outside_vocabulary_with_tcp_type_is_invalid_enum() {
    match Candidate::from_value(&with_candidate(obj(vec![
        ("tcpType", s("active")),
        ("type", s("weird")),
    ]))) {
        Err(DecodeError::InvalidEnumValue { field, got }) => {
            assert_eq!(field, "candidate.type");
            assert_eq!(got, "weird");
        }
        other => panic!("expected InvalidEnumValue, got {:?}", other),
    }
}

#[test]
fn ip_fills_related_address_and_username_fragment_fills_stats_id() {
    let p = Candidate::from_value(&with_candidate(obj(vec![
        ("ip", s("192.168.0.3")),
        ("usernameFragment", s("b276b198")),
        ("address", s("192.168.0.3")),
        ("foundation", s("0")),
    ])))
    .unwrap();
    assert_eq!(p.candidate.related_address, "192.168.0.3");
    assert_eq!(p.candidate.stats_id, "b276b198");
    assert_eq!(p.candidate.address, "192.168.0.3");
    assert_eq!(p.candidate.foundation, "0");
}

#[test]
fn missing_room_id_is_malformed() {
    let v = obj(vec![
        ("candidate", obj(vec![])),
        ("userId", s("u1")),
        ("target", s("u2")),
    ]);
    match Candidate::from_value(&v) {
        Err(DecodeError::MalformedPayload { field }) => assert_eq!(field, "roomId"),
        other => panic!("expected MalformedPayload roomId, got {:?}", other),
    }
}

#[test]
fn full_candidate_re_encodes_equal() {
    let p = Candidate::from_value(&with_candidate(obj(vec![
        ("usernameFragment", s("b276b198")),
        ("foundation", s("0")),
        ("address", s("192.168.0.3")),
        ("protocol", s("udp")),
        ("port", n(58063)),
        ("priority", n(2122252543)),
        ("ip", s("192.168.0.3")),
        ("component", s("rtp")),
        ("tcpType", s("active")),
        ("type", s("host")),
    ])))
    .unwrap();
    let back = Candidate::from_value(&p.to_value()).unwrap();
    assert_eq!(back.candidate.stats_id, p.candidate.stats_id);
    assert_eq!(back.candidate.foundation, p.candidate.foundation);
    assert_eq!(back.candidate.priority, p.candidate.priority);
    assert_eq!(back.candidate.address, p.candidate.address);
    assert_eq!(back.candidate.protocol, p.candidate.protocol);
    assert_eq!(back.candidate.port, p.candidate.port);
    assert_eq!(back.candidate.typ, p.candidate.typ);
    assert_eq!(back.candidate.component, p.candidate.component);
    assert_eq!(back.candidate.related_address, p.candidate.related_address);
    assert_eq!(back.candidate.related_port, p.candidate.related_port);
    assert_eq!(back.candidate.tcp_type, p.candidate.tcp_type);
    assert_eq!(back.userId, p.userId);
    assert_eq!(back.target, p.target);
    assert_eq!(back.roomId, p.roomId);
}

#[test]
fn default_heavy_candidate_re_encodes_equal() {
    let p = Candidate::from_value(&with_candidate(obj(vec![]))).unwrap();
    let back = Candidate::from_value(&p.to_value()).unwrap();
    assert_eq!(back.candidate.protocol, IceProtocol::Unspecified);
    assert_eq!(back.candidate.typ, IceCandidateType::Unspecified);
    assert_eq!(back.candidate.component, 0);
    assert_eq!(back.candidate.port, 0);
    assert_eq!(back.candidate.stats_id, "");
}
