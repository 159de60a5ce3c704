use signaling::envelope::{decode_message, encode_message, MessageArgs, Payload};
use signaling::error::DecodeError;
use signaling::json::Json;
use signaling::kind::MessageType;
use signaling::sdp::SdpType;

fn s(x: &str) -> Json {
    Json::Str(x.to_string())
}

fn obj(fields: Vec<(&str, Json)>) -> Json {
    Json::Obj(fields.into_iter().map(|(k, v)| (k.to_string(), v)).collect())
}

fn offer_frame() -> Json {
    obj(vec![
        ("id", s("m1")),
        ("connId", s("c1")),
        ("type", s("OFFER")),
        (
            "data",
            obj(vec![
                ("sdp", obj(vec![("sdp", s("v=0...")), ("type", s("offer"))])),
                ("userId", s("u1")),
                ("target", s("u2")),
                ("mimeType", s("video/webm")),
                ("roomId", s("r1")),
            ]),
        ),
    ])
}

#[test]
fn a_full_offer_frame_decodes() {
    let m = decode_message(&offer_frame()).unwrap();
    assert_eq!(m.id, "m1");
    assert_eq!(m.connId, "c1");
    assert_eq!(m.kind, MessageType::OFFER);
    match m.data {
        Payload::Offer(p) => {
            assert_eq!(p.sdp.sdp_type, SdpType::Offer);
            assert_eq!(p.userId, "u1");
        }
        other => panic!("expected an offer payload, got {:?}", other),
    }
}

#[test]
fn frame_without_conn_id_is_malformed() {
    let v = obj(vec![("id", s("m1")), ("type", s("OFFER"))]);
    match decode_message(&v) {
        Err(DecodeError::MalformedPayload { field }) => assert_eq!(field, "connId"),
        other => panic!("expected MalformedPayload connId, got {:?}", other),
    }
}

#[test]
fn frame_with_unknown_type_token_fails() {
    let v = obj(vec![
        ("id", s("m1")),
        ("connId", s("c1")),
        ("type", s("NOT_A_KIND")),
    ]);
    match decode_message(&v) {
        Err(DecodeError::UnknownKind { got }) => assert_eq!(got, "NOT_A_KIND"),
        other => panic!("expected UnknownKind, got {:?}", other),
    }
}

#[test]
fn kinds_without_inbound_data_take_the_unit_payload() {
    let v = obj(vec![
        ("id", s("m1")),
        ("connId", s("c1")),
        ("type", s("GET_ROOM_GUESTS")),
    ]);
    let m = decode_message(&v).unwrap();
    assert!(matches!(m.data, Payload::Unit));
}

#[test]
fn encode_of_decode_preserves_id_conn_id_and_kind() {
    let m = decode_message(&offer_frame()).unwrap();
    let wire = m.to_value();
    let back = decode_message(&wire).unwrap();
    assert_eq!(back.id, "m1");
    assert_eq!(back.connId, "c1");
    assert_eq!(back.kind, MessageType::OFFER);
    match (back.data, m.data) {
        (Payload::Offer(b), Payload::Offer(p)) => {
            assert_eq!(b.sdp.sdp_type, p.sdp.sdp_type);
            assert_eq!(b.sdp.sdp, p.sdp.sdp);
            assert_eq!(b.userId, p.userId);
            assert_eq!(b.target, p.target);
            assert_eq!(b.mimeType, p.mimeType);
            assert_eq!(b.roomId, p.roomId);
        }
        other => panic!("expected offer payloads, got {:?}", other),
    }
}

#[test]
fn candidate_frame_round_trips_through_the_envelope() {
    let v = obj(vec![
        ("id", s("m2")),
        ("connId", s("c2")),
        ("type", s("CANDIDATE")),
        (
            "data",
            obj(vec![
                (
                    "candidate",
                    obj(vec![
                        ("usernameFragment", s("frag")),
                        ("protocol", s("udp")),
                        ("port", Json::Num(Some(4242))),
                        ("component", s("rtp")),
                    ]),
                ),
                ("userId", s("u1")),
                ("target", s("u2")),
                ("roomId", s("r1")),
            ]),
        ),
    ]);
    let m = decode_message(&v).unwrap();
    let back = decode_message(&m.to_value()).unwrap();
    assert_eq!(back.kind, MessageType::CANDIDATE);
    match (back.data, m.data) {
        (Payload::Candidate(b), Payload::Candidate(p)) => {
            assert_eq!(b.candidate.stats_id, p.candidate.stats_id);
            assert_eq!(b.candidate.protocol, p.candidate.protocol);
            assert_eq!(b.candidate.port, p.candidate.port);
            assert_eq!(b.candidate.related_port, p.candidate.related_port);
            assert_eq!(b.candidate.component, p.candidate.component);
            assert_eq!(b.userId, p.userId);
        }
        other => panic!("expected candidate payloads, got {:?}", other),
    }
}

#[test]
fn encode_message_builds_the_flat_four_field_frame() {
    let wire = encode_message(
        MessageType::SET_ROOM_GUESTS,
        Payload::Unit,
        "m3".to_string(),
        "c3".to_string(),
    );
    match &wire {
        Json::Obj(fields) => {
            assert_eq!(fields.len(), 4);
            assert_eq!(fields[0].0, "id");
            assert_eq!(fields[1].0, "connId");
            assert_eq!(fields[2].0, "type");
            assert!(matches!(&fields[2].1, Json::Str(x) if x == "SET_ROOM_GUESTS"));
            assert_eq!(fields[3].0, "data");
            assert!(matches!(fields[3].1, Json::Null));
        }
        other => panic!("expected object, got {:?}", other),
    }
    let m = decode_message(&wire).unwrap();
    assert_eq!(m.id, "m3");
    assert_eq!(m.connId, "c3");
    assert_eq!(m.kind, MessageType::SET_ROOM_GUESTS);
    assert!(matches!(m.data, Payload::Unit));
}

#[test]
fn a_whole_message_can_be_built_and_sent() {
    let m = MessageArgs {
        id: "m4".to_string(),
        connId: "c4".to_string(),
        kind: MessageType::GET_LOCALE,
        data: Payload::GetLocale(signaling::payloads::GetLocale {
            locale: signaling::locale::LocaleValue::En,
        }),
    };
    let back = decode_message(&m.to_value()).unwrap();
    assert_eq!(back.id, "m4");
    assert_eq!(back.kind, MessageType::GET_LOCALE);
    match back.data {
        Payload::GetLocale(p) => assert_eq!(p.locale, signaling::locale::LocaleValue::En),
        other => panic!("expected a locale payload, got {:?}", other),
    }
}
