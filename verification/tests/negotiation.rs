use signaling::error::DecodeError;
use signaling::json::Json;
use signaling::payloads::{Answer, Offer};
use signaling::sdp::SdpType;

fn s(x: &str) -> Json {
    Json::Str(x.to_string())
}

fn obj(fields: Vec<(&str, Json)>) -> Json {
    Json::Obj(fields.into_iter().map(|(k, v)| (k.to_string(), v)).collect())
}

fn offer_payload() -> Json {
    obj(vec![
        ("sdp", obj(vec![("sdp", s("v=0...")), ("type", s("offer"))])),
        ("userId", s("u1")),
        ("target", s("u2")),
        ("mimeType", s("video/webm")),
        ("roomId", s("r1")),
    ])
}

#[test]
fn offer_decodes_through_the_canonical_pair() {
    let p = Offer::from_value(&offer_payload()).unwrap();
    assert_eq!(p.sdp.sdp_type, SdpType::Offer);
    assert_eq!(p.sdp.sdp, "v=0...");
    assert_eq!(p.userId, "u1");
    assert_eq!(p.target, "u2");
    assert_eq!(p.mimeType, "video/webm");
    assert_eq!(p.roomId, "r1");
}

#[test]
fn offer_without_target_is_malformed_target() {
    let v = obj(vec![
        ("sdp", obj(vec![("sdp", s("v=0...")), ("type", s("offer"))])),
        ("userId", s("u1")),
        ("mimeType", s("video/webm")),
        ("roomId", s("r1")),
    ]);
    match Offer::from_value(&v) {
        Err(DecodeError::MalformedPayload { field }) => assert_eq!(field, "target"),
        other => panic!("expected MalformedPayload target, got {:?}", other),
    }
}

#[test]
fn offer_without_sdp_text_is_malformed_sdp_sdp() {
    let v = obj(vec![
        ("sdp", obj(vec![("type", s("offer"))])),
        ("userId", s("u1")),
        ("target", s("u2")),
        ("mimeType", s("video/webm")),
        ("roomId", s("r1")),
    ]);
    match Offer::from_value(&v) {
        Err(DecodeError::MalformedPayload { field }) => assert_eq!(field, "sdp.sdp"),
        other => panic!("expected MalformedPayload sdp.sdp, got {:?}", other),
    }
}

#[test]
fn unrecognized_sdp_type_tag_is_a_constructor_rejection() {
    let v = obj(vec![
        ("sdp", obj(vec![("sdp", s("v=0...")), ("type", s("weird"))])),
        ("userId", s("u1")),
        ("target", s("u2")),
        ("mimeType", s("video/webm")),
        ("roomId", s("r1")),
    ]);
    match Offer::from_value(&v) {
        Err(DecodeError::InternalConstructionRejected) => {}
        other => panic!("expected InternalConstructionRejected, got {:?}", other),
    }
}

#[test]
fn every_sdp_type_tag_decodes() {
    for (tag, want) in vec![
        ("offer", SdpType::Offer),
        ("answer", SdpType::Answer),
        ("pranswer", SdpType::Pranswer),
        ("rollback", SdpType::Rollback),
    ] {
        let v = obj(vec![
            ("sdp", obj(vec![("sdp", s("v=0...")), ("type", s(tag))])),
            ("userId", s("u1")),
            ("target", s("u2")),
        ]);
        let p = Answer::from_value(&v).unwrap();
        assert_eq!(p.sdp.sdp_type, want);
    }
}

#[test]
fn answer_decodes_and_re_encodes_equal() {
    let v = obj(vec![
        ("sdp", obj(vec![("sdp", s("v=0...")), ("type", s("answer"))])),
        ("userId", s("u1")),
        ("target", s("u2")),
    ]);
    let p = Answer::from_value(&v).unwrap();
    let back = Answer::from_value(&p.to_value()).unwrap();
    assert_eq!(back.sdp.sdp_type, p.sdp.sdp_type);
    assert_eq!(back.sdp.sdp, p.sdp.sdp);
    assert_eq!(back.userId, p.userId);
    assert_eq!(back.target, p.target);
}

#[test]
fn offer_re_encodes_equal() {
    let p = Offer::from_value(&offer_payload()).unwrap();
    let back = Offer::from_value(&p.to_value()).unwrap();
    assert_eq!(back.sdp.sdp_type, p.sdp.sdp_type);
    assert_eq!(back.sdp.sdp, p.sdp.sdp);
    assert_eq!(back.userId, p.userId);
    assert_eq!(back.target, p.target);
    assert_eq!(back.mimeType, p.mimeType);
    assert_eq!(back.roomId, p.roomId);
}
