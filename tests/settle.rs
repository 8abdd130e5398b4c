use bevy_ecs::entity::Entity;
use bevy_http_client::outcome::{settle, Envelope, HttpResponseError, Identity};
use bevy_http_client::typed::{settle_typed, TypedEnvelope, TypedResponseError};
use std::collections::HashMap;

fn response(body: &[u8]) -> ehttp::Response {
    ehttp::Response {
        url: "http://ip.example".to_string(),
        ok: true,
        status: 200,
        status_text: "OK".to_string(),
        headers: ehttp::Headers::new(&[("content-type", "application/json")]),
        bytes: body.to_vec(),
    }
}

fn parse(r: &ehttp::Response) -> Result<HashMap<String, String>, String> {
    serde_json::from_slice(&r.bytes).map_err(|e| e.to_string())
}

#[test]
fn identity_borrows_or_spawns() {
    let e = Entity::from_raw_u32(1).unwrap();
    let fresh = Entity::from_raw_u32(2).unwrap();
    let i = Identity::resolve(Some(e), || panic!("no spawn for a caller's entity"));
    assert!(matches!(i, Identity::Borrowed(x) if x == e));
    assert!(!i.is_transient());
    let i = Identity::resolve(None, || fresh);
    assert!(matches!(i, Identity::Owned(x) if x == fresh));
    assert_eq!(i.entity(), fresh);
    assert!(i.is_transient());
}

#[test]
fn success_becomes_a_response_envelope() {
    let e = Entity::from_raw_u32(5).unwrap();
    let s = settle(Identity::Borrowed(e), Ok(response(b"hello")));
    assert_eq!(s.entity, e);
    assert!(!s.despawn);
    match s.envelope {
        Envelope::Response(r) => assert_eq!(r.0.bytes, b"hello".to_vec()),
        Envelope::Error(_) => panic!("expected a response"),
    }
}

#[test]
fn network_failure_becomes_one_error_envelope() {
    let e = Entity::from_raw_u32(6).unwrap();
    let s = settle(Identity::Owned(e), Err("connection refused".to_string()));
    assert!(s.despawn);
    match s.envelope {
        Envelope::Error(err) => assert_eq!(err.err, "connection refused"),
        Envelope::Response(_) => panic!("expected an error"),
    }
    let t = settle_typed::<HashMap<String, String>>(Identity::Owned(e), Err("connection refused".to_string()));
    assert_eq!(t.entity, e);
    assert!(t.despawn);
    match t.envelope {
        TypedEnvelope::Failed(f) => {
            assert_eq!(f.err, "connection refused");
            assert!(f.response.is_none());
        }
        TypedEnvelope::Parsed(_) => panic!("no typed success expected"),
    }
}

#[test]
fn typed_success_carries_the_parsed_value() {
    let e = Entity::from_raw_u32(7).unwrap();
    let r = response(br#"{"ip":"1.2.3.4"}"#);
    let parsed = parse(&r);
    let t = settle_typed(Identity::Borrowed(e), Ok((r, parsed)));
    assert!(!t.despawn);
    assert_eq!(t.entity, e);
    match t.envelope {
        TypedEnvelope::Parsed(p) => {
            assert_eq!(p.inner().get("ip").map(|s| s.as_str()), Some("1.2.3.4"));
            assert_eq!(p.into_inner().len(), 1);
        }
        TypedEnvelope::Failed(_) => panic!("expected a parsed value"),
    }
}

#[test]
fn unparsable_body_keeps_the_raw_response() {
    let e = Entity::from_raw_u32(8).unwrap();
    let r = response(b"not json");
    let parsed = parse(&r);
    let message = parsed.clone().unwrap_err();
    let t = settle_typed(Identity::Borrowed(e), Ok((r, parsed)));
    match t.envelope {
        TypedEnvelope::Failed(f) => {
            assert_eq!(f.err, message);
            let raw = f.response.expect("the raw response is kept");
            assert_eq!(raw.bytes, b"not json".to_vec());
            assert_eq!(raw.status, 200);
        }
        TypedEnvelope::Parsed(_) => panic!("expected a failure"),
    }
}

#[test]
fn error_envelopes_build() {
    assert_eq!(HttpResponseError::new("x".to_string()).err, "x");
    let f = TypedResponseError::<u8>::new("m".to_string()).response(response(b"z"));
    let g = f.clone();
    assert_eq!(g.err, "m");
    assert_eq!(g.response.unwrap().bytes, b"z".to_vec());
}
