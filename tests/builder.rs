use bevy_ecs::entity::Entity;
use bevy_http_client::builder::{HttpClient, HttpClientBuilderError, JsonFallback, JsonSerializationError};
use bevy_http_client::text::blank;
use std::collections::HashMap;

fn pairs(h: &ehttp::Headers) -> Vec<(String, String)> {
    h.headers.clone()
}

fn owned(p: &[(&str, &str)]) -> Vec<(String, String)> {
    p.iter().map(|(a, b)| (a.to_string(), b.to_string())).collect()
}

fn failing_body() -> Result<Vec<u8>, String> {
    let mut m: HashMap<(i32, i32), i32> = HashMap::new();
    m.insert((1, 2), 3);
    serde_json::to_vec(&m).map_err(|e| e.to_string())
}

#[test]
fn get_request_builds_with_defaults() {
    let r = HttpClient::new().get("http://example.com").try_build().unwrap();
    assert_eq!(r.request.method, "GET");
    assert_eq!(r.request.url, "http://example.com");
    assert!(r.request.body.is_empty());
    assert_eq!(pairs(&r.request.headers), owned(&[("Accept", "*/*")]));
    assert!(r.from_entity.is_none());
}

#[test]
fn each_verb_sets_its_method() {
    let m = |c: HttpClient| c.try_build().unwrap().request.method;
    assert_eq!(m(HttpClient::new().post("http://a")), "POST");
    assert_eq!(m(HttpClient::new().put("http://a")), "PUT");
    assert_eq!(m(HttpClient::new().patch("http://a")), "PATCH");
    assert_eq!(m(HttpClient::new().delete("http://a")), "DELETE");
    assert_eq!(m(HttpClient::new().head("http://a")), "HEAD");
}

#[test]
fn missing_method_fails() {
    let r = HttpClient::new().try_build();
    assert_eq!(r.unwrap_err(), HttpClientBuilderError::MissingMethod);
    let r = HttpClient::new().headers(&[("A", "b")]).try_with_type::<String>();
    assert_eq!(r.unwrap_err(), HttpClientBuilderError::MissingMethod);
}

#[test]
fn blank_url_fails() {
    for url in ["", " ", "   ", "\t\n", "\u{3000}\u{a0}"] {
        let r = HttpClient::new().get(url).try_build();
        assert_eq!(r.unwrap_err(), HttpClientBuilderError::MissingUrl);
        let r = HttpClient::new().post(url).try_with_type::<String>();
        assert_eq!(r.unwrap_err(), HttpClientBuilderError::MissingUrl);
    }
}

#[test]
fn url_with_spaces_around_is_kept_whole() {
    let r = HttpClient::new().get(" http://a ").try_build().unwrap();
    assert_eq!(r.request.url, " http://a ");
}

#[test]
fn blank_detects_only_whitespace() {
    assert!(blank(""));
    assert!(blank(" \t\r\n\u{2028}"));
    assert!(!blank(" x "));
    assert!(!blank("\u{200b}"));
}

#[test]
fn builder_error_messages() {
    assert_eq!(HttpClientBuilderError::MissingMethod.message(), "HTTP method is required");
    assert_eq!(HttpClientBuilderError::MissingUrl.message(), "URL is required");
    assert_eq!(HttpClientBuilderError::MissingHeaders.message(), "Headers are required");
}

#[test]
fn headers_replace_the_defaults() {
    let r = HttpClient::new()
        .post("http://a")
        .headers(&[("Content-Type", "text/plain"), ("X", "1")])
        .try_build()
        .unwrap();
    assert_eq!(pairs(&r.request.headers), owned(&[("Content-Type", "text/plain"), ("X", "1")]));
}

#[test]
fn entity_is_carried_to_the_request() {
    let e = Entity::from_raw_u32(42).unwrap();
    let r = HttpClient::new_with_entity(e).get("http://a").try_build().unwrap();
    assert_eq!(r.from_entity, Some(e));
    let r = HttpClient::new().entity(e).get("http://a").build();
    assert_eq!(r.from_entity, Some(e));
}

#[test]
fn request_takes_all_fields() {
    let q = ehttp::Request {
        method: "POST".to_string(),
        url: "http://example.com".to_string(),
        body: vec![1, 2, 3],
        headers: ehttp::Headers::new(&[("Content-Type", "application/json")]),
    };
    let r = HttpClient::new().request(q).try_build().unwrap();
    assert_eq!(r.request.method, "POST");
    assert_eq!(r.request.url, "http://example.com");
    assert_eq!(r.request.body, vec![1, 2, 3]);
    assert_eq!(pairs(&r.request.headers), owned(&[("Content-Type", "application/json")]));
}

#[test]
fn json_body_and_content_type() {
    let body = serde_json::to_vec(&vec![1, 2]).map_err(|e| e.to_string());
    let r = HttpClient::new().post("http://a").json(body).try_build().unwrap();
    assert_eq!(r.request.body, b"[1,2]".to_vec());
    assert_eq!(
        pairs(&r.request.headers),
        owned(&[("Accept", "*/*"), ("Content-Type", "application/json")])
    );
}

#[test]
fn failed_serialisation_uses_the_fallback() {
    assert!(failing_body().is_err());
    let body = |f: JsonFallback| {
        HttpClient::new()
            .post("http://a")
            .json_with_fallback(failing_body(), f)
            .try_build()
            .unwrap()
            .request
            .body
    };
    assert_eq!(body(JsonFallback::EmptyObject), b"{}".to_vec());
    assert_eq!(body(JsonFallback::EmptyArray), b"[]".to_vec());
    assert_eq!(body(JsonFallback::Null), b"null".to_vec());
    assert_eq!(body(JsonFallback::Custom(vec![7, 8])), vec![7, 8]);
    let r = HttpClient::new().post("http://a").json(failing_body()).try_build().unwrap();
    assert_eq!(r.request.body, b"{}".to_vec());
}

#[test]
fn fallback_bytes() {
    assert_eq!(JsonFallback::default().to_bytes(), b"{}".to_vec());
    assert_eq!(JsonFallback::Custom(vec![1]).to_bytes(), vec![1]);
}

#[test]
fn json_safe_reports_the_failure_message() {
    let expected = failing_body().unwrap_err();
    match HttpClient::new().post("http://a").json_safe(failing_body()) {
        Err(JsonSerializationError::SerializationFailed { message, fallback_used }) => {
            assert_eq!(message, expected);
            assert!(matches!(fallback_used, JsonFallback::EmptyObject));
        }
        Ok(_) => panic!("serialisation should have failed"),
    }
}

#[test]
fn json_safe_sets_the_body() {
    let r = HttpClient::new()
        .post("http://a")
        .headers(&[("X", "1")])
        .json_safe(Ok(b"{\"a\":1}".to_vec()))
        .unwrap()
        .try_build()
        .unwrap();
    assert_eq!(r.request.body, b"{\"a\":1}".to_vec());
    assert_eq!(pairs(&r.request.headers), owned(&[("X", "1"), ("Content-Type", "application/json")]));
}

#[test]
fn typed_request_keeps_the_request() {
    let e = Entity::from_raw_u32(3).unwrap();
    let t = HttpClient::new_with_entity(e).get("http://a").try_with_type::<String>().unwrap();
    assert_eq!(t.request.url, "http://a");
    assert_eq!(t.from_entity, Some(e));
    let t = HttpClient::new().get("http://b").with_type::<u32>();
    assert_eq!(t.request.method, "GET");
}
