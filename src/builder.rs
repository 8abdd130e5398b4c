//! The request builder: method, URL, headers and body, checked when built.

use vstd::prelude::*;
use crate::text::{blank, is_blank};
use crate::transport::{header_pairs, headers_insert};
use crate::typed::TypedRequest;

verus! {

/// What a JSON body becomes when serialising it failed.
#[derive(Debug, Clone)]
pub enum JsonFallback {
    /// `{}`
    EmptyObject,
    /// `[]`
    EmptyArray,
    /// `null`
    Null,
    /// The given bytes.
    Custom(Vec<u8>),
}

/// The bytes that stand for a fallback.
pub open spec fn fallback_bytes(f: JsonFallback) -> Seq<u8> {
    match f {
        JsonFallback::EmptyObject => seq![0x7bu8, 0x7du8],
        JsonFallback::EmptyArray => seq![0x5bu8, 0x5du8],
        JsonFallback::Null => seq![0x6eu8, 0x75u8, 0x6cu8, 0x6cu8],
        JsonFallback::Custom(data) => data@,
    }
}

impl JsonFallback {
    /// The bytes that stand for this fallback.
    pub fn to_bytes(&self) -> (r: Vec<u8>)
        ensures
            r@ == fallback_bytes(*self),
    {
        match self {
            JsonFallback::EmptyObject => vec![0x7bu8, 0x7du8],
            JsonFallback::EmptyArray => vec![0x5bu8, 0x5du8],
            JsonFallback::Null => vec![0x6eu8, 0x75u8, 0x6cu8, 0x6cu8],
            JsonFallback::Custom(data) => {
                let mut out: Vec<u8> = Vec::new();
                let mut i: usize = 0;
                while i < data.len()
                    invariant
                        i <= data@.len(),
                        out@ == data@.take(i as int),
                    decreases data@.len() - i,
                {
                    out.push(data[i]);
                    i = i + 1;
                    assert(out@ =~= data@.take(i as int));
                }
                assert(out@ =~= data@);
                out
            },
        }
    }
}

impl Default for JsonFallback {
    /// The empty object.
    fn default() -> (r: Self)
        ensures
            r is EmptyObject,
    {
        JsonFallback::EmptyObject
    }
}

/// A JSON body could not be serialised.
#[derive(Debug, Clone)]
pub enum JsonSerializationError {
    /// The serialiser's message, and the fallback that stood ready.
    SerializationFailed { message: String, fallback_used: JsonFallback },
}

/// A field that a request needs is not set.
#[derive(Debug, Clone, Copy, PartialEq, Eq, Structural)]
pub enum HttpClientBuilderError {
    MissingMethod,
    MissingUrl,
    MissingHeaders,
}

impl HttpClientBuilderError {
    /// What is missing, in words.
    pub fn message(&self) -> (r: &'static str)
        ensures
            self is MissingMethod ==> r@ == "HTTP method is required"@,
            self is MissingUrl ==> r@ == "URL is required"@,
            self is MissingHeaders ==> r@ == "Headers are required"@,
    {
        match self {
            HttpClientBuilderError::MissingMethod => "HTTP method is required",
            HttpClientBuilderError::MissingUrl => "URL is required",
            HttpClientBuilderError::MissingHeaders => "Headers are required",
        }
    }
}

/// A built request, and the entity its response goes back to, if any.
#[derive(Debug, Clone)]
pub struct HttpRequest {
    pub from_entity: Option<bevy_ecs::entity::Entity>,
    pub request: ehttp::Request,
}

/// What a builder holds, as plain values.
pub struct ClientModel {
    pub from_entity: Option<bevy_ecs::entity::Entity>,
    pub method: Option<Seq<char>>,
    pub url: Option<Seq<char>>,
    pub body: Seq<u8>,
    pub headers: Option<Seq<(Seq<char>, Seq<char>)>>,
}

/// The headers a new builder starts with: accept any content type.
pub open spec fn default_headers() -> Seq<(Seq<char>, Seq<char>)> {
    seq![("Accept"@, "*/*"@)]
}

/// The headers once a JSON body is set: a content type is added to the
/// headers there are, or, where there are none, the defaults are given
/// after it.
pub open spec fn json_headers(h: Option<Seq<(Seq<char>, Seq<char>)>>) -> Seq<
    (Seq<char>, Seq<char>),
> {
    match h {
        Some(pairs) => pairs.push(("Content-Type"@, "application/json"@)),
        None => seq![("Content-Type"@, "application/json"@), ("Accept"@, "*/*"@)],
    }
}

/// The first field, in the order method, URL, headers, that a request built
/// from this model lacks; a URL that is empty or only whitespace counts as
/// missing. `None` where nothing is missing.
pub open spec fn missing_field(m: ClientModel) -> Option<HttpClientBuilderError> {
    if m.method is None {
        Some(HttpClientBuilderError::MissingMethod)
    } else if m.url is None || is_blank(m.url->0) {
        Some(HttpClientBuilderError::MissingUrl)
    } else if m.headers is None {
        Some(HttpClientBuilderError::MissingHeaders)
    } else {
        None
    }
}

/// The request carries the method, URL, body and headers of the model.
pub open spec fn carries(q: ehttp::Request, m: ClientModel) -> bool {
    &&& m.method == Some(q.method@)
    &&& m.url == Some(q.url@)
    &&& m.body == q.body@
    &&& m.headers == Some(header_pairs(q.headers))
}

/// Builds an HTTP request step by step.
#[derive(Debug, Clone)]
pub struct HttpClient {
    from_entity: Option<bevy_ecs::entity::Entity>,
    method: Option<String>,
    url: Option<String>,
    body: Vec<u8>,
    headers: Option<ehttp::Headers>,
}

impl View for HttpClient {
    type V = ClientModel;

    closed spec fn view(&self) -> ClientModel {
        ClientModel {
            from_entity: self.from_entity,
            method: match self.method {
                Some(m) => Some(m@),
                None => None,
            },
            url: match self.url {
                Some(u) => Some(u@),
                None => None,
            },
            body: self.body@,
            headers: match self.headers {
                Some(h) => Some(header_pairs(h)),
                None => None,
            },
        }
    }
}

/// Relies on `ehttp::Headers::new`, for the headers every builder starts with.
fn accept_any() -> (r: ehttp::Headers)
    ensures
        header_pairs(r) == default_headers(),
{
    let r = ehttp::Headers::new(&[("Accept", "*/*")]);
    assert(header_pairs(r) =~= default_headers());
    r
}

impl HttpClient {
    /// A builder with no method, no URL, an empty body, and headers that
    /// accept any content type.
    pub fn new() -> (r: Self)
        ensures
            r@.from_entity is None,
            r@.method is None,
            r@.url is None,
            r@.body == Seq::<u8>::empty(),
            r@.headers == Some(default_headers()),
    {
        HttpClient {
            from_entity: None,
            method: None,
            url: None,
            body: Vec::new(),
            headers: Some(accept_any()),
        }
    }

    /// A new builder whose response goes back to the given entity.
    pub fn new_with_entity(entity: bevy_ecs::entity::Entity) -> (r: Self)
        ensures
            r@.from_entity == Some(entity),
            r@.method is None,
            r@.url is None,
            r@.body == Seq::<u8>::empty(),
            r@.headers == Some(default_headers()),
    {
        HttpClient {
            from_entity: Some(entity),
            method: None,
            url: None,
            body: Vec::new(),
            headers: Some(accept_any()),
        }
    }

    /// Sets the method and the URL; the rest is kept.
    fn with_target(self, method: &str, url: &str) -> (r: Self)
        ensures
            r@.method == Some(method@),
            r@.url == Some(url@),
            r@.from_entity == self@.from_entity,
            r@.body == self@.body,
            r@.headers == self@.headers,
    {
        HttpClient {
            method: Some(method.to_string()),
            url: Some(url.to_string()),
            ..self
        }
    }

    /// A `GET` request to the given URL.
    pub fn get(self, url: &str) -> (r: Self)
        ensures
            r@.method == Some("GET"@),
            r@.url == Some(url@),
            r@.from_entity == self@.from_entity,
            r@.body == self@.body,
            r@.headers == self@.headers,
    {
        self.with_target("GET", url)
    }

    /// A `POST` request to the given URL.
    pub fn post(self, url: &str) -> (r: Self)
        ensures
            r@.method == Some("POST"@),
            r@.url == Some(url@),
            r@.from_entity == self@.from_entity,
            r@.body == self@.body,
            r@.headers == self@.headers,
    {
        self.with_target("POST", url)
    }

    /// A `PUT` request to the given URL.
    pub fn put(self, url: &str) -> (r: Self)
        ensures
            r@.method == Some("PUT"@),
            r@.url == Some(url@),
            r@.from_entity == self@.from_entity,
            r@.body == self@.body,
            r@.headers == self@.headers,
    {
        self.with_target("PUT", url)
    }

    /// A `PATCH` request to the given URL.
    pub fn patch(self, url: &str) -> (r: Self)
        ensures
            r@.method == Some("PATCH"@),
            r@.url == Some(url@),
            r@.from_entity == self@.from_entity,
            r@.body == self@.body,
            r@.headers == self@.headers,
    {
        self.with_target("PATCH", url)
    }

    /// A `DELETE` request to the given URL.
    pub fn delete(self, url: &str) -> (r: Self)
        ensures
            r@.method == Some("DELETE"@),
            r@.url == Some(url@),
            r@.from_entity == self@.from_entity,
            r@.body == self@.body,
            r@.headers == self@.headers,
    {
        self.with_target("DELETE", url)
    }

    /// A `HEAD` request to the given URL.
    pub fn head(self, url: &str) -> (r: Self)
        ensures
            r@.method == Some("HEAD"@),
            r@.url == Some(url@),
            r@.from_entity == self@.from_entity,
            r@.body == self@.body,
            r@.headers == self@.headers,
    {
        self.with_target("HEAD", url)
    }

    /// Replaces the headers with the given pairs, in order.
    pub fn headers(self, headers: &[(&str, &str)]) -> (r: Self)
        ensures
            r@.headers is Some,
            r@.headers->0.len() == headers@.len(),
            forall|i: int|
                0 <= i < headers@.len() ==> #[trigger] r@.headers->0[i] == (
                headers@[i].0@,
                headers@[i].1@,
            ),
            r@.from_entity == self@.from_entity,
            r@.method == self@.method,
            r@.url == self@.url,
            r@.body == self@.body,
    {
        HttpClient { headers: Some(ehttp::Headers::new(headers)), ..self }
    }

    /// Marks the body as JSON: the content type is added to the headers.
    fn with_json_content_type(self) -> (r: Self)
        ensures
            r@.headers == Some(json_headers(self@.headers)),
            r@.from_entity == self@.from_entity,
            r@.method == self@.method,
            r@.url == self@.url,
            r@.body == self@.body,
    {
        let mut client = self;
        match client.headers {
            Some(mut h) => {
                headers_insert(&mut h, "Content-Type".to_string(), "application/json".to_string());
                assert(header_pairs(h) =~= json_headers(self@.headers));
                client.headers = Some(h);
            },
            None => {
                let h = ehttp::Headers::new(&[("Content-Type", "application/json"), ("Accept", "*/*")]);
                assert(header_pairs(h) =~= json_headers(self@.headers));
                client.headers = Some(h);
            },
        }
        client
    }

    /// Sets a JSON body from the outcome of serialising it: the serialised
    /// bytes, or, where serialising failed, the bytes of the fallback. The
    /// content type is set to JSON either way.
    pub fn json_with_fallback(
        self,
        serialized: Result<Vec<u8>, String>,
        fallback: JsonFallback,
    ) -> (r: Self)
        ensures
            r@.body == (match serialized {
                Ok(bytes) => bytes@,
                Err(_) => fallback_bytes(fallback),
            }),
            r@.headers == Some(json_headers(self@.headers)),
            r@.from_entity == self@.from_entity,
            r@.method == self@.method,
            r@.url == self@.url,
    {
        let mut client = self.with_json_content_type();
        client.body = match serialized {
            Ok(bytes) => bytes,
            Err(_) => fallback.to_bytes(),
        };
        client
    }

    /// Sets a JSON body from the outcome of serialising it, or reports the
    /// serialiser's message where it failed. The content type is set to JSON.
    pub fn json_safe(self, serialized: Result<Vec<u8>, String>) -> (r: Result<
        Self,
        JsonSerializationError,
    >)
        ensures
            serialized is Ok <==> r is Ok,
            r is Ok ==> r->Ok_0@.body == serialized->Ok_0@
                && r->Ok_0@.headers == Some(json_headers(self@.headers))
                && r->Ok_0@.from_entity == self@.from_entity
                && r->Ok_0@.method == self@.method
                && r->Ok_0@.url == self@.url,
            r is Err ==> r->Err_0 == (JsonSerializationError::SerializationFailed {
                message: serialized->Err_0,
                fallback_used: JsonFallback::EmptyObject,
            }),
    {
        match serialized {
            Ok(bytes) => {
                let mut client = self.with_json_content_type();
                client.body = bytes;
                Ok(client)
            },
            Err(message) => Err(
                JsonSerializationError::SerializationFailed {
                    message,
                    fallback_used: JsonFallback::EmptyObject,
                },
            ),
        }
    }

    /// Sets a JSON body, with the empty object where serialising failed.
    pub fn json(self, serialized: Result<Vec<u8>, String>) -> (r: Self)
        ensures
            r@.body == (match serialized {
                Ok(bytes) => bytes@,
                Err(_) => fallback_bytes(JsonFallback::EmptyObject),
            }),
            r@.headers == Some(json_headers(self@.headers)),
            r@.from_entity == self@.from_entity,
            r@.method == self@.method,
            r@.url == self@.url,
    {
        self.json_with_fallback(serialized, JsonFallback::default())
    }

    /// Takes method, URL, body and headers from a ready request.
    pub fn request(self, request: ehttp::Request) -> (r: Self)
        ensures
            r@.method == Some(request.method@),
            r@.url == Some(request.url@),
            r@.body == request.body@,
            r@.headers == Some(header_pairs(request.headers)),
            r@.from_entity == self@.from_entity,
    {
        HttpClient {
            from_entity: self.from_entity,
            method: Some(request.method),
            url: Some(request.url),
            body: request.body,
            headers: Some(request.headers),
        }
    }

    /// Sends the response back to the given entity.
    pub fn entity(self, entity: bevy_ecs::entity::Entity) -> (r: Self)
        ensures
            r@.from_entity == Some(entity),
            r@.method == self@.method,
            r@.url == self@.url,
            r@.body == self@.body,
            r@.headers == self@.headers,
    {
        HttpClient { from_entity: Some(entity), ..self }
    }

    /// The request itself, once method, URL and headers are known to be set.
    fn into_parts(self) -> (r: (Option<bevy_ecs::entity::Entity>, ehttp::Request))
        requires
            self@.method is Some,
            self@.url is Some,
            self@.headers is Some,
        ensures
            r.0 == self@.from_entity,
            carries(r.1, self@),
    {
        let request = ehttp::Request {
            method: self.method.unwrap(),
            url: self.url.unwrap(),
            body: self.body,
            headers: self.headers.unwrap(),
        };
        (self.from_entity, request)
    }

    /// The first missing field, as `missing_field` states it.
    fn check(&self) -> (r: Option<HttpClientBuilderError>)
        ensures
            r == missing_field(self@),
    {
        match (&self.method, &self.url, &self.headers) {
            (None, _, _) => Some(HttpClientBuilderError::MissingMethod),
            (Some(_), None, _) => Some(HttpClientBuilderError::MissingUrl),
            (Some(_), Some(url), headers) => {
                if blank(url.as_str()) {
                    Some(HttpClientBuilderError::MissingUrl)
                } else if headers.is_none() {
                    Some(HttpClientBuilderError::MissingHeaders)
                } else {
                    None
                }
            },
        }
    }

    /// The request, where method, URL and headers are set; a URL that is
    /// only whitespace is accepted here.
    pub fn build(self) -> (r: HttpRequest)
        requires
            self@.method is Some,
            self@.url is Some,
            self@.headers is Some,
        ensures
            r.from_entity == self@.from_entity,
            carries(r.request, self@),
    {
        let (from_entity, request) = self.into_parts();
        HttpRequest { from_entity, request }
    }

    /// The request, or the first missing field: method, then a URL that is
    /// neither empty nor only whitespace, then headers.
    pub fn try_build(self) -> (r: Result<HttpRequest, HttpClientBuilderError>)
        ensures
            missing_field(self@) is Some ==> r == Err::<HttpRequest, HttpClientBuilderError>(
                missing_field(self@)->0,
            ),
            missing_field(self@) is None ==> r is Ok && r->Ok_0.from_entity == self@.from_entity
                && carries(r->Ok_0.request, self@),
    {
        match self.check() {
            Some(e) => Err(e),
            None => {
                let (from_entity, request) = self.into_parts();
                Ok(HttpRequest { from_entity, request })
            },
        }
    }

    /// The typed request, where method, URL and headers are set; a URL that
    /// is only whitespace is accepted here.
    pub fn with_type<T>(self) -> (r: TypedRequest<T>)
        requires
            self@.method is Some,
            self@.url is Some,
            self@.headers is Some,
        ensures
            r.target() == self@.from_entity,
            carries(r.spec_request(), self@),
    {
        let (from_entity, request) = self.into_parts();
        TypedRequest::new(request, from_entity)
    }

    /// The typed request, or the first missing field, as `try_build` checks.
    pub fn try_with_type<T>(self) -> (r: Result<TypedRequest<T>, HttpClientBuilderError>)
        ensures
            missing_field(self@) is Some ==> r is Err && r->Err_0 == missing_field(self@)->0,
            missing_field(self@) is None ==> r is Ok && r->Ok_0.target() == self@.from_entity
                && carries(r->Ok_0.spec_request(), self@),
    {
        match self.check() {
            Some(e) => Err(e),
            None => {
                let (from_entity, request) = self.into_parts();
                Ok(TypedRequest::new(request, from_entity))
            },
        }
    }
}

impl Default for HttpClient {
    /// The same as `HttpClient::new`.
    fn default() -> (r: Self)
        ensures
            r@.from_entity is None,
            r@.method is None,
            r@.url is None,
            r@.body == Seq::<u8>::empty(),
            r@.headers == Some(default_headers()),
    {
        HttpClient::new()
    }
}

} // verus!
