//! The items most callers need.

pub use crate::budget::HttpClientSetting;
pub use crate::builder::{
    HttpClient, HttpClientBuilderError, HttpRequest, JsonFallback, JsonSerializationError,
};
pub use crate::outcome::{settle, Envelope, HttpResponse, HttpResponseError, Identity};
pub use crate::typed::{
    settle_typed, HttpObserved, TypedEnvelope, TypedRequest, TypedResponse, TypedResponseError,
};
