//! Bookkeeping for issuing HTTP requests from an entity-component-system
//! application: a request builder, an admission budget for requests in
//! flight, and the rules that turn a transport outcome into exactly one
//! terminal envelope, untyped or parsed into a declared type.

pub mod budget;
pub mod builder;
pub mod outcome;
pub mod prelude;
pub mod text;
pub mod transport;
pub mod typed;

pub use budget::HttpClientSetting;
pub use builder::{
    HttpClient, HttpClientBuilderError, HttpRequest, JsonFallback, JsonSerializationError,
};
pub use outcome::{settle, Envelope, HttpResponse, HttpResponseError, Identity, Settlement};
pub use typed::{
    settle_typed, HttpObserved, TypedEnvelope, TypedOutcome, TypedRequest, TypedResponse,
    TypedResponseError, TypedSettlement,
};
