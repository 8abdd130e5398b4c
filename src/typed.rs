//! Requests whose response body is parsed into a declared type, and the
//! envelopes that report the parsed value or the failure.

use vstd::prelude::*;
use core::marker::PhantomData;
use crate::outcome::{entity_of, Identity};

verus! {

/// A request whose response body is to be parsed as a `T`.
#[derive(Debug)]
pub struct TypedRequest<T> {
    pub from_entity: Option<bevy_ecs::entity::Entity>,
    pub request: ehttp::Request,
    inner: PhantomData<T>,
}

impl<T> TypedRequest<T> {
    /// The entity the response goes back to, if any.
    pub closed spec fn target(&self) -> Option<bevy_ecs::entity::Entity> {
        self.from_entity
    }

    /// The request to send.
    pub closed spec fn spec_request(&self) -> ehttp::Request {
        self.request
    }

    /// A typed request for the given request and entity.
    pub fn new(request: ehttp::Request, from_entity: Option<bevy_ecs::entity::Entity>) -> (r: Self)
        ensures
            r.spec_request() == request,
            r.target() == from_entity,
    {
        TypedRequest { from_entity, request, inner: PhantomData }
    }
}

/// A response body parsed as a `T`.
#[derive(Debug, Clone)]
pub struct TypedResponse<T> {
    inner: T,
}

impl<T> TypedResponse<T> {
    /// The parsed value.
    pub closed spec fn value(&self) -> T {
        self.inner
    }

    /// The parsed value, taking the envelope apart.
    pub fn into_inner(self) -> (r: T)
        ensures
            r == self.value(),
    {
        self.inner
    }

    /// The parsed value.
    pub fn inner(&self) -> (r: &T)
        ensures
            *r == self.value(),
    {
        &self.inner
    }
}

/// A typed request failed: the transport's message, or the parser's message
/// together with the response whose body did not parse.
#[derive(Debug)]
pub struct TypedResponseError<T> {
    pub err: String,
    pub response: Option<ehttp::Response>,
    phantom: PhantomData<T>,
}

impl<T> TypedResponseError<T> {
    /// The message.
    pub closed spec fn message(&self) -> String {
        self.err
    }

    /// The response whose body did not parse, if there was one.
    pub closed spec fn raw(&self) -> Option<ehttp::Response> {
        self.response
    }

    /// The error with the given message and no response.
    pub fn new(err: String) -> (r: Self)
        ensures
            r.message() == err,
            r.raw() is None,
    {
        TypedResponseError { err, response: None, phantom: PhantomData }
    }

    /// The same error, with the response attached.
    pub fn response(self, response: ehttp::Response) -> (r: Self)
        ensures
            r.message() == self.message(),
            r.raw() == Some(response),
    {
        TypedResponseError { response: Some(response), ..self }
    }
}

impl<T> Clone for TypedResponseError<T> {
    /// The same message and response.
    fn clone(&self) -> (r: Self)
        ensures
            r.message() == self.message(),
            r.raw() == self.raw(),
    {
        let response = match &self.response {
            Some(q) => Some(q.clone()),
            None => None,
        };
        TypedResponseError { err: self.err.clone(), response, phantom: PhantomData }
    }
}

/// An event addressed to one entity.
#[derive(Debug)]
pub struct HttpObserved<T> {
    pub entity: bevy_ecs::entity::Entity,
    pub event: T,
}

impl<T> HttpObserved<T> {
    /// The event for the given entity.
    pub fn new(entity: bevy_ecs::entity::Entity, event: T) -> (r: Self)
        ensures
            r.entity == entity,
            r.event == event,
    {
        HttpObserved { entity, event }
    }

    /// The event.
    pub fn inner(&self) -> (r: &T)
        ensures
            *r == self.event,
    {
        &self.event
    }

    /// The event, taking the wrapper apart.
    pub fn into_inner(self) -> (r: T)
        ensures
            r == self.event,
    {
        self.event
    }
}

/// The one terminal envelope of a typed request.
#[derive(Debug)]
pub enum TypedEnvelope<T> {
    Parsed(TypedResponse<T>),
    Failed(TypedResponseError<T>),
}

/// What completing a typed request does: publish `envelope` to all
/// listeners and to `entity`, then remove `entity` where `despawn` holds.
#[derive(Debug)]
pub struct TypedSettlement<T> {
    pub entity: bevy_ecs::entity::Entity,
    pub envelope: TypedEnvelope<T>,
    pub despawn: bool,
}

/// The outcome of a typed request: the transport's message where it failed;
/// otherwise the response, with its body parsed as a `T` or the parser's
/// message.
pub type TypedOutcome<T> = Result<(ehttp::Response, Result<T, String>), String>;

/// Completes a typed request of the given identity. A parsed body becomes a
/// success; a body that did not parse becomes a failure with the parser's
/// message that keeps the whole response; a failed transport becomes a
/// failure with its message and no response.
pub fn settle_typed<T>(identity: Identity, outcome: TypedOutcome<T>) -> (r: TypedSettlement<T>)
    ensures
        r.entity == entity_of(identity),
        r.despawn == (identity is Owned),
        match outcome {
            Ok((_, Ok(value))) => r.envelope is Parsed && r.envelope->Parsed_0.value() == value,
            Ok((response, Err(msg))) => r.envelope is Failed
                && r.envelope->Failed_0.message() == msg
                && r.envelope->Failed_0.raw() == Some(response),
            Err(msg) => r.envelope is Failed
                && r.envelope->Failed_0.message() == msg
                && r.envelope->Failed_0.raw() is None,
        },
{
    let envelope = match outcome {
        Ok((_, Ok(value))) => TypedEnvelope::Parsed(TypedResponse { inner: value }),
        Ok((response, Err(msg))) => TypedEnvelope::Failed(
            TypedResponseError::new(msg).response(response),
        ),
        Err(msg) => TypedEnvelope::Failed(TypedResponseError::new(msg)),
    };
    TypedSettlement {
        entity: identity.entity(),
        envelope,
        despawn: identity.is_transient(),
    }
}

} // verus!
