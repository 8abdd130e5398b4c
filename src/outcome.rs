//! What a finished request turns into: exactly one terminal envelope, sent
//! to the entity the request belongs to, and whether that entity is to be
//! removed afterwards.

use vstd::prelude::*;
use crate::budget::{admitted, HttpClientSetting};

verus! {

/// A response arrived.
#[derive(Debug, Clone)]
pub struct HttpResponse(pub ehttp::Response);

/// The transport failed, with its message.
#[derive(Debug, Clone)]
pub struct HttpResponseError {
    pub err: String,
}

impl HttpResponseError {
    /// The error with the given message.
    pub fn new(err: String) -> (r: Self)
        ensures
            r.err == err,
    {
        HttpResponseError { err }
    }
}

/// The entity a request belongs to, and who owns it.
#[derive(Debug, Clone, Copy)]
pub enum Identity {
    /// The caller's entity: it outlives the request.
    Borrowed(bevy_ecs::entity::Entity),
    /// An entity made for this request alone: it is removed once the
    /// request has completed.
    Owned(bevy_ecs::entity::Entity),
}

/// The entity behind an identity.
pub open spec fn entity_of(i: Identity) -> bevy_ecs::entity::Entity {
    match i {
        Identity::Borrowed(e) => e,
        Identity::Owned(e) => e,
    }
}

impl Identity {
    /// The caller's entity where the request names one; otherwise a fresh
    /// entity from `spawn`, which is called only then.
    pub fn resolve<F: FnOnce() -> bevy_ecs::entity::Entity>(
        from_entity: Option<bevy_ecs::entity::Entity>,
        spawn: F,
    ) -> (r: Identity)
        requires
            from_entity is None ==> spawn.requires(()),
        ensures
            from_entity is Some ==> r == Identity::Borrowed(from_entity->0),
            from_entity is None ==> r is Owned && spawn.ensures((), entity_of(r)),
    {
        match from_entity {
            Some(e) => Identity::Borrowed(e),
            None => Identity::Owned(spawn()),
        }
    }

    /// The entity behind this identity.
    pub fn entity(&self) -> (r: bevy_ecs::entity::Entity)
        ensures
            r == entity_of(*self),
    {
        match self {
            Identity::Borrowed(e) => *e,
            Identity::Owned(e) => *e,
        }
    }

    /// Whether the entity is to be removed once the request has completed.
    pub fn is_transient(&self) -> (r: bool)
        ensures
            r == (*self is Owned),
    {
        match self {
            Identity::Borrowed(_) => false,
            Identity::Owned(_) => true,
        }
    }
}

/// The one terminal envelope of a request.
#[derive(Debug, Clone)]
pub enum Envelope {
    Response(HttpResponse),
    Error(HttpResponseError),
}

/// The envelope a transport outcome becomes: the response, or the
/// transport's message.
pub open spec fn envelope_of(outcome: Result<ehttp::Response, String>) -> Envelope {
    match outcome {
        Ok(response) => Envelope::Response(HttpResponse(response)),
        Err(err) => Envelope::Error(HttpResponseError { err }),
    }
}

/// What completing a request does: publish `envelope` to all listeners and
/// to `entity`, then remove `entity` where `despawn` holds.
#[derive(Debug, Clone)]
pub struct Settlement {
    pub entity: bevy_ecs::entity::Entity,
    pub envelope: Envelope,
    pub despawn: bool,
}

/// Completes a request of the given identity with the transport's outcome.
pub fn settle(identity: Identity, outcome: Result<ehttp::Response, String>) -> (r: Settlement)
    ensures
        r.entity == entity_of(identity),
        r.envelope == envelope_of(outcome),
        r.despawn == (identity is Owned),
{
    let envelope = match outcome {
        Ok(response) => Envelope::Response(HttpResponse(response)),
        Err(err) => Envelope::Error(HttpResponseError::new(err)),
    };
    Settlement { entity: identity.entity(), envelope, despawn: identity.is_transient() }
}

/// A request that starts ends in exactly one envelope, the response or the
/// transport's message, and once it has been settled and released the
/// number in flight is back to what it was before it started. `before`,
/// `running` and `after` are the budget before `dispatch` of the request,
/// after it, and after `release`, as those functions state them.
pub proof fn lemma_request_lifecycle(
    before: HttpClientSetting,
    running: HttpClientSetting,
    after: HttpClientSetting,
    outcome: Result<ehttp::Response, String>,
)
    requires
        before.in_flight() < before.limit(),
        running.in_flight() == before.in_flight() + admitted(before.in_flight(), before.limit(), 1),
        running.limit() == before.limit(),
        after.in_flight() == running.in_flight() - 1,
    ensures
        admitted(before.in_flight(), before.limit(), 1) == 1,
        running.in_flight() > 0,
        after.in_flight() == before.in_flight(),
        envelope_of(outcome) is Response <==> outcome is Ok,
        envelope_of(outcome) is Error <==> outcome is Err,
        outcome is Ok ==> envelope_of(outcome) == Envelope::Response(HttpResponse(outcome->Ok_0)),
        outcome is Err ==> envelope_of(outcome) == Envelope::Error(
            HttpResponseError { err: outcome->Err_0 },
        ),
{
}

} // verus!
