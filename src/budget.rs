//! The admission budget: a maximum and the number of requests in flight.

use vstd::prelude::*;

verus! {

/// How many requests may start in one tick when `in_flight` are running
/// under a maximum of `limit` and `pending` are waiting: as many as there is
/// room for, and no more than are waiting.
pub open spec fn admitted(in_flight: nat, limit: nat, pending: nat) -> nat {
    if in_flight >= limit {
        0
    } else if pending <= (limit - in_flight) as nat {
        pending
    } else {
        (limit - in_flight) as nat
    }
}

/// How many requests may be in flight at once, and how many are.
#[derive(Debug)]
pub struct HttpClientSetting {
    /// The maximum number of requests in flight.
    pub client_limits: usize,
    current_clients: usize,
}

impl HttpClientSetting {
    /// The maximum number of requests in flight.
    pub closed spec fn limit(&self) -> nat {
        self.client_limits as nat
    }

    /// The number of requests started and not yet completed.
    pub closed spec fn in_flight(&self) -> nat {
        self.current_clients as nat
    }

    /// A budget with the given maximum and nothing in flight.
    pub fn new(max_concurrent: usize) -> (r: Self)
        ensures
            r.limit() == max_concurrent,
            r.in_flight() == 0,
    {
        HttpClientSetting { client_limits: max_concurrent, current_clients: 0 }
    }

    /// Whether one more request may start now.
    pub fn is_available(&self) -> (r: bool)
        ensures
            r == (self.in_flight() < self.limit()),
    {
        self.current_clients < self.client_limits
    }

    /// The number of requests in flight.
    pub fn current_clients(&self) -> (r: usize)
        ensures
            r == self.in_flight(),
    {
        self.current_clients
    }

    /// One tick of admission. The waiting requests are tried in the order
    /// given: each starts while there is room, and once the budget is full
    /// the rest wait for a later tick, in the same order. Returns the started
    /// requests and the waiting ones; each started request counts as in
    /// flight.
    pub fn dispatch<R>(&mut self, pending: Vec<R>) -> (r: (Vec<R>, Vec<R>))
        ensures
            ({
                let k = admitted(old(self).in_flight(), old(self).limit(), pending@.len()) as int;
                &&& r.0@ == pending@.take(k)
                &&& r.1@ == pending@.skip(k)
                &&& final(self).in_flight() == old(self).in_flight() + k
                &&& final(self).limit() == old(self).limit()
            }),
    {
        let n = pending.len();
        let mut started: usize = 0;
        while started < n && self.is_available()
            invariant
                started <= n,
                n == pending@.len(),
                self.limit() == old(self).limit(),
                self.in_flight() == old(self).in_flight() + started,
                started <= admitted(old(self).in_flight(), old(self).limit(), n as nat),
                started < admitted(old(self).in_flight(), old(self).limit(), n as nat) ==> (
                started < n && self.in_flight() < self.limit()),
            decreases n - started,
        {
            self.current_clients = self.current_clients + 1;
            started = started + 1;
        }
        let mut accepted = pending;
        let deferred = accepted.split_off(started);
        assert(accepted@ == pending@.take(started as int));
        (accepted, deferred)
    }

    /// One request has completed: it no longer counts as in flight.
    pub fn release(&mut self)
        requires
            old(self).in_flight() > 0,
        ensures
            final(self).in_flight() == old(self).in_flight() - 1,
            final(self).limit() == old(self).limit(),
    {
        self.current_clients = self.current_clients - 1;
    }
}

impl Default for HttpClientSetting {
    /// A maximum of five requests in flight, none running.
    fn default() -> (r: Self)
        ensures
            r.limit() == 5,
            r.in_flight() == 0,
    {
        HttpClientSetting { client_limits: 5, current_clients: 0 }
    }
}

/// Admission drops nothing: the requests that start and those that wait are
/// together the requests that were waiting, in their order. While there is
/// room, a waiting request starts in the same tick; with the budget full,
/// none does.
pub proof fn lemma_dispatch_keeps_every_request<R>(in_flight: nat, limit: nat, pending: Seq<R>)
    ensures
        ({
            let k = admitted(in_flight, limit, pending.len()) as int;
            &&& 0 <= k <= pending.len()
            &&& pending.take(k) + pending.skip(k) == pending
            &&& in_flight < limit && pending.len() > 0 ==> k >= 1
            &&& in_flight >= limit ==> k == 0
            &&& in_flight + k <= limit || k == 0
        }),
{
    let k = admitted(in_flight, limit, pending.len()) as int;
    assert(pending.take(k) + pending.skip(k) =~= pending);
}

} // verus!
