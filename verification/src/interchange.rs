//! Single-slot, non-blocking mailbox carrying one request/response pair
//! between a transport and the dispatcher: a polling handshake, never a
//! blocking call, with at most one transaction in flight and no queue.
//!
//! The slot walks Idle → Requested → Processing → Responded → Idle; payload
//! ownership moves with each transition and is never duplicated.

use vstd::prelude::*;

verus! {

/// The slot in each of its four states, carrying the payload that state
/// owns.
pub enum Interchange<Req, Rsp> {
    /// Empty; a producer may deposit a request.
    Idle,
    /// A request waits for the consumer.
    Requested(Req),
    /// The consumer took the request and owes a response.
    Processing,
    /// A response waits for the producer.
    Responded(Rsp),
}

impl<Req, Rsp> Interchange<Req, Rsp> {
    /// A fresh, empty slot.
    pub fn new() -> (r: Self)
        ensures
            r is Idle,
    {
        Interchange::Idle
    }

    /// Deposits a request. Anywhere but Idle this is a capacity failure: the
    /// deposit comes back to the caller — to retry on a later poll — and the
    /// slot, with whatever payload it holds, stands untouched.
    pub fn request(&mut self, req: Req) -> (r: Result<(), Req>)
        ensures
            match *old(self) {
                Interchange::Idle => r is Ok && (*final(self) matches Interchange::Requested(q)
                    && q == req),
                _ => (r matches Err(back) && back == req) && *final(self) == *old(self),
            },
    {
        match self {
            Interchange::Idle => {
                *self = Interchange::Requested(req);
                Ok(())
            },
            _ => Err(req),
        }
    }

    /// Withdraws the pending request, leaving the slot owing a response;
    /// anywhere but Requested there is nothing to take and nothing changes.
    pub fn take_request(&mut self) -> (r: Option<Req>)
        ensures
            match *old(self) {
                Interchange::Requested(q) => (r matches Some(taken) && taken == q) && *final(self)
                    is Processing,
                _ => r is None && *final(self) == *old(self),
            },
    {
        let mut slot = Interchange::Idle;
        core::mem::swap(self, &mut slot);
        match slot {
            Interchange::Requested(q) => {
                *self = Interchange::Processing;
                Some(q)
            },
            other => {
                *self = other;
                None
            },
        }
    }

    /// Deposits the response owed for the request taken before. Anywhere but
    /// Processing the deposit comes back and nothing changes.
    pub fn respond(&mut self, rsp: Rsp) -> (r: Result<(), Rsp>)
        ensures
            match *old(self) {
                Interchange::Processing => r is Ok && (*final(self) matches Interchange::Responded(
                    p,
                ) && p == rsp),
                _ => (r matches Err(back) && back == rsp) && *final(self) == *old(self),
            },
    {
        match self {
            Interchange::Processing => {
                *self = Interchange::Responded(rsp);
                Ok(())
            },
            _ => Err(rsp),
        }
    }

    /// Withdraws the response and resets the slot to Idle; anywhere but
    /// Responded there is nothing to take and nothing changes.
    pub fn take_response(&mut self) -> (r: Option<Rsp>)
        ensures
            match *old(self) {
                Interchange::Responded(p) => (r matches Some(taken) && taken == p) && *final(self)
                    is Idle,
                _ => r is None && *final(self) == *old(self),
            },
    {
        let mut slot = Interchange::Idle;
        core::mem::swap(self, &mut slot);
        match slot {
            Interchange::Responded(p) => Some(p),
            other => {
                *self = other;
                None
            },
        }
    }

    /// Whether the slot holds a request waiting for the consumer.
    pub fn is_requested(&self) -> (r: bool)
        ensures
            r == (*self is Requested),
    {
        match self {
            Interchange::Requested(_) => true,
            _ => false,
        }
    }

    /// Whether the slot is empty.
    pub fn is_idle(&self) -> (r: bool)
        ensures
            r == (*self is Idle),
    {
        match self {
            Interchange::Idle => true,
            _ => false,
        }
    }
}

/// One full handshake loses nothing and duplicates nothing: out of an idle
/// slot, a deposited request is withdrawn exactly as deposited, and the
/// response given for it is withdrawn exactly as given, with the slot idle
/// again at the end.
pub proof fn lemma_interchange_cycle<Req, Rsp>(
    s0: Interchange<Req, Rsp>,
    s1: Interchange<Req, Rsp>,
    s2: Interchange<Req, Rsp>,
    s3: Interchange<Req, Rsp>,
    req: Req,
    rsp: Rsp,
    taken_req: Req,
    taken_rsp: Rsp,
)
    requires
        s0 is Idle,
        s1 matches Interchange::Requested(q) && q == req,
        s2 is Processing,
        s3 matches Interchange::Responded(p) && p == rsp,
        s1 matches Interchange::Requested(q) ==> taken_req == q,
        s3 matches Interchange::Responded(p) ==> taken_rsp == p,
    ensures
        taken_req == req,
        taken_rsp == rsp,
{
}

} // verus!
