use vstd::prelude::*;

verus! {

/// What an [`Event`] is: the handle of the plugin's completion signal, and whether
/// that handle was already given out to be awaited or destroyed.
pub struct EventModel {
    pub handle: usize,
    pub consumed: bool,
}

/// One asynchronous completion signal of the plugin. The handle is never null.
/// Waiting on the event, awaiting it and releasing it all go through
/// [`Event::claim`], which gives the handle out once and never again.
#[derive(Debug, PartialEq, Eq)]
pub struct Event {
    ptr: usize,
    consumed: bool,
}

impl View for Event {
    type V = EventModel;

    closed spec fn view(&self) -> EventModel {
        EventModel { handle: self.ptr, consumed: self.consumed }
    }
}

/// The effect of one claim on an event: the event is consumed afterwards, and
/// the handle is given out only if it was not consumed before.
pub open spec fn claim_step(m: EventModel) -> (EventModel, Option<usize>) {
    (
        EventModel { handle: m.handle, consumed: true },
        if m.consumed {
            None
        } else {
            Some(m.handle)
        },
    )
}

/// What `n` claims in a row give out, first claim first.
pub open spec fn claims(m: EventModel, n: nat) -> Seq<Option<usize>>
    decreases n,
{
    if n == 0 {
        Seq::empty()
    } else {
        seq![claim_step(m).1] + claims(claim_step(m).0, (n - 1) as nat)
    }
}

impl Event {
    #[verifier::type_invariant]
    spec fn non_null(self) -> bool {
        self.ptr != 0
    }

    /// Takes ownership of an event handle that the plugin filled in.
    pub fn wrap(ptr: usize) -> (event: Event)
        requires
            ptr != 0,
        ensures
            event@ == (EventModel { handle: ptr, consumed: false }),
    {
        Event { ptr, consumed: false }
    }

    /// The handle, for queries that do not consume the event.
    pub fn ptr(&self) -> (p: usize)
        ensures
            p == self@.handle,
            p != 0,
    {
        proof {
            use_type_invariant(self);
        }
        self.ptr
    }

    /// Whether the handle was already given out.
    pub fn is_consumed(&self) -> (b: bool)
        ensures
            b == self@.consumed,
    {
        self.consumed
    }

    /// Claims the handle for the one wait, await or release that may use it.
    /// The first claim returns the handle; every later one returns nothing.
    pub fn claim(&mut self) -> (r: Option<usize>)
        ensures
            (final(self)@, r) == claim_step(old(self)@),
            r matches Some(h) ==> h != 0,
    {
        proof {
            use_type_invariant(&*self);
        }
        if self.consumed {
            None
        } else {
            self.consumed = true;
            Some(self.ptr)
        }
    }
}

/// After a claim an event is consumed, so every further claim gives out nothing.
pub proof fn lemma_claims_after_consumed(m: EventModel, n: nat)
    requires
        m.consumed,
    ensures
        claims(m, n).len() == n,
        forall|i: int| 0 <= i < n ==> claims(m, n)[i] == None::<usize>,
    decreases n,
{
    if n > 0 {
        lemma_claims_after_consumed(claim_step(m).0, (n - 1) as nat);
    }
}

/// However often a fresh event is claimed, its handle is given out exactly
/// once, by the first claim: a second wait cannot destroy the handle again.
pub proof fn lemma_claimed_once(m: EventModel, n: nat)
    requires
        !m.consumed,
        n > 0,
    ensures
        claims(m, n).len() == n,
        claims(m, n)[0] == Some(m.handle),
        forall|i: int| 1 <= i < n ==> claims(m, n)[i] == None::<usize>,
{
    lemma_claims_after_consumed(claim_step(m).0, (n - 1) as nat);
}

} // verus!
