//! Topic subscription handles and the subscription set that owns them.
//!
//! A handle stands for one live subscription on the bus; stopping it is
//! idempotent and, once it returns, no further sink delivery may be
//! attributed to it. A set owns every handle created during one handover
//! and is abortable as a unit.

use vstd::prelude::*;
use crate::catalog::MessageKind;
use crate::Endpoint;

verus! {

/// One live subscription: the identity the shell knows it by, what it
/// listens for, and whether it has been told to stop.
pub struct SubHandle {
    pub id: u64,
    pub mtype: MessageKind,
    pub topic: String,
    pub stopped: bool,
}

impl SubHandle {
    /// Tell the subscription to stop. Idempotent: safe on a handle that
    /// is already inactive, and it never fails.
    pub fn stop(&mut self)
        ensures
            final (self).id == old(self).id,
            final (self).mtype == old(self).mtype,
            final (self).topic == old(self).topic,
            final (self).stopped,
    {
        self.stopped = true;
    }
}

/// The identities of the handles that are still live, in the order the
/// handles stand in the set.
pub open spec fn live_ids_of(handles: Seq<SubHandle>) -> Seq<u64>
    decreases handles.len(),
{
    if handles.len() == 0 {
        Seq::empty()
    } else {
        let rest = live_ids_of(handles.drop_last());
        if !handles.last().stopped {
            rest.push(handles.last().id)
        } else {
            rest
        }
    }
}

/// Stopping every handle changes nothing but the stopped marks: the
/// relation between a set's handles before and after an abort.
pub open spec fn aborted_form(pre: Seq<SubHandle>, post: Seq<SubHandle>) -> bool {
    &&& post.len() == pre.len()
    &&& forall|i: int|
        0 <= i < pre.len() ==> post[i] == (SubHandle { stopped: true, ..pre[i] })
}

/// An ownership container for the handles created during one handover,
/// together with the endpoint their connection was built to.
pub struct SubscriptionSet {
    pub endpoint: Endpoint,
    pub handles: Vec<SubHandle>,
}

impl SubscriptionSet {
    /// Every handle has been told to stop.
    pub open spec fn all_stopped(self) -> bool {
        forall|i: int| 0 <= i < self.handles@.len() ==> self.handles@[i].stopped
    }

    /// The set still delivers for this identity: it owns a live handle
    /// with it.
    pub open spec fn contains_live(self, id: u64) -> bool {
        exists|i: int|
            0 <= i < self.handles@.len() && self.handles@[i].id == id
                && !self.handles@[i].stopped
    }

    /// No two handles share an identity.
    pub open spec fn ids_distinct(self) -> bool {
        forall|i: int, j: int|
            0 <= i < j < self.handles@.len() ==> self.handles@[i].id != self.handles@[j].id
    }

    /// Every identity in the set lies below the bound.
    pub open spec fn ids_below(self, bound: u64) -> bool {
        forall|i: int| 0 <= i < self.handles@.len() ==> self.handles@[i].id < bound
    }

    /// An empty set at an endpoint: legal, nothing to relay yet.
    pub fn empty(endpoint: Endpoint) -> (r: SubscriptionSet)
        ensures
            r.endpoint == endpoint,
            r.handles@.len() == 0,
    {
        SubscriptionSet { endpoint, handles: Vec::new() }
    }

    /// Stop every handle the set owns and report which identities were
    /// still live, so the shell can cancel exactly those subscriptions.
    /// Idempotent and safe on an empty set: a second abort stops nothing,
    /// reports nothing, and never fails.
    pub fn abort(&mut self) -> (stopped: Vec<u64>)
        ensures
            final (self).endpoint == old(self).endpoint,
            aborted_form(old(self).handles@, final (self).handles@),
            final (self).all_stopped(),
            stopped@ == live_ids_of(old(self).handles@),
            old(self).all_stopped() ==> final (self).handles@ == old(self).handles@
                && stopped@.len() == 0,
    {
        let mut stopped: Vec<u64> = Vec::new();
        let n: usize = self.handles.len();
        let ghost pre = self.handles@;
        proof {
            assert(pre.take(0) =~= Seq::<SubHandle>::empty());
        }
        for i in 0..n
            invariant
                n == self.handles@.len(),
                pre.len() == n,
                self.endpoint == old(self).endpoint,
                forall|j: int|
                    0 <= j < i ==> self.handles@[j] == (SubHandle { stopped: true, ..pre[j] }),
                forall|j: int| i <= j < n ==> self.handles@[j] == pre[j],
                stopped@ == live_ids_of(pre.take(i as int)),
        {
            proof {
                assert(pre.take(i + 1).drop_last() =~= pre.take(i as int));
                assert(pre.take(i + 1).last() == pre[i as int]);
            }
            if !self.handles[i].stopped {
                stopped.push(self.handles[i].id);
                let h = &mut self.handles[i];
                h.stop();
            }
        }
        proof {
            assert(pre.take(n as int) =~= pre);
            if old(self).all_stopped() {
                assert(final (self).handles@ =~= old(self).handles@);
                lemma_live_ids_all_stopped(pre);
            }
        }
        stopped
    }
}

/// A set whose handles are all stopped has no live identities left.
pub proof fn lemma_live_ids_all_stopped(handles: Seq<SubHandle>)
    requires
        forall|i: int| 0 <= i < handles.len() ==> handles[i].stopped,
    ensures
        live_ids_of(handles).len() == 0,
    decreases handles.len(),
{
    if handles.len() > 0 {
        lemma_live_ids_all_stopped(handles.drop_last());
    }
}

/// Law: aborting a set twice is a no-op the second time. After one abort
/// every handle is stopped, so a second abort leaves each handle exactly
/// as it was and reports no identity to cancel.
pub proof fn lemma_abort_twice(
    first: Seq<SubHandle>,
    second: Seq<SubHandle>,
    reported: Seq<u64>,
)
    requires
        forall|i: int| 0 <= i < first.len() ==> first[i].stopped,
        aborted_form(first, second),
        reported == live_ids_of(first),
    ensures
        second =~= first,
        reported.len() == 0,
{
    lemma_live_ids_all_stopped(first);
    assert forall|i: int| 0 <= i < first.len() implies second[i] == first[i] by {
        assert(second[i] == (SubHandle { stopped: true, ..first[i] }));
    }
}

} // verus!
