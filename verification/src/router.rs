//! The subscription router and its handover protocol.
//!
//! A handover request names an endpoint and the topics to listen to. The
//! router builds the replacement subscription set completely before it
//! touches the incumbent: only once every requested subscription has been
//! opened does it abort the previous active set and install the new one,
//! so a failed handover never disturbs the feed that is already running.
//! Connecting and opening subscriptions are network work done by the
//! unverified shell; the router returns the actions to perform and is told
//! each outcome.

use vstd::prelude::*;
use crate::catalog::{event_for, DecodeError, MessageKind, SinkEvent, TypedMessage};
use crate::subs::{aborted_form, live_ids_of, SubHandle, SubscriptionSet};
use crate::{clone_string, Endpoint};

verus! {

/// One requested subscription: the message kind and the topic to listen
/// on.
pub struct TopicMtype {
    pub mtype: MessageKind,
    pub topic: String,
}

/// A control message: replace whatever is subscribed now with exactly
/// these subscriptions against this endpoint. Consumed once by
/// `Router::begin_handover`.
pub struct HandoverRequest {
    pub endpoint: Endpoint,
    pub topics: Vec<TopicMtype>,
}

/// What the shell must do next on the router's behalf. Connecting,
/// opening and stopping subscriptions and notifying the sink are network
/// and presentation work; the router only decides them.
#[derive(Debug)]
pub enum RouterAction {
    /// Build a bus connection to this endpoint.
    Connect { ip: String, port: u16 },
    /// Open one subscription on the pending connection; deliveries for it
    /// will carry this identity.
    OpenSubscription { id: u64, mtype: MessageKind, topic: String },
    /// Cancel the live subscription with this identity.
    StopSubscription { id: u64 },
    /// Tell the sink the requested topic list is now live.
    NotifyTopicListReady,
    /// Report that the endpoint could not be reached; the previous feed
    /// is untouched.
    ReportConnectError,
    /// Report that opening the subscription at this position failed; the
    /// previous feed is untouched.
    ReportSubscribeError { topic_index: usize },
}

/// Where a pending handover stands.
#[derive(Clone, Copy, Debug, PartialEq, Eq, Structural)]
pub enum BuildPhase {
    /// Waiting for the connection to the requested endpoint.
    Connecting,
    /// Waiting for the subscription at this topic position to open; all
    /// earlier positions are open already.
    Opening { next: usize },
}

/// A handover in progress: the request it serves, the handles opened so
/// far, and the first identity reserved for it.
pub struct PendingBuild {
    pub endpoint: Endpoint,
    pub topics: Vec<TopicMtype>,
    pub built: Vec<SubHandle>,
    pub base: u64,
    pub phase: BuildPhase,
}

impl PendingBuild {
    /// The handle at a position is the one opened for the topic at that
    /// position: its identity is the reserved base plus the position, and
    /// it is live.
    pub open spec fn handle_is_for(self, i: int) -> bool {
        &&& self.built@[i].id == self.base + i
        &&& self.built@[i].mtype == self.topics@[i].mtype
        &&& self.built@[i].topic@ == self.topics@[i].topic@
        &&& !self.built@[i].stopped
    }

    /// The first n topics have been opened, in order.
    pub open spec fn built_matches(self, n: int) -> bool {
        &&& self.built@.len() == n
        &&& forall|i: int| 0 <= i < n ==> self.handle_is_for(i)
    }

    /// The topic position the build is waiting on.
    pub open spec fn opening_index(self) -> int {
        match self.phase {
            BuildPhase::Connecting => 0,
            BuildPhase::Opening { next } => next as int,
        }
    }

    /// A build is well formed when its reserved identities do not wrap
    /// and the opened handles match the request so far.
    pub open spec fn wf(self) -> bool {
        &&& self.base + self.topics@.len() <= u64::MAX
        &&& match self.phase {
            BuildPhase::Connecting => self.built@.len() == 0,
            BuildPhase::Opening { next } => next < self.topics@.len() && self.built_matches(
                next as int,
            ),
        }
    }
}

/// The subscription router. `active` is the one subscription set new
/// deliveries attach to; `build` is the handover in progress, if any;
/// `next_id` bounds every identity ever handed out, so identities are
/// never reused across handovers.
pub struct Router {
    pub active: Option<SubscriptionSet>,
    pub build: Option<PendingBuild>,
    pub next_id: u64,
}

impl Router {
    /// The pending build; meaningful only while `build is Some`.
    pub open spec fn building(self) -> PendingBuild {
        self.build.unwrap()
    }

    /// The active set; meaningful only while `active is Some`.
    pub open spec fn active_set(self) -> SubscriptionSet {
        self.active.unwrap()
    }

    /// A delivery with this identity reaches the sink: the active set
    /// owns a live handle for it.
    pub open spec fn deliverable(self, id: u64) -> bool {
        self.active matches Some(s) && s.contains_live(id)
    }

    /// The router's invariant: active identities are distinct and below
    /// `next_id`, and a pending build holds a reserved identity range
    /// that lies above every active identity and below `next_id`.
    pub open spec fn wf(self) -> bool {
        &&& (self.active matches Some(s) ==> s.ids_distinct() && s.ids_below(self.next_id))
        &&& (self.build matches Some(b) ==> {
            &&& b.wf()
            &&& b.base + b.topics@.len() <= self.next_id
            &&& (self.active matches Some(s) ==> s.ids_below(b.base))
        })
    }

    /// A router with no active set and no handover in progress.
    pub fn new() -> (r: Router)
        ensures
            r.wf(),
            r.active is None,
            r.build is None,
            r.next_id == 0,
    {
        Router { active: None, build: None, next_id: 0 }
    }

    /// Accept a handover request: reserve fresh identities for its topics
    /// and ask the shell to connect to the requested endpoint. The active
    /// set is untouched; nothing changes for deliveries yet.
    pub fn begin_handover(&mut self, request: HandoverRequest) -> (action: RouterAction)
        requires
            old(self).wf(),
            old(self).build is None,
            old(self).next_id + request.topics@.len() <= u64::MAX,
        ensures
            final (self).wf(),
            final (self).active == old(self).active,
            final (self).build is Some,
            final (self).building().phase == BuildPhase::Connecting,
            final (self).building().endpoint == request.endpoint,
            final (self).building().topics == request.topics,
            final (self).building().base == old(self).next_id,
            final (self).building().built@.len() == 0,
            final (self).next_id == old(self).next_id + request.topics@.len(),
            (action matches RouterAction::Connect { ip, port } && ip@ == request.endpoint.ip@
                && port == request.endpoint.port),
            forall|id: u64| final (self).deliverable(id) <==> old(self).deliverable(id),
    {
        let len: usize = request.topics.len();
        let base: u64 = self.next_id;
        self.next_id = self.next_id + (len as u64);
        let ip = clone_string(&request.endpoint.ip);
        let port: u16 = request.endpoint.port;
        self.build = Some(
            PendingBuild {
                endpoint: request.endpoint,
                topics: request.topics,
                built: Vec::new(),
                base,
                phase: BuildPhase::Connecting,
            },
        );
        RouterAction::Connect { ip, port }
    }

    /// The connection to the requested endpoint failed: the handover is
    /// abandoned, the error is reported, and the previous active set —
    /// and everything it delivers — is left exactly as it was.
    pub fn on_connect_failed(&mut self) -> (action: RouterAction)
        requires
            old(self).wf(),
            old(self).build is Some,
            old(self).building().phase == BuildPhase::Connecting,
        ensures
            final (self).wf(),
            final (self).active == old(self).active,
            final (self).build is None,
            final (self).next_id == old(self).next_id,
            action == RouterAction::ReportConnectError,
            forall|id: u64| final (self).deliverable(id) <==> old(self).deliverable(id),
    {
        self.build = None;
        RouterAction::ReportConnectError
    }

    /// The connection is up. With topics still to open, ask the shell to
    /// open the first one. With an empty topic list the handover is
    /// already complete: the previous set is aborted, an active-but-empty
    /// set is installed, and the topic-list-ready notification is still
    /// emitted.
    pub fn on_connect_ok(&mut self) -> (actions: Vec<RouterAction>)
        requires
            old(self).wf(),
            old(self).build is Some,
            old(self).building().phase == BuildPhase::Connecting,
        ensures
            final (self).wf(),
            final (self).next_id == old(self).next_id,
            old(self).building().topics@.len() > 0 ==> {
                let b = old(self).building();
                &&& final (self).active == old(self).active
                &&& final (self).build is Some
                &&& final (self).building() == (PendingBuild {
                    phase: BuildPhase::Opening { next: 0 },
                    ..b
                })
                &&& actions@.len() == 1
                &&& (actions@[0] matches RouterAction::OpenSubscription { id, mtype, topic }
                    && id == b.base && mtype == b.topics@[0].mtype && topic@ == b.topics@[0].topic@)
                &&& (forall|id: u64| final (self).deliverable(id) <==> old(self).deliverable(id))
            },
            old(self).building().topics@.len() == 0 ==> {
                let b = old(self).building();
                &&& final (self).build is None
                &&& final (self).active is Some
                &&& final (self).active_set().endpoint == b.endpoint
                &&& final (self).active_set().handles@.len() == 0
                &&& completion_actions(old(self).active, actions@)
                &&& (forall|id: u64| !final (self).deliverable(id))
            },
    {
        let b = self.build.take().unwrap();
        if b.topics.len() == 0 {
            let PendingBuild { endpoint, topics: _, built: _, base: _, phase: _ } = b;
            self.install(endpoint, Vec::new(), Ghost(old(self).next_id))
        } else {
            let id: u64 = b.base;
            let mtype = b.topics[0].mtype;
            let topic = clone_string(&b.topics[0].topic);
            self.build = Some(PendingBuild { phase: BuildPhase::Opening { next: 0 }, ..b });
            let mut actions: Vec<RouterAction> = Vec::new();
            actions.push(RouterAction::OpenSubscription { id, mtype, topic });
            actions
        }
    }

    /// The subscription the build was waiting on is open. With topics
    /// still to open, ask the shell for the next one. Once the last one
    /// is open the handover completes: the previous active set is aborted
    /// — every live subscription of it is stopped — the new set is
    /// installed, and the sink is notified that the topic list is ready.
    /// No identity that was deliverable before the swap stays deliverable
    /// after it: the old set can never deliver again.
    pub fn on_subscribe_ok(&mut self) -> (actions: Vec<RouterAction>)
        requires
            old(self).wf(),
            old(self).build is Some,
            old(self).building().phase matches BuildPhase::Opening { .. },
        ensures
            final (self).wf(),
            final (self).next_id == old(self).next_id,
            ({
                let b = old(self).building();
                let i = b.opening_index();
                &&& (i + 1 < b.topics@.len() ==> {
                    &&& final (self).active == old(self).active
                    &&& final (self).build is Some
                    &&& final (self).building().endpoint == b.endpoint
                    &&& final (self).building().topics == b.topics
                    &&& final (self).building().base == b.base
                    &&& final (self).building().phase == (BuildPhase::Opening {
                        next: (i + 1) as usize,
                    })
                    &&& final (self).building().built_matches(i + 1)
                    &&& actions@.len() == 1
                    &&& (actions@[0] matches RouterAction::OpenSubscription { id, mtype, topic }
                        && id == b.base + i + 1 && mtype == b.topics@[i + 1].mtype && topic@
                        == b.topics@[i + 1].topic@)
                    &&& (forall|id: u64| final (self).deliverable(id) <==> old(self).deliverable(
                        id,
                    ))
                })
                &&& (i + 1 == b.topics@.len() ==> {
                    &&& final (self).build is None
                    &&& final (self).active is Some
                    &&& final (self).active_set().endpoint == b.endpoint
                    &&& final (self).active_set().handles@.len() == b.topics@.len()
                    &&& (forall|j: int|
                        0 <= j < b.topics@.len() ==> {
                            &&& final (self).active_set().handles@[j].id == b.base + j
                            &&& final (self).active_set().handles@[j].mtype == b.topics@[j].mtype
                            &&& final (self).active_set().handles@[j].topic@ == b.topics@[j].topic@
                            &&& !final (self).active_set().handles@[j].stopped
                        })
                    &&& completion_actions(old(self).active, actions@)
                    &&& (forall|id: u64| old(self).deliverable(id) ==> !final (self).deliverable(
                        id,
                    ))
                })
            }),
    {
        let mut b = self.build.take().unwrap();
        proof {
            assert(b == old(self).building());
            assert(b.wf());
        }
        let i: usize = match b.phase {
            BuildPhase::Opening { next } => next,
            BuildPhase::Connecting => 0,
        };
        let total: usize = b.topics.len();
        proof {
            assert(i < b.topics@.len());
        }
        let id: u64 = b.base + (i as u64);
        let mtype = b.topics[i].mtype;
        let topic = clone_string(&b.topics[i].topic);
        b.built.push(SubHandle { id, mtype, topic, stopped: false });
        if i + 1 < total {
            let next_id: u64 = b.base + ((i + 1) as u64);
            let next_mtype = b.topics[i + 1].mtype;
            let next_topic = clone_string(&b.topics[i + 1].topic);
            b.phase = BuildPhase::Opening { next: i + 1 };
            self.build = Some(b);
            proof {
                let bn = self.building();
                let b0 = old(self).building();
                assert forall|j: int| 0 <= j < i + 1 implies bn.handle_is_for(j) by {
                    if j < i {
                        assert(b0.handle_is_for(j));
                        assert(bn.built@[j] == b0.built@[j]);
                    }
                }
                assert(bn.built_matches(i + 1));
            }
            let mut actions: Vec<RouterAction> = Vec::new();
            actions.push(
                RouterAction::OpenSubscription { id: next_id, mtype: next_mtype, topic: next_topic },
            );
            actions
        } else {
            proof {
                let b0 = old(self).building();
                assert forall|j: int| 0 <= j < i + 1 implies b.handle_is_for(j) by {
                    if j < i {
                        assert(b0.handle_is_for(j));
                        assert(b.built@[j] == b0.built@[j]);
                    }
                }
                assert(b.built_matches(i + 1));
                assert forall|p: int, q: int|
                    0 <= p < q < b.built@.len() implies b.built@[p].id != b.built@[q].id by {
                    assert(b.handle_is_for(p));
                    assert(b.handle_is_for(q));
                }
                assert forall|p: int| 0 <= p < b.built@.len() implies b.built@[p].id
                    < self.next_id && b.built@[p].id >= b.base by {
                    assert(b.handle_is_for(p));
                }
            }
            let ghost gb = b;
            let PendingBuild { endpoint, topics: _, built, base: _, phase: _ } = b;
            let actions = self.install(endpoint, built, Ghost(old(self).building().base));
            proof {
                let sn = self.active_set();
                assert forall|j: int| 0 <= j < gb.topics@.len() implies sn.handles@[j].id == gb.base
                    + j && sn.handles@[j].mtype == gb.topics@[j].mtype && sn.handles@[j].topic@
                    == gb.topics@[j].topic@ && !sn.handles@[j].stopped by {
                    assert(gb.handle_is_for(j));
                }
            }
            actions
        }
    }

    /// Opening the subscription the build was waiting on failed. The
    /// handover is abandoned: every handle opened during this attempt is
    /// stopped, the failure is reported with the failing position, and
    /// the previous active set keeps delivering exactly as before.
    pub fn on_subscribe_failed(&mut self) -> (actions: Vec<RouterAction>)
        requires
            old(self).wf(),
            old(self).build is Some,
            old(self).building().phase matches BuildPhase::Opening { .. },
        ensures
            final (self).wf(),
            final (self).active == old(self).active,
            final (self).build is None,
            final (self).next_id == old(self).next_id,
            ({
                let b = old(self).building();
                let i = b.opening_index();
                &&& actions@.len() == i + 1
                &&& (forall|j: int|
                    0 <= j < i ==> ((#[trigger] actions@[j]) matches
                        RouterAction::StopSubscription { id } && id == b.base + j))
                &&& (actions@[i] matches RouterAction::ReportSubscribeError { topic_index }
                    && topic_index == i)
            }),
            forall|id: u64| final (self).deliverable(id) <==> old(self).deliverable(id),
    {
        let b = self.build.take().unwrap();
        let i: usize = match b.phase {
            BuildPhase::Opening { next } => next,
            BuildPhase::Connecting => 0,
        };
        let mut actions: Vec<RouterAction> = Vec::new();
        let n: usize = b.built.len();
        for j in 0..n
            invariant
                n == b.built@.len(),
                n == i,
                b.wf(),
                b.phase == (BuildPhase::Opening { next: i }),
                actions@.len() == j,
                forall|k: int|
                    0 <= k < j ==> ((#[trigger] actions@[k]) matches
                        RouterAction::StopSubscription { id } && id == b.base + k),
        {
            assert(b.handle_is_for(j as int));
            actions.push(RouterAction::StopSubscription { id: b.built[j].id });
        }
        actions.push(RouterAction::ReportSubscribeError { topic_index: i });
        actions
    }

    /// Abort the previous active set, install the finished one, and
    /// notify the sink. Identities of the new handles lie at or above
    /// `fresh_from`, which bounds the old set's identities from above, so
    /// nothing the old set delivered stays deliverable.
    fn install(
        &mut self,
        endpoint: Endpoint,
        handles: Vec<SubHandle>,
        fresh_from: Ghost<u64>,
    ) -> (actions: Vec<RouterAction>)
        requires
            old(self).wf(),
            old(self).build is None,
            forall|i: int, j: int|
                0 <= i < j < handles@.len() ==> handles@[i].id != handles@[j].id,
            forall|i: int| 0 <= i < handles@.len() ==> handles@[i].id < old(self).next_id,
            forall|i: int| 0 <= i < handles@.len() ==> handles@[i].id >= fresh_from@,
            old(self).active matches Some(s) ==> s.ids_below(fresh_from@),
        ensures
            final (self).wf(),
            final (self).build is None,
            final (self).next_id == old(self).next_id,
            final (self).active is Some,
            final (self).active_set().endpoint == endpoint,
            final (self).active_set().handles == handles,
            completion_actions(old(self).active, actions@),
            forall|id: u64| old(self).deliverable(id) ==> !final (self).deliverable(id),
    {
        let mut actions: Vec<RouterAction> = Vec::new();
        let prev = self.active.take();
        match prev {
            None => {},
            Some(mut s) => {
                let stopped = s.abort();
                let n: usize = stopped.len();
                for k in 0..n
                    invariant
                        n == stopped@.len(),
                        actions@.len() == k,
                        forall|j: int|
                            0 <= j < k ==> (#[trigger] actions@[j]) == (
                            RouterAction::StopSubscription { id: stopped@[j] }),
                {
                    actions.push(RouterAction::StopSubscription { id: stopped[k] });
                }
            },
        }
        actions.push(RouterAction::NotifyTopicListReady);
        self.active = Some(SubscriptionSet { endpoint, handles });
        proof {
            assert forall|id: u64| old(self).deliverable(id) implies !self.deliverable(id) by {
                if self.deliverable(id) {
                    let i = choose|i: int|
                        0 <= i < self.active_set().handles@.len()
                            && self.active_set().handles@[i].id == id
                            && !self.active_set().handles@[i].stopped;
                    let j = choose|j: int|
                        0 <= j < old(self).active_set().handles@.len() && old(
                            self,
                        ).active_set().handles@[j].id == id && !old(
                            self,
                        ).active_set().handles@[j].stopped;
                    assert(old(self).active_set().handles@[j].id < fresh_from@);
                    assert(self.active_set().handles@[i].id >= fresh_from@);
                }
            }
        }
        actions
    }

    /// Relay one inbound delivery. The message reaches the sink — under
    /// the method of its kind — exactly when it decoded and the active
    /// set still owns a live handle with the delivery's identity; a
    /// malformed message is dropped for that message only, and a delivery
    /// for a stopped or replaced handle is dropped silently.
    #[verifier::loop_isolation(false)]
    pub fn relay(&self, handle_id: u64, outcome: Result<TypedMessage, DecodeError>) -> (r: Option<
        (SinkEvent, TypedMessage),
    >)
        ensures
            outcome matches Err(_) ==> r is None,
            !self.deliverable(handle_id) ==> r is None,
            outcome matches Ok(m) ==> self.deliverable(handle_id) ==> r == Some(
                (event_for(m.kind), m),
            ),
    {
        let m = match outcome {
            Ok(m) => m,
            Err(_) => {
                return None;
            },
        };
        match &self.active {
            None => None,
            Some(s) => {
                let n: usize = s.handles.len();
                for i in 0..n
                    invariant
                        forall|j: int|
                            0 <= j < i ==> !(s.handles@[j].id == handle_id
                                && !s.handles@[j].stopped),
                {
                    let h = &s.handles[i];
                    if h.id == handle_id && !h.stopped {
                        let e = crate::catalog::dispatch(&m);
                        return Some((e, m));
                    }
                }
                None
            },
        }
    }

    /// Stop every live subscription of the active set without replacing
    /// it, and report which identities to cancel. Used when the feed must
    /// fall silent — a new run is about to be requested — while the set
    /// stays installed. Nothing is deliverable afterwards.
    pub fn suspend(&mut self) -> (stopped: Vec<u64>)
        requires
            old(self).wf(),
        ensures
            final (self).wf(),
            final (self).build == old(self).build,
            final (self).next_id == old(self).next_id,
            forall|id: u64| !final (self).deliverable(id),
            old(self).active is None ==> final (self).active is None && stopped@.len() == 0,
            old(self).active matches Some(s) ==> (final (self).active matches Some(s2)
                && s2.endpoint == s.endpoint && aborted_form(s.handles@, s2.handles@) && stopped@
                == live_ids_of(s.handles@)),
    {
        match &mut self.active {
            None => Vec::new(),
            Some(s) => s.abort(),
        }
    }

    /// Whether a handover is in progress.
    pub fn is_handover_in_progress(&self) -> (b: bool)
        ensures
            b == (self.build is Some),
    {
        self.build.is_some()
    }

    /// Whether an active set is installed.
    pub fn has_active_set(&self) -> (b: bool)
        ensures
            b == (self.active is Some),
    {
        self.active.is_some()
    }

    /// How many handles the active set owns; zero with none installed.
    pub fn active_handle_count(&self) -> (n: usize)
        ensures
            self.active matches Some(s) ==> n == s.handles@.len(),
            self.active is None ==> n == 0,
    {
        match &self.active {
            None => 0,
            Some(s) => s.handles.len(),
        }
    }
}

/// Law: no stale-set delivery across consecutive handovers. While a
/// handover is pending, every identity the router can still deliver for —
/// every handle of the previously installed set — lies below the pending
/// build's reserved range, and every handle the build opens lies inside
/// it; so once the build is installed as the active set, no identity of
/// the superseded set is deliverable, and `Router::relay` drops every
/// message attributed to one.
pub proof fn lemma_no_stale_delivery(r: Router, id: u64)
    requires
        r.wf(),
        r.build is Some,
        r.deliverable(id),
    ensures
        id < r.building().base,
        forall|j: int| 0 <= j < r.building().built@.len() ==> (#[trigger] r.building().built@[j].id)
            != id,
{
    let s = r.active_set();
    let i = choose|i: int|
        0 <= i < s.handles@.len() && s.handles@[i].id == id && !s.handles@[i].stopped;
    assert(s.handles@[i].id < r.building().base);
    assert forall|j: int|
        0 <= j < r.building().built@.len() implies (#[trigger] r.building().built@[j].id)
        != id by {
        let b = r.building();
        if b.phase matches BuildPhase::Opening { .. } {
            assert(b.handle_is_for(j));
        }
    }
}

/// The actions a completed handover returns: a stop for each identity
/// that was still live in the previous active set, in order, then the
/// topic-list-ready notification — exactly once, and only after the old
/// set is fully stopped.
pub open spec fn completion_actions(
    prev_active: Option<SubscriptionSet>,
    acts: Seq<RouterAction>,
) -> bool {
    let stops = match prev_active {
        Some(s) => live_ids_of(s.handles@),
        None => Seq::empty(),
    };
    &&& acts.len() == stops.len() + 1
    &&& (forall|i: int|
        0 <= i < stops.len() ==> (#[trigger] acts[i]) == (RouterAction::StopSubscription {
            id: stops[i],
        }))
    &&& acts[stops.len() as int] == RouterAction::NotifyTopicListReady
}

} // verus!
