//! The command correlator: monotonic command ids, one single-use rendezvous
//! entry per pending command, and the routing of inbound control responses
//! to those entries.
//!
//! Per command id the life cycle is `Issued -> (Routed | TimedOut)`, and an
//! id is never reused: `next_id` only counts up, a routed id leaves the
//! pending list, and a timed-out id is cancelled.  A routed response joins
//! the delivered queue in arrival order, where a waiter picks it up.

use vstd::prelude::*;
use crate::messages::{ErrorMsg, SubscribedMsg};

verus! {

/// Response from a WebSocket command.
///
/// When a command is sent (subscribe, unsubscribe, update), the server
/// answers with one of these to confirm or reject the action.
#[derive(Debug, PartialEq)]
pub enum CommandResponse {
    /// Successful acknowledgment, carrying the command id acknowledged.
    Ack { id: i32 },
    /// Rejection, with the server's numeric code and message.
    Error { code: i32, msg: String },
    /// Subscription confirmation with the server-assigned sid and the
    /// channel's wire name.
    Subscribed { sid: i32, channel: String },
}

impl CommandResponse {
    /// The subscription confirmation a `subscribed` frame carries.
    pub fn of_subscribed(m: &SubscribedMsg) -> (r: CommandResponse)
        ensures
            r == (CommandResponse::Subscribed { sid: m.sid, channel: m.channel }),
    {
        CommandResponse::Subscribed { sid: m.sid, channel: m.channel.clone() }
    }

    /// The rejection an `error` frame carries.
    pub fn of_error(m: &ErrorMsg) -> (r: CommandResponse)
        ensures
            r == (CommandResponse::Error { code: m.code, msg: m.msg }),
    {
        CommandResponse::Error { code: m.code, msg: m.msg.clone() }
    }
}

/// The correlator's state: the id counter, the pending command ids in
/// registration order, and the responses routed so far in arrival order.
#[derive(Debug)]
pub struct Correlator {
    pub next_id: i32,
    pub pending: Vec<i32>,
    pub delivered: Vec<(i32, CommandResponse)>,
}

/// State agreement at the view level: same counter, same pending ids,
/// same delivered queue.
pub open spec fn corr_same(a: Correlator, b: Correlator) -> bool {
    a.next_id == b.next_id && a.pending@ == b.pending@ && a.delivered@ == b.delivered@
}

/// The ids of the delivered queue.
pub open spec fn delivered_ids(d: Seq<(i32, CommandResponse)>) -> Seq<i32> {
    Seq::new(d.len(), |j: int| d[j].0)
}

impl Correlator {
    /// Well-formed: ids are positive and below the counter, no id is
    /// pending twice, no id has been delivered twice, and no id is both
    /// pending and delivered.  Together these make every delivery slot
    /// single-use.
    pub open spec fn wf(&self) -> bool {
        &&& 1 <= self.next_id
        &&& forall|i: int| 0 <= i < self.pending@.len()
            ==> 1 <= #[trigger] self.pending@[i] < self.next_id
        &&& forall|i: int| 0 <= i < self.delivered@.len()
            ==> 1 <= #[trigger] self.delivered@[i].0 < self.next_id
        &&& forall|i: int, j: int| 0 <= i < j < self.pending@.len()
            ==> self.pending@[i] != self.pending@[j]
        &&& forall|i: int, j: int| 0 <= i < j < self.delivered@.len()
            ==> self.delivered@[i].0 != self.delivered@[j].0
        &&& forall|i: int, j: int| 0 <= i < self.pending@.len()
            && 0 <= j < self.delivered@.len()
            ==> self.pending@[i] != self.delivered@[j].0
    }

    /// Whether the id has a pending (still unresolved) entry.
    pub open spec fn spec_pending(&self, id: i32) -> bool {
        self.pending@.contains(id)
    }

    /// Whether a response for the id has been routed and not yet taken.
    pub open spec fn spec_delivered(&self, id: i32) -> bool {
        delivered_ids(self.delivered@).contains(id)
    }

    /// A fresh correlator; ids start at 1.
    pub fn new() -> (r: Correlator)
        ensures
            r.wf(),
            r.next_id == 1,
            r.pending@ == Seq::<i32>::empty(),
            r.delivered@ == Seq::<(i32, CommandResponse)>::empty(),
    {
        Correlator { next_id: 1, pending: Vec::new(), delivered: Vec::new() }
    }

    /// Returns and post-increments the id counter.  Called exactly once per
    /// logical command; a command that expects several responses takes the
    /// returned id and its consecutive successors, in the order the
    /// channels were listed.
    pub fn get_next_id(&mut self) -> (id: i32)
        requires
            old(self).wf(),
            old(self).next_id < i32::MAX,
        ensures
            final(self).wf(),
            id == old(self).next_id,
            final(self).next_id == old(self).next_id + 1,
            final(self).pending@ == old(self).pending@,
            final(self).delivered@ == old(self).delivered@,
    {
        let id = self.next_id;
        self.next_id = self.next_id + 1;
        id
    }

    /// Registers a pending command for an id handed out by `get_next_id`
    /// and not registered before.  Must happen before the command goes on
    /// the wire, to close the race between the send and an immediate reply.
    pub fn register(&mut self, id: i32)
        requires
            old(self).wf(),
            1 <= id < old(self).next_id,
            !old(self).spec_pending(id),
            !old(self).spec_delivered(id),
        ensures
            final(self).wf(),
            final(self).next_id == old(self).next_id,
            final(self).pending@ == old(self).pending@.push(id),
            final(self).delivered@ == old(self).delivered@,
    {
        proof {
            assert forall|i: int| 0 <= i < self.pending@.len()
                implies self.pending@[i] != id by {
                if self.pending@[i] == id {
                    assert(self.pending@.contains(id));
                }
            }
            assert forall|j: int| 0 <= j < self.delivered@.len()
                implies self.delivered@[j].0 != id by {
                if self.delivered@[j].0 == id {
                    assert(delivered_ids(self.delivered@)[j] == id);
                    assert(delivered_ids(self.delivered@).contains(id));
                }
            }
        }
        self.pending.push(id);
    }

    /// Routes a response to the pending command with this id.  Returns
    /// whether a pending entry existed: if so, the entry is consumed and
    /// the response joins the delivered queue; if not (a late response
    /// after a timeout, or server behaviour outside the tracked set), the
    /// response is dropped silently and the state is unchanged.
    #[verifier::loop_isolation(false)]
    pub fn route(&mut self, id: i32, response: CommandResponse) -> (hit: bool)
        requires
            old(self).wf(),
        ensures
            final(self).wf(),
            final(self).next_id == old(self).next_id,
            hit == old(self).spec_pending(id),
            hit ==> exists|i: int| 0 <= i < old(self).pending@.len()
                && old(self).pending@[i] == id
                && final(self).pending@ == old(self).pending@.remove(i),
            hit ==> final(self).delivered@ == old(self).delivered@.push((id, response)),
            hit ==> !final(self).spec_pending(id),
            !hit ==> final(self).pending@ == old(self).pending@
                && final(self).delivered@ == old(self).delivered@,
    {
        let mut i: usize = 0;
        while i < self.pending.len()
            invariant
                i <= self.pending@.len(),
                self.pending@ == old(self).pending@,
                self.delivered@ == old(self).delivered@,
                self.next_id == old(self).next_id,
                forall|j: int| 0 <= j < i ==> self.pending@[j] != id,
            decreases self.pending@.len() - i,
        {
            if self.pending[i] == id {
                self.pending.remove(i);
                self.delivered.push((id, response));
                proof {
                    assert(old(self).pending@.contains(id));
                    let removed = old(self).pending@.remove(i as int);
                    assert(self.pending@ == removed);
                    assert forall|k: int| 0 <= k < removed.len()
                        implies removed[k] != id by {
                        if k < i {
                            assert(removed[k] == old(self).pending@[k]);
                        } else {
                            assert(removed[k] == old(self).pending@[k + 1]);
                        }
                    }
                    assert forall|k: int| 0 <= k < self.pending@.len()
                        implies self.pending@[k] != id by {
                        assert(removed[k] != id);
                    }
                    if self.spec_pending(id) {
                        let w = choose|k: int| 0 <= k < self.pending@.len()
                            && self.pending@[k] == id;
                        assert(self.pending@[w] != id);
                    }
                }
                return true;
            }
            i = i + 1;
        }
        proof {
            if old(self).spec_pending(id) {
                let w = choose|k: int| 0 <= k < old(self).pending@.len()
                    && old(self).pending@[k] == id;
                assert(old(self).pending@[w] != id);
            }
        }
        false
    }

    /// Cancels the pending command with this id, if any; used when a wait
    /// times out, so that a late response finds no waiter.
    #[verifier::loop_isolation(false)]
    pub fn cancel(&mut self, id: i32)
        requires
            old(self).wf(),
        ensures
            final(self).wf(),
            final(self).next_id == old(self).next_id,
            !final(self).spec_pending(id),
            final(self).delivered@ == old(self).delivered@,
            forall|x: i32| x != id ==> final(self).spec_pending(x)
                == old(self).spec_pending(x),
            !old(self).spec_pending(id) ==> final(self).pending@ == old(self).pending@,
    {
        let mut i: usize = 0;
        while i < self.pending.len()
            invariant
                i <= self.pending@.len(),
                self.pending@ == old(self).pending@,
                self.delivered@ == old(self).delivered@,
                self.next_id == old(self).next_id,
                forall|j: int| 0 <= j < i ==> self.pending@[j] != id,
            decreases self.pending@.len() - i,
        {
            if self.pending[i] == id {
                self.pending.remove(i);
                proof {
                    let removed = old(self).pending@.remove(i as int);
                    assert(self.pending@ == removed);
                    assert forall|k: int| 0 <= k < removed.len()
                        implies removed[k] != id by {
                        if k < i {
                            assert(removed[k] == old(self).pending@[k]);
                        } else {
                            assert(removed[k] == old(self).pending@[k + 1]);
                        }
                    }
                    if self.spec_pending(id) {
                        let w = choose|k: int| 0 <= k < self.pending@.len()
                            && self.pending@[k] == id;
                        assert(self.pending@[w] != id);
                    }
                    assert forall|x: i32| x != id
                        implies self.spec_pending(x) == old(self).spec_pending(x) by {
                        if old(self).spec_pending(x) {
                            let w = choose|k: int| 0 <= k < old(self).pending@.len()
                                && old(self).pending@[k] == x;
                            if w < i {
                                assert(removed[w] == x);
                                assert(removed.contains(x));
                            } else {
                                assert(w > i);
                                assert(removed[w - 1] == x);
                                assert(removed.contains(x));
                            }
                        }
                        if self.spec_pending(x) {
                            let w = choose|k: int| 0 <= k < removed.len()
                                && removed[k] == x;
                            if w < i {
                                assert(old(self).pending@[w] == x);
                                assert(old(self).pending@.contains(x));
                            } else {
                                assert(old(self).pending@[w + 1] == x);
                                assert(old(self).pending@.contains(x));
                            }
                        }
                    }
                }
                return;
            }
            i = i + 1;
        }
        proof {
            if old(self).spec_pending(id) {
                let w = choose|k: int| 0 <= k < old(self).pending@.len()
                    && old(self).pending@[k] == id;
                assert(old(self).pending@[w] != id);
            }
        }
    }

    /// Drops every pending entry and every undelivered response; called on
    /// disconnect, so that no wait can resolve against a dead connection.
    pub fn clear(&mut self)
        requires
            old(self).wf(),
        ensures
            final(self).wf(),
            final(self).next_id == old(self).next_id,
            final(self).pending@ == Seq::<i32>::empty(),
            final(self).delivered@ == Seq::<(i32, CommandResponse)>::empty(),
    {
        self.pending.clear();
        self.delivered.clear();
    }

    /// Takes the earliest-arrived delivered response whose id is in the
    /// given set, if any.
    #[verifier::loop_isolation(false)]
    pub fn take_delivered(&mut self, ids: &Vec<i32>) -> (r: Option<(i32, CommandResponse)>)
        requires
            old(self).wf(),
        ensures
            final(self).wf(),
            final(self).next_id == old(self).next_id,
            final(self).pending@ == old(self).pending@,
            match r {
                Some((id, _)) => {
                    &&& ids@.contains(id)
                    &&& exists|i: int| 0 <= i < old(self).delivered@.len()
                        && old(self).delivered@[i] == r.unwrap()
                        && final(self).delivered@ == old(self).delivered@.remove(i)
                        && (forall|j: int| 0 <= j < i
                            ==> !ids@.contains(#[trigger] old(self).delivered@[j].0))
                },
                None => {
                    &&& final(self).delivered@ == old(self).delivered@
                    &&& forall|j: int| 0 <= j < old(self).delivered@.len()
                        ==> !ids@.contains(#[trigger] old(self).delivered@[j].0)
                },
            },
    {
        let mut i: usize = 0;
        while i < self.delivered.len()
            invariant
                i <= self.delivered@.len(),
                self.pending@ == old(self).pending@,
                self.delivered@ == old(self).delivered@,
                self.next_id == old(self).next_id,
                forall|j: int| 0 <= j < i
                    ==> !ids@.contains(#[trigger] self.delivered@[j].0),
            decreases self.delivered@.len() - i,
        {
            if contains_id(ids, self.delivered[i].0) {
                let entry = self.delivered.remove(i);
                proof {
                    let removed = old(self).delivered@.remove(i as int);
                    assert(self.delivered@ == removed);
                    assert forall|a: int, b: int| 0 <= a < b < removed.len()
                        implies removed[a].0 != removed[b].0 by {
                        let a0: int = if a < i { a } else { a + 1 };
                        let b0: int = if b < i { b } else { b + 1 };
                        assert(removed[a] == old(self).delivered@[a0]);
                        assert(removed[b] == old(self).delivered@[b0]);
                    }
                    assert forall|a: int, b: int| 0 <= a < self.pending@.len()
                        && 0 <= b < removed.len()
                        implies self.pending@[a] != removed[b].0 by {
                        let b0: int = if b < i { b } else { b + 1 };
                        assert(removed[b] == old(self).delivered@[b0]);
                    }
                    assert forall|b: int| 0 <= b < removed.len()
                        implies 1 <= #[trigger] removed[b].0 < self.next_id by {
                        let b0: int = if b < i { b } else { b + 1 };
                        assert(removed[b] == old(self).delivered@[b0]);
                    }
                }
                return Some(entry);
            }
            i = i + 1;
        }
        None
    }

    /// Every slot is single-use: at most one response is ever delivered
    /// for a command id, and once a response for an id has been delivered,
    /// no pending entry for that id remains, so routing the same id again
    /// cannot deliver a second time.
    pub proof fn lemma_delivery_exactly_once(&self, id: i32)
        requires
            self.wf(),
        ensures
            forall|i: int, j: int| 0 <= i < self.delivered@.len()
                && 0 <= j < self.delivered@.len()
                && #[trigger] self.delivered@[i].0 == id
                && #[trigger] self.delivered@[j].0 == id
                ==> i == j,
            self.spec_delivered(id) ==> !self.spec_pending(id),
    {
        if self.spec_delivered(id) {
            let w = choose|k: int| 0 <= k < delivered_ids(self.delivered@).len()
                && delivered_ids(self.delivered@)[k] == id;
            assert(self.delivered@[w].0 == id);
            if self.spec_pending(id) {
                let p = choose|k: int| 0 <= k < self.pending@.len()
                    && self.pending@[k] == id;
                assert(self.pending@[p] != self.delivered@[w].0);
            }
        }
    }
}

/// Whether the id occurs in the list.
fn contains_id(ids: &Vec<i32>, id: i32) -> (r: bool)
    ensures
        r == ids@.contains(id),
{
    let mut i: usize = 0;
    while i < ids.len()
        invariant
            i <= ids@.len(),
            forall|j: int| 0 <= j < i ==> ids@[j] != id,
        decreases ids@.len() - i,
    {
        if ids[i] == id {
            return true;
        }
        i = i + 1;
    }
    proof {
        if ids@.contains(id) {
            let w = choose|k: int| 0 <= k < ids@.len() && ids@[k] == id;
            assert(ids@[w] != id);
        }
    }
    false
}


/// The delivered entries whose id is in `ids`, in arrival order.
pub open spec fn spec_matching(
    d: Seq<(i32, CommandResponse)>,
    ids: Seq<i32>,
) -> Seq<(i32, CommandResponse)>
    decreases d.len(),
{
    if d.len() == 0 {
        Seq::empty()
    } else if ids.contains(d[0].0) {
        seq![d[0]] + spec_matching(d.drop_first(), ids)
    } else {
        spec_matching(d.drop_first(), ids)
    }
}

/// The delivered entries whose id is not in `ids`, in arrival order.
pub open spec fn spec_rest(
    d: Seq<(i32, CommandResponse)>,
    ids: Seq<i32>,
) -> Seq<(i32, CommandResponse)>
    decreases d.len(),
{
    if d.len() == 0 {
        Seq::empty()
    } else if ids.contains(d[0].0) {
        spec_rest(d.drop_first(), ids)
    } else {
        seq![d[0]] + spec_rest(d.drop_first(), ids)
    }
}

/// Every id of the matching part comes from the queue it was drawn from.
proof fn lemma_matching_ids_from(d: Seq<(i32, CommandResponse)>, ids: Seq<i32>, x: i32)
    requires
        delivered_ids(spec_matching(d, ids)).contains(x),
    ensures
        delivered_ids(d).contains(x),
        ids.contains(x),
    decreases d.len(),
{
    if d.len() > 0 {
        let m = spec_matching(d, ids);
        let w = choose|k: int| 0 <= k < delivered_ids(m).len() && delivered_ids(m)[k] == x;
        assert(m[w].0 == x);
        if ids.contains(d[0].0) {
            if w == 0 {
                assert(d[0].0 == x);
                assert(delivered_ids(d)[0] == x);
            } else {
                assert(m[w] == spec_matching(d.drop_first(), ids)[w - 1]);
                assert(delivered_ids(spec_matching(d.drop_first(), ids))[w - 1] == x);
                lemma_matching_ids_from(d.drop_first(), ids, x);
                let v = choose|k: int| 0 <= k < delivered_ids(d.drop_first()).len()
                    && delivered_ids(d.drop_first())[k] == x;
                assert(delivered_ids(d)[v + 1] == x);
            }
        } else {
            assert(delivered_ids(spec_matching(d.drop_first(), ids))[w] == x);
            lemma_matching_ids_from(d.drop_first(), ids, x);
            let v = choose|k: int| 0 <= k < delivered_ids(d.drop_first()).len()
                && delivered_ids(d.drop_first())[k] == x;
            assert(delivered_ids(d)[v + 1] == x);
        }
    }
}

/// Every id of the rest comes from the queue it was drawn from.
proof fn lemma_rest_ids_from(d: Seq<(i32, CommandResponse)>, ids: Seq<i32>, x: i32)
    requires
        delivered_ids(spec_rest(d, ids)).contains(x),
    ensures
        delivered_ids(d).contains(x),
    decreases d.len(),
{
    if d.len() > 0 {
        let m = spec_rest(d, ids);
        let w = choose|k: int| 0 <= k < delivered_ids(m).len() && delivered_ids(m)[k] == x;
        assert(m[w].0 == x);
        if !ids.contains(d[0].0) {
            if w == 0 {
                assert(delivered_ids(d)[0] == x);
            } else {
                assert(m[w] == spec_rest(d.drop_first(), ids)[w - 1]);
                assert(delivered_ids(spec_rest(d.drop_first(), ids))[w - 1] == x);
                lemma_rest_ids_from(d.drop_first(), ids, x);
                let v = choose|k: int| 0 <= k < delivered_ids(d.drop_first()).len()
                    && delivered_ids(d.drop_first())[k] == x;
                assert(delivered_ids(d)[v + 1] == x);
            }
        } else {
            assert(delivered_ids(spec_rest(d.drop_first(), ids))[w] == x);
            lemma_rest_ids_from(d.drop_first(), ids, x);
            let v = choose|k: int| 0 <= k < delivered_ids(d.drop_first()).len()
                && delivered_ids(d.drop_first())[k] == x;
            assert(delivered_ids(d)[v + 1] == x);
        }
    }
}

/// Every id both awaited and delivered shows up in the matching part.
pub proof fn lemma_matching_complete(d: Seq<(i32, CommandResponse)>, ids: Seq<i32>, x: i32)
    requires
        ids.contains(x),
        delivered_ids(d).contains(x),
    ensures
        delivered_ids(spec_matching(d, ids)).contains(x),
    decreases d.len(),
{
    let w = choose|j: int| 0 <= j < delivered_ids(d).len() && delivered_ids(d)[j] == x;
    assert(d[w].0 == x);
    if w == 0 {
        assert(ids.contains(d[0].0));
        let m = spec_matching(d, ids);
        assert(m[0] == d[0]);
        assert(delivered_ids(m)[0] == x);
    } else {
        assert(d.drop_first()[w - 1].0 == x);
        assert(delivered_ids(d.drop_first())[w - 1] == x);
        assert(delivered_ids(d.drop_first()).contains(x));
        lemma_matching_complete(d.drop_first(), ids, x);
        let mt = spec_matching(d.drop_first(), ids);
        let v = choose|j: int| 0 <= j < delivered_ids(mt).len() && delivered_ids(mt)[j] == x;
        assert(mt[v].0 == x);
        let m = spec_matching(d, ids);
        if ids.contains(d[0].0) {
            assert(m[v + 1] == mt[v]);
            assert(delivered_ids(m)[v + 1] == x);
        } else {
            assert(m[v] == mt[v]);
            assert(delivered_ids(m)[v] == x);
        }
    }
}

/// A queue with pairwise-distinct ids splits into a matching part and a
/// rest whose ids are each pairwise distinct.
pub proof fn lemma_partition_distinct(d: Seq<(i32, CommandResponse)>, ids: Seq<i32>)
    requires
        forall|i: int, j: int| 0 <= i < j < d.len() ==> d[i].0 != d[j].0,
    ensures
        forall|i: int, j: int| 0 <= i < j < spec_matching(d, ids).len()
            ==> spec_matching(d, ids)[i].0 != spec_matching(d, ids)[j].0,
        forall|i: int, j: int| 0 <= i < j < spec_rest(d, ids).len()
            ==> spec_rest(d, ids)[i].0 != spec_rest(d, ids)[j].0,
        forall|i: int| 0 <= i < spec_matching(d, ids).len()
            ==> delivered_ids(d).contains(#[trigger] spec_matching(d, ids)[i].0)
                && ids.contains(spec_matching(d, ids)[i].0),
        forall|i: int| 0 <= i < spec_rest(d, ids).len()
            ==> delivered_ids(d).contains(#[trigger] spec_rest(d, ids)[i].0),
    decreases d.len(),
{
    if d.len() > 0 {
        assert forall|i: int, j: int| 0 <= i < j < d.drop_first().len()
            implies d.drop_first()[i].0 != d.drop_first()[j].0 by {
            assert(d.drop_first()[i] == d[i + 1]);
            assert(d.drop_first()[j] == d[j + 1]);
        }
        lemma_partition_distinct(d.drop_first(), ids);
        assert forall|x: i32| delivered_ids(d.drop_first()).contains(x)
            implies delivered_ids(d).contains(x) && d[0].0 != x by {
            let v = choose|k: int| 0 <= k < delivered_ids(d.drop_first()).len()
                && delivered_ids(d.drop_first())[k] == x;
            assert(d.drop_first()[v].0 == x);
            assert(d[v + 1].0 == x);
            assert(delivered_ids(d)[v + 1] == x);
        }
        let m = spec_matching(d, ids);
        let r = spec_rest(d, ids);
        let mt = spec_matching(d.drop_first(), ids);
        let rt = spec_rest(d.drop_first(), ids);
        if ids.contains(d[0].0) {
            assert(m == seq![d[0]] + mt);
            assert forall|i: int, j: int| 0 <= i < j < m.len()
                implies m[i].0 != m[j].0 by {
                if i == 0 {
                    assert(m[j] == mt[j - 1]);
                    assert(delivered_ids(mt)[j - 1] == mt[j - 1].0);
                    assert(delivered_ids(mt).contains(mt[j - 1].0));
                    lemma_matching_ids_from(d.drop_first(), ids, mt[j - 1].0);
                } else {
                    assert(m[i] == mt[i - 1]);
                    assert(m[j] == mt[j - 1]);
                }
            }
            assert forall|i: int| 0 <= i < m.len()
                implies delivered_ids(d).contains(#[trigger] m[i].0)
                    && ids.contains(m[i].0) by {
                if i == 0 {
                    assert(delivered_ids(d)[0] == d[0].0);
                } else {
                    assert(m[i] == mt[i - 1]);
                }
            }
            assert forall|i: int| 0 <= i < r.len()
                implies delivered_ids(d).contains(#[trigger] r[i].0) by {
                assert(r[i] == rt[i]);
            }
        } else {
            assert(r == seq![d[0]] + rt);
            assert forall|i: int, j: int| 0 <= i < j < r.len()
                implies r[i].0 != r[j].0 by {
                if i == 0 {
                    assert(r[j] == rt[j - 1]);
                    assert(delivered_ids(rt)[j - 1] == rt[j - 1].0);
                    assert(delivered_ids(rt).contains(rt[j - 1].0));
                    lemma_rest_ids_from(d.drop_first(), ids, rt[j - 1].0);
                } else {
                    assert(r[i] == rt[i - 1]);
                    assert(r[j] == rt[j - 1]);
                }
            }
            assert forall|i: int| 0 <= i < r.len()
                implies delivered_ids(d).contains(#[trigger] r[i].0) by {
                if i == 0 {
                    assert(delivered_ids(d)[0] == d[0].0);
                } else {
                    assert(r[i] == rt[i - 1]);
                }
            }
            assert forall|i: int| 0 <= i < m.len()
                implies delivered_ids(d).contains(#[trigger] m[i].0)
                    && ids.contains(m[i].0) by {
                assert(m[i] == mt[i]);
            }
        }
    }
}

impl Correlator {
    /// Takes every delivered response whose id is in `ids`, in arrival
    /// order; the rest stay queued, in their order.
    #[verifier::loop_isolation(false)]
    pub fn take_matching(&mut self, ids: &Vec<i32>) -> (r: Vec<(i32, CommandResponse)>)
        requires
            old(self).wf(),
        ensures
            final(self).wf(),
            final(self).next_id == old(self).next_id,
            final(self).pending@ == old(self).pending@,
            r@ == spec_matching(old(self).delivered@, ids@),
            final(self).delivered@ == spec_rest(old(self).delivered@, ids@),
    {
        let ghost orig = self.delivered@;
        let mut queue: Vec<(i32, CommandResponse)> = Vec::new();
        core::mem::swap(&mut self.delivered, &mut queue);
        let mut matching: Vec<(i32, CommandResponse)> = Vec::new();
        let mut rest: Vec<(i32, CommandResponse)> = Vec::new();
        while queue.len() > 0
            invariant
                spec_matching(orig, ids@) == matching@ + spec_matching(queue@, ids@),
                spec_rest(orig, ids@) == rest@ + spec_rest(queue@, ids@),
            decreases queue@.len(),
        {
            let ghost qbefore = queue@;
            let e = queue.remove(0);
            proof {
                assert(queue@ =~= qbefore.drop_first());
            }
            if contains_id(ids, e.0) {
                let ghost mbefore = matching@;
                matching.push(e);
                proof {
                    assert(spec_matching(qbefore, ids@)
                        == seq![qbefore[0]] + spec_matching(qbefore.drop_first(), ids@));
                    assert(mbefore + (seq![qbefore[0]] + spec_matching(qbefore.drop_first(), ids@))
                        =~= (mbefore.push(qbefore[0])) + spec_matching(qbefore.drop_first(), ids@));
                }
            } else {
                let ghost rbefore = rest@;
                rest.push(e);
                proof {
                    assert(spec_rest(qbefore, ids@)
                        == seq![qbefore[0]] + spec_rest(qbefore.drop_first(), ids@));
                    assert(rbefore + (seq![qbefore[0]] + spec_rest(qbefore.drop_first(), ids@))
                        =~= (rbefore.push(qbefore[0])) + spec_rest(qbefore.drop_first(), ids@));
                }
            }
        }
        proof {
            assert(matching@ + Seq::<(i32, CommandResponse)>::empty() =~= matching@);
            assert(rest@ + Seq::<(i32, CommandResponse)>::empty() =~= rest@);
        }
        self.delivered = rest;
        proof {
            lemma_partition_distinct(orig, ids@);
            assert forall|i: int| 0 <= i < self.delivered@.len()
                implies 1 <= #[trigger] self.delivered@[i].0 < self.next_id by {
                let x = self.delivered@[i].0;
                assert(delivered_ids(orig).contains(x));
                let v = choose|k: int| 0 <= k < delivered_ids(orig).len()
                    && delivered_ids(orig)[k] == x;
                assert(orig[v].0 == x);
            }
            assert forall|i: int, j: int| 0 <= i < self.pending@.len()
                && 0 <= j < self.delivered@.len()
                implies self.pending@[i] != self.delivered@[j].0 by {
                let x = self.delivered@[j].0;
                assert(delivered_ids(orig).contains(x));
                let v = choose|k: int| 0 <= k < delivered_ids(orig).len()
                    && delivered_ids(orig)[k] == x;
                assert(orig[v].0 == x);
            }
        }
        matching
    }
}

} // verus!
