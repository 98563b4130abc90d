//! The subscription operations: subscribe, unsubscribe and update, each
//! split into a request step that issues ids, registers waiters and writes
//! the outbound frame, and a finish step that applies the server's
//! responses to the registry.
//!
//! Between the two, the caller pumps the shared transport through
//! [`KalshiWebSocket::wait_step`] until every awaited response has been
//! routed, the deadline expires, or the connection dies.  The overall
//! deadline is the caller's — ten seconds by convention — and is shared
//! across all awaited responses; when it expires the wait fails with a
//! timeout, never with a short result.

use vstd::prelude::*;
use crate::channels::{Channel, spec_parse_channel};
use crate::connection::{KalshiError, KalshiWebSocket, WsEvent, spec_control_effect};
use crate::correlator::{CommandResponse, Correlator, spec_matching, spec_rest, delivered_ids};
use crate::messages::DecodeError;
use crate::registry::{Subscription, spec_add_all, spec_remove_all};
use crate::strings::str_views;
use crate::wire::{
    spec_subscribe_cmd, spec_unsubscribe_cmd, spec_update_cmd,
    build_subscribe_cmd, build_unsubscribe_cmd, build_update_cmd,
};

verus! {

/// The confirmation a subscribe yields for one channel: the
/// server-assigned sid and the channel's wire name as the server echoed it.
#[derive(Debug, PartialEq)]
pub struct SubscribeResponse {
    pub sid: i32,
    pub channel: String,
}

/// Whether an update adds or removes market tickers.
#[derive(Debug, Clone, Copy, PartialEq, Eq, Structural)]
pub enum UpdateAction {
    AddMarkets,
    DeleteMarkets,
}

/// A wait for the responses to one issued command: the awaited command
/// ids, in issue order.
#[derive(Debug)]
pub struct CommandWait {
    pub ids: Vec<i32>,
}

/// What one step of a command wait concluded.
#[derive(Debug)]
pub enum WaitStep {
    /// Every awaited response has been routed; collect and finish.
    Ready,
    /// Not all responses are in; pump the transport again.
    Waiting,
    /// The wait is over without the responses.
    Failed(KalshiError),
}

/// Every awaited id has a routed response waiting.
pub open spec fn spec_wait_ready(c: Correlator, ids: Seq<i32>) -> bool {
    forall|k: int| 0 <= k < ids.len()
        ==> delivered_ids(c.delivered@).contains(#[trigger] ids[k])
}

/// The market tickers a subscribe stores for each confirmation: the single
/// `market_ticker` if one is given, else the `market_tickers` list, else
/// none.  When both are given, the single ticker wins, matching what the
/// command's confirmations are taken to cover.
pub fn requested_tickers(
    market_ticker: &Option<String>,
    market_tickers: &Option<Vec<String>>,
) -> (r: Vec<String>)
    ensures
        match (market_ticker, market_tickers) {
            (Some(t), _) => r@ == seq![*t],
            (None, Some(ts)) => r@ == ts@,
            (None, None) => r@ == Seq::<String>::empty(),
        },
{
    match market_ticker {
        Some(t) => {
            let mut v: Vec<String> = Vec::new();
            v.push(t.clone());
            proof {
                assert(v@ =~= seq![*t]);
            }
            v
        },
        None => match market_tickers {
            Some(ts) => crate::registry::clone_strings(ts),
            None => Vec::new(),
        },
    }
}

impl KalshiWebSocket {
    /// Issues a subscribe: allocates one command id per channel —
    /// consecutive, starting at the returned base, in the order the
    /// channels are listed, so that response `i` maps back to channel `i`
    /// by id offset — registers a waiter per id, and writes the frame for
    /// the caller to send.  An empty channel list is a complete, empty
    /// subscribe and touches nothing.  Issuing while disconnected is a
    /// transport error.
    pub fn subscribe_request(
        &mut self,
        channels: &Vec<Channel>,
        market_ticker: &Option<String>,
        market_tickers: &Option<Vec<String>>,
    ) -> (r: Result<Option<(CommandWait, String)>, KalshiError>)
        requires
            old(self).wf(),
            old(self).correlator.next_id + channels@.len() < i32::MAX,
        ensures
            final(self).wf(),
            final(self).registry == old(self).registry,
            final(self).connected == old(self).connected,
            final(self).url@ == old(self).url@,
            final(self).key_id@ == old(self).key_id@,
            channels@.len() == 0 ==> (r matches Ok(None)
                && final(self).correlator == old(self).correlator),
            channels@.len() > 0 && !old(self).connected ==> (r matches Err(e) && e is Transport)
                && final(self).correlator == old(self).correlator,
            channels@.len() > 0 && old(self).connected ==> (r matches Ok(Some((wait, frame)))
                && {
                let base = old(self).correlator.next_id as int;
                &&& wait.ids@.len() == channels@.len()
                &&& forall|i: int| 0 <= i < wait.ids@.len() ==> wait.ids@[i] == base + i
                &&& final(self).correlator.next_id == base + channels@.len()
                &&& final(self).correlator.pending@ == old(self).correlator.pending@
                    + wait.ids@
                &&& final(self).correlator.delivered@ == old(self).correlator.delivered@
                &&& frame@ == spec_subscribe_cmd(
                    base,
                    channels@,
                    match market_ticker {
                        Some(t) => Some(t@),
                        None => None,
                    },
                    match market_tickers {
                        Some(ts) => Some(str_views(ts@)),
                        None => None,
                    },
                )
            }),
    {
        if channels.len() == 0 {
            return Ok(None);
        }
        if !self.connected {
            return Err(KalshiError::Transport(String::from_str("not connected")));
        }
        let base = self.correlator.next_id;
        let mut ids: Vec<i32> = Vec::new();
        let mut k: usize = 0;
        while k < channels.len()
            invariant
                old(self).wf(),
                self.wf(),
                k <= channels@.len(),
                old(self).correlator.next_id + channels@.len() < i32::MAX,
                base == old(self).correlator.next_id,
                self.correlator.next_id == base + k,
                self.registry == old(self).registry,
                self.connected == old(self).connected,
                self.url == old(self).url,
                self.key_id == old(self).key_id,
                self.private_key == old(self).private_key,
                ids@.len() == k,
                forall|i: int| 0 <= i < k ==> ids@[i] == base + i,
                self.correlator.pending@ == old(self).correlator.pending@ + ids@,
                self.correlator.delivered@ == old(self).correlator.delivered@,
            decreases channels@.len() - k,
        {
            let ghost pend_before = self.correlator.pending@;
            let id = self.correlator.get_next_id();
            proof {
                assert forall|i: int| 0 <= i < self.correlator.pending@.len()
                    implies self.correlator.pending@[i] != id by {
                    assert(self.correlator.pending@[i] < id + 1);
                    assert(self.correlator.pending@[i] != id) by {
                        if self.correlator.pending@[i] == id {
                            assert(pend_before[i] < base + k);
                        }
                    }
                }
                if self.correlator.spec_pending(id) {
                    let w = choose|i: int| 0 <= i < self.correlator.pending@.len()
                        && self.correlator.pending@[i] == id;
                    assert(self.correlator.pending@[w] != id);
                }
                assert forall|i: int| 0 <= i < self.correlator.delivered@.len()
                    implies self.correlator.delivered@[i].0 != id by {
                    assert(self.correlator.delivered@[i].0 < base + k);
                }
                if self.correlator.spec_delivered(id) {
                    let w = choose|i: int| 0 <= i
                        < delivered_ids(self.correlator.delivered@).len()
                        && delivered_ids(self.correlator.delivered@)[i] == id;
                    assert(self.correlator.delivered@[w].0 != id);
                }
            }
            self.correlator.register(id);
            ids.push(id);
            proof {
                assert(self.correlator.pending@ =~= old(self).correlator.pending@ + ids@);
            }
            k = k + 1;
        }
        let frame = build_subscribe_cmd(base, channels, market_ticker, market_tickers);
        let wait_ids = ids;
        Ok(Some((CommandWait { ids: wait_ids }, frame)))
    }

    /// Issues an unsubscribe for the given sids: one command id, one
    /// waiter, and the frame to send.  An empty sid list is a complete,
    /// empty unsubscribe.
    pub fn unsubscribe_request(&mut self, sids: &Vec<i32>) -> (r: Result<
        Option<(CommandWait, String)>,
        KalshiError,
    >)
        requires
            old(self).wf(),
            old(self).correlator.next_id < i32::MAX,
        ensures
            final(self).wf(),
            final(self).registry == old(self).registry,
            final(self).connected == old(self).connected,
            final(self).url@ == old(self).url@,
            final(self).key_id@ == old(self).key_id@,
            sids@.len() == 0 ==> (r matches Ok(None)
                && final(self).correlator == old(self).correlator),
            sids@.len() > 0 && !old(self).connected ==> (r matches Err(e) && e is Transport)
                && final(self).correlator == old(self).correlator,
            sids@.len() > 0 && old(self).connected ==> (r matches Ok(Some((wait, frame)))
                && {
                let base = old(self).correlator.next_id;
                &&& wait.ids@ == seq![base]
                &&& final(self).correlator.next_id == base + 1
                &&& final(self).correlator.pending@ == old(self).correlator.pending@.push(base)
                &&& final(self).correlator.delivered@ == old(self).correlator.delivered@
                &&& frame@ == spec_unsubscribe_cmd(base as int, sids@)
            }),
    {
        if sids.len() == 0 {
            return Ok(None);
        }
        if !self.connected {
            return Err(KalshiError::Transport(String::from_str("not connected")));
        }
        let id = self.issue_one_id();
        let frame = build_unsubscribe_cmd(id, sids);
        let mut ids: Vec<i32> = Vec::new();
        ids.push(id);
        proof {
            assert(ids@ =~= seq![id]);
        }
        Ok(Some((CommandWait { ids }, frame)))
    }

    /// Issues an update of existing subscriptions: add or remove the given
    /// market tickers on each sid.  An empty sid list or an empty ticker
    /// list is a complete, empty update.
    pub fn update_subscription_request(
        &mut self,
        sids: &Vec<i32>,
        market_tickers: &Vec<String>,
        action: UpdateAction,
    ) -> (r: Result<Option<(CommandWait, String)>, KalshiError>)
        requires
            old(self).wf(),
            old(self).correlator.next_id < i32::MAX,
        ensures
            final(self).wf(),
            final(self).registry == old(self).registry,
            final(self).connected == old(self).connected,
            final(self).url@ == old(self).url@,
            final(self).key_id@ == old(self).key_id@,
            sids@.len() == 0 || market_tickers@.len() == 0 ==> (r matches Ok(None)
                && final(self).correlator == old(self).correlator),
            sids@.len() > 0 && market_tickers@.len() > 0 && !old(self).connected
                ==> (r matches Err(e) && e is Transport)
                && final(self).correlator == old(self).correlator,
            sids@.len() > 0 && market_tickers@.len() > 0 && old(self).connected
                ==> (r matches Ok(Some((wait, frame))) && {
                let base = old(self).correlator.next_id;
                &&& wait.ids@ == seq![base]
                &&& final(self).correlator.next_id == base + 1
                &&& final(self).correlator.pending@ == old(self).correlator.pending@.push(base)
                &&& final(self).correlator.delivered@ == old(self).correlator.delivered@
                &&& frame@ == spec_update_cmd(
                    base as int,
                    sids@,
                    str_views(market_tickers@),
                    action is AddMarkets,
                )
            }),
    {
        if sids.len() == 0 || market_tickers.len() == 0 {
            return Ok(None);
        }
        if !self.connected {
            return Err(KalshiError::Transport(String::from_str("not connected")));
        }
        let id = self.issue_one_id();
        let add = matches!(action, UpdateAction::AddMarkets);
        let frame = build_update_cmd(id, sids, market_tickers, add);
        let mut ids: Vec<i32> = Vec::new();
        ids.push(id);
        proof {
            assert(ids@ =~= seq![id]);
        }
        Ok(Some((CommandWait { ids }, frame)))
    }

    /// Allocates and registers one fresh command id.
    fn issue_one_id(&mut self) -> (id: i32)
        requires
            old(self).wf(),
            old(self).correlator.next_id < i32::MAX,
        ensures
            final(self).wf(),
            id == old(self).correlator.next_id,
            final(self).correlator.next_id == old(self).correlator.next_id + 1,
            final(self).correlator.pending@ == old(self).correlator.pending@.push(id),
            final(self).correlator.delivered@ == old(self).correlator.delivered@,
            final(self).registry == old(self).registry,
            final(self).connected == old(self).connected,
            final(self).url == old(self).url,
            final(self).key_id == old(self).key_id,
            final(self).private_key == old(self).private_key,
    {
        let id = self.correlator.get_next_id();
        proof {
            if self.correlator.spec_pending(id) {
                let w = choose|i: int| 0 <= i < self.correlator.pending@.len()
                    && self.correlator.pending@[i] == id;
                assert(1 <= self.correlator.pending@[w] < id);
            }
            if self.correlator.spec_delivered(id) {
                let w = choose|i: int| 0 <= i < delivered_ids(self.correlator.delivered@).len()
                    && delivered_ids(self.correlator.delivered@)[i] == id;
                assert(self.correlator.delivered@[w].0 < id);
                assert(delivered_ids(self.correlator.delivered@)[w]
                    == self.correlator.delivered@[w].0);
            }
        }
        self.correlator.register(id);
        id
    }

    /// Whether every awaited response has been routed.
    pub fn wait_ready(&self, wait: &CommandWait) -> (r: bool)
        ensures
            r == spec_wait_ready(self.correlator, wait.ids@),
    {
        let mut k: usize = 0;
        while k < wait.ids.len()
            invariant
                k <= wait.ids@.len(),
                forall|j: int| 0 <= j < k
                    ==> delivered_ids(self.correlator.delivered@).contains(
                    #[trigger] wait.ids@[j],
                ),
            decreases wait.ids@.len() - k,
        {
            if !self.delivered_has(wait.ids[k]) {
                return false;
            }
            k = k + 1;
        }
        true
    }

    fn delivered_has(&self, id: i32) -> (r: bool)
        ensures
            r == delivered_ids(self.correlator.delivered@).contains(id),
    {
        let mut k: usize = 0;
        while k < self.correlator.delivered.len()
            invariant
                k <= self.correlator.delivered@.len(),
                forall|j: int| 0 <= j < k ==> self.correlator.delivered@[j].0 != id,
            decreases self.correlator.delivered@.len() - k,
        {
            if self.correlator.delivered[k].0 == id {
                proof {
                    assert(delivered_ids(self.correlator.delivered@)[k as int] == id);
                }
                return true;
            }
            k = k + 1;
        }
        proof {
            if delivered_ids(self.correlator.delivered@).contains(id) {
                let w = choose|j: int| 0 <= j
                    < delivered_ids(self.correlator.delivered@).len()
                    && delivered_ids(self.correlator.delivered@)[j] == id;
                assert(self.correlator.delivered@[w].0 != id);
            }
        }
        false
    }

    /// One step of a command wait.  A frame is decoded and routed — the
    /// same single routing pass the message stream performs — and the wait
    /// is ready once every awaited id has its response.  The deadline's
    /// expiry cancels every awaited id that is still pending, so a late
    /// response finds no waiter, and fails the wait with a pure timeout
    /// error — never with a short result; responses that were already
    /// routed stay queued.  A closed transport, or a disconnected engine,
    /// fails the wait outright.
    pub fn wait_step(&mut self, wait: &CommandWait, event: WsEvent) -> (r: WaitStep)
        requires
            old(self).wf(),
        ensures
            final(self).wf(),
            Self::only_correlator_changed(*old(self), *final(self)),
            !old(self).connected ==> (r matches WaitStep::Failed(e) && e is Transport)
                && final(self).correlator == old(self).correlator,
            old(self).connected ==> match event {
                WsEvent::Frame(text) => {
                    &&& (exists|m: crate::messages::WebSocketMessage|
                        crate::messages::spec_parse_frame(text@, Ok(m))
                        && spec_control_effect(
                            old(self).correlator,
                            final(self).correlator,
                            m,
                        )) || ((exists|e: DecodeError|
                        crate::messages::spec_parse_frame(text@, Err(e)))
                        && final(self).correlator == old(self).correlator)
                    &&& (r is Ready <==> spec_wait_ready(final(self).correlator, wait.ids@))
                    &&& (r is Waiting <==> !spec_wait_ready(final(self).correlator, wait.ids@))
                },
                WsEvent::Silence => final(self).correlator == old(self).correlator
                    && (r is Ready <==> spec_wait_ready(final(self).correlator, wait.ids@))
                    && (r is Waiting <==> !spec_wait_ready(final(self).correlator, wait.ids@)),
                WsEvent::Closed => (r matches WaitStep::Failed(e) && e is Transport)
                    && final(self).correlator == old(self).correlator,
                WsEvent::DeadlineExpired => {
                    &&& r matches WaitStep::Failed(e) && e is Timeout
                    &&& final(self).correlator.next_id == old(self).correlator.next_id
                    &&& final(self).correlator.delivered@ == old(self).correlator.delivered@
                    &&& forall|k: int| 0 <= k < wait.ids@.len()
                        ==> !final(self).correlator.spec_pending(#[trigger] wait.ids@[k])
                    &&& forall|x: i32| !wait.ids@.contains(x)
                        ==> final(self).correlator.spec_pending(x)
                            == old(self).correlator.spec_pending(x)
                },
            },
    {
        if !self.connected {
            return WaitStep::Failed(
                KalshiError::Transport(String::from_str("not connected")),
            );
        }
        match event {
            WsEvent::Frame(text) => {
                match crate::messages::WebSocketMessage::parse(text.as_str()) {
                    Ok(m) => {
                        self.handle_control_message(&m);
                        proof {
                            assert(crate::messages::spec_parse_frame(text@, Ok(m)));
                        }
                    },
                    Err(e) => {
                        proof {
                            assert(crate::messages::spec_parse_frame(text@, Err(e)));
                        }
                    },
                }
                if self.wait_ready(wait) {
                    WaitStep::Ready
                } else {
                    WaitStep::Waiting
                }
            },
            WsEvent::Silence => {
                if self.wait_ready(wait) {
                    WaitStep::Ready
                } else {
                    WaitStep::Waiting
                }
            },
            WsEvent::Closed => WaitStep::Failed(
                KalshiError::Transport(String::from_str("connection closed")),
            ),
            WsEvent::DeadlineExpired => {
                let mut k: usize = 0;
                while k < wait.ids.len()
                    invariant
                        old(self).wf(),
                        self.wf(),
                        k <= wait.ids@.len(),
                        Self::only_correlator_changed(*old(self), *self),
                        self.private_key == old(self).private_key,
                        self.correlator.next_id == old(self).correlator.next_id,
                        self.correlator.delivered@ == old(self).correlator.delivered@,
                        forall|j: int| 0 <= j < k
                            ==> !self.correlator.spec_pending(#[trigger] wait.ids@[j]),
                        forall|x: i32| !wait.ids@.contains(x)
                            ==> self.correlator.spec_pending(x)
                                == old(self).correlator.spec_pending(x),
                    decreases wait.ids@.len() - k,
                {
                    let id = wait.ids[k];
                    self.correlator.cancel(id);
                    proof {
                        assert(wait.ids@.contains(wait.ids@[k as int]));
                    }
                    k = k + 1;
                }
                WaitStep::Failed(KalshiError::Timeout)
            },
        }
    }

    /// Takes every routed response this wait was for, in arrival order.
    /// Responses for other commands stay queued.
    pub fn collect_responses(&mut self, wait: &CommandWait) -> (r: Vec<(i32, CommandResponse)>)
        requires
            old(self).wf(),
        ensures
            final(self).wf(),
            Self::only_correlator_changed(*old(self), *final(self)),
            final(self).correlator.next_id == old(self).correlator.next_id,
            final(self).correlator.pending@ == old(self).correlator.pending@,
            r@ == spec_matching(old(self).correlator.delivered@, wait.ids@),
            final(self).correlator.delivered@ == spec_rest(
                old(self).correlator.delivered@,
                wait.ids@,
            ),
    {
        self.correlator.take_matching(&wait.ids)
    }
}

// --- The registry at the view level ---

/// One registry entry, reduced to plain values: sid, channel, tickers.
pub open spec fn sub_view(s: Subscription) -> (i32, Channel, Seq<Seq<char>>) {
    (s.sid, s.channel, str_views(s.market_tickers@))
}

/// The whole registry, reduced to plain values, in entry order.
pub open spec fn reg_view(entries: Seq<Subscription>) -> Seq<(i32, Channel, Seq<Seq<char>>)> {
    entries.map_values(|s: Subscription| sub_view(s))
}

/// Inserting one entry: overwrite in place if the sid exists, else append.
pub open spec fn spec_rv_insert(
    reg: Seq<(i32, Channel, Seq<Seq<char>>)>,
    e: (i32, Channel, Seq<Seq<char>>),
) -> Seq<(i32, Channel, Seq<Seq<char>>)> {
    if exists|i: int| 0 <= i < reg.len() && reg[i].0 == e.0 {
        Seq::new(reg.len(), |i: int| if reg[i].0 == e.0 {
            e
        } else {
            reg[i]
        })
    } else {
        reg.push(e)
    }
}

/// Removing the entry with a sid, keeping the rest in order.
pub open spec fn spec_rv_remove(
    reg: Seq<(i32, Channel, Seq<Seq<char>>)>,
    sid: i32,
) -> Seq<(i32, Channel, Seq<Seq<char>>)>
    decreases reg.len(),
{
    if reg.len() == 0 {
        Seq::empty()
    } else if reg[0].0 == sid {
        reg.drop_first()
    } else {
        seq![reg[0]] + spec_rv_remove(reg.drop_first(), sid)
    }
}

/// Removing each sid of a list, first to last.
pub open spec fn spec_rv_remove_all(
    reg: Seq<(i32, Channel, Seq<Seq<char>>)>,
    sids: Seq<i32>,
) -> Seq<(i32, Channel, Seq<Seq<char>>)>
    decreases sids.len(),
{
    if sids.len() == 0 {
        reg
    } else {
        spec_rv_remove_all(spec_rv_remove(reg, sids[0]), sids.drop_first())
    }
}

/// Updating the ticker list of every entry with the given sid: tickers are
/// added (each skipped if present) or removed, and entries with other sids
/// stand untouched.
pub open spec fn spec_rv_update(
    reg: Seq<(i32, Channel, Seq<Seq<char>>)>,
    sid: i32,
    tickers: Seq<Seq<char>>,
    add: bool,
) -> Seq<(i32, Channel, Seq<Seq<char>>)> {
    Seq::new(reg.len(), |i: int| if reg[i].0 == sid {
        (reg[i].0, reg[i].1, if add {
            spec_add_all(reg[i].2, tickers)
        } else {
            spec_remove_all(reg[i].2, tickers)
        })
    } else {
        reg[i]
    })
}

/// Updating each sid of a list, first to last.
pub open spec fn spec_rv_update_all(
    reg: Seq<(i32, Channel, Seq<Seq<char>>)>,
    sids: Seq<i32>,
    tickers: Seq<Seq<char>>,
    add: bool,
) -> Seq<(i32, Channel, Seq<Seq<char>>)>
    decreases sids.len(),
{
    if sids.len() == 0 {
        reg
    } else {
        spec_rv_update_all(spec_rv_update(reg, sids[0], tickers, add), sids.drop_first(), tickers, add)
    }
}

// --- What a batch of subscribe responses means ---

/// What the responses do to the registry, in order: each confirmation of a
/// recognized channel is inserted with the requested tickers, a
/// confirmation of an unrecognized channel is skipped, a plain
/// acknowledgment is skipped, and the first rejection stops the processing
/// with the registry as it stands.
pub open spec fn spec_apply_subscribed(
    reg: Seq<(i32, Channel, Seq<Seq<char>>)>,
    rs: Seq<(i32, CommandResponse)>,
    tickers: Seq<Seq<char>>,
) -> Seq<(i32, Channel, Seq<Seq<char>>)>
    decreases rs.len(),
{
    if rs.len() == 0 {
        reg
    } else {
        match rs[0].1 {
            CommandResponse::Subscribed { sid, channel } => match spec_parse_channel(channel@) {
                Some(ch) => spec_apply_subscribed(
                    spec_rv_insert(reg, (sid, ch, tickers)),
                    rs.drop_first(),
                    tickers,
                ),
                None => spec_apply_subscribed(reg, rs.drop_first(), tickers),
            },
            CommandResponse::Error { .. } => reg,
            CommandResponse::Ack { .. } => spec_apply_subscribed(reg, rs.drop_first(), tickers),
        }
    }
}

/// The first rejection among the responses, if any.
pub open spec fn spec_first_error(rs: Seq<(i32, CommandResponse)>) -> Option<CommandResponse>
    decreases rs.len(),
{
    if rs.len() == 0 {
        None
    } else if rs[0].1 is Error {
        Some(rs[0].1)
    } else {
        spec_first_error(rs.drop_first())
    }
}

/// The confirmations the caller receives, in arrival order: one per
/// `subscribed` response, recognized channel or not.
pub open spec fn spec_sub_results(rs: Seq<(i32, CommandResponse)>) -> Seq<SubscribeResponse>
    decreases rs.len(),
{
    if rs.len() == 0 {
        Seq::empty()
    } else {
        match rs[0].1 {
            CommandResponse::Subscribed { sid, channel } => seq![
                SubscribeResponse { sid, channel },
            ] + spec_sub_results(rs.drop_first()),
            _ => spec_sub_results(rs.drop_first()),
        }
    }
}

impl KalshiWebSocket {
    /// Applies the collected subscribe responses: stores each confirmed
    /// subscription with the requested tickers, and returns the
    /// confirmations in arrival order — or the server's rejection, with
    /// the confirmations that preceded it already stored.
    #[verifier::loop_isolation(false)]
    pub fn subscribe_finish(
        &mut self,
        responses: Vec<(i32, CommandResponse)>,
        tickers: &Vec<String>,
    ) -> (r: Result<Vec<SubscribeResponse>, KalshiError>)
        requires
            old(self).wf(),
        ensures
            final(self).wf(),
            final(self).correlator == old(self).correlator,
            final(self).connected == old(self).connected,
            final(self).url@ == old(self).url@,
            final(self).key_id@ == old(self).key_id@,
            reg_view(final(self).registry.entries()) == spec_apply_subscribed(
                reg_view(old(self).registry.entries()),
                responses@,
                str_views(tickers@),
            ),
            match spec_first_error(responses@) {
                Some(e) => r matches Err(ke) && e matches CommandResponse::Error { code, msg }
                    && ke == (KalshiError::Rejected { code, msg }),
                None => r matches Ok(list) && list@ == spec_sub_results(responses@),
            },
    {
        let ghost orig_rs = responses@;
        let ghost orig_reg = reg_view(old(self).registry.entries());
        let ghost tv = str_views(tickers@);
        let mut rs = responses;
        let mut result: Vec<SubscribeResponse> = Vec::new();
        while rs.len() > 0
            invariant
                self.wf(),
                self.correlator == old(self).correlator,
                self.connected == old(self).connected,
                self.url == old(self).url,
                self.key_id == old(self).key_id,
                self.private_key == old(self).private_key,
                spec_apply_subscribed(orig_reg, orig_rs, tv) == spec_apply_subscribed(
                    reg_view(self.registry.entries()),
                    rs@,
                    tv,
                ),
                spec_first_error(orig_rs) == spec_first_error(rs@),
                spec_sub_results(orig_rs) == result@ + spec_sub_results(rs@),
            decreases rs@.len(),
        {
            let ghost rs_before = rs@;
            let ghost reg_before = reg_view(self.registry.entries());
            let entry = rs.remove(0);
            proof {
                assert(rs@ =~= rs_before.drop_first());
            }
            let (_id, resp) = entry;
            match resp {
                CommandResponse::Subscribed { sid, channel } => {
                    match crate::channels::parse_channel(channel.as_str()) {
                        Some(ch) => {
                            let stored = crate::registry::clone_strings(tickers);
                            let ghost had = self.registry.spec_has(sid);
                            let ghost entries_before = self.registry.entries();
                            self.registry.insert(sid, ch, stored);
                            proof {
                                let e = (sid, ch, tv);
                                if had {
                                    let w = choose|i: int| 0 <= i < entries_before.len()
                                        && entries_before[i].sid == sid;
                                    assert(reg_before[w].0 == sid);
                                    assert forall|j: int| 0 <= j < reg_before.len()
                                        implies reg_view(self.registry.entries())[j]
                                            == spec_rv_insert(reg_before, e)[j] by {
                                        if entries_before[j].sid == sid {
                                            assert(self.registry.entries()[j]
                                                == (Subscription {
                                                sid,
                                                channel: ch,
                                                market_tickers: stored,
                                            }));
                                        } else {
                                            assert(self.registry.entries()[j]
                                                == entries_before[j]);
                                        }
                                    }
                                    assert(reg_view(self.registry.entries())
                                        =~= spec_rv_insert(reg_before, e));
                                } else {
                                    if exists|i: int| 0 <= i < reg_before.len()
                                        && reg_before[i].0 == sid {
                                        let w = choose|i: int| 0 <= i < reg_before.len()
                                            && reg_before[i].0 == sid;
                                        assert(entries_before[w].sid == sid);
                                    }
                                    assert(reg_view(self.registry.entries())
                                        =~= reg_before.push(e));
                                    assert(reg_view(self.registry.entries())
                                        == spec_rv_insert(reg_before, e));
                                }
                            }
                        },
                        None => {},
                    }
                    let ghost result_before = result@;
                    result.push(SubscribeResponse { sid, channel });
                    proof {
                        assert(result_before + (seq![
                            SubscribeResponse { sid, channel },
                        ] + spec_sub_results(rs@)) =~= result@ + spec_sub_results(rs@));
                    }
                },
                CommandResponse::Error { code, msg } => {
                    return Err(KalshiError::Rejected { code, msg });
                },
                CommandResponse::Ack { .. } => {},
            }
        }
        Ok(result)
    }

    /// Applies the unsubscribe confirmation: removes each listed sid from
    /// the registry — or reports the server's rejection, removing nothing.
    /// An unexpected confirmation message is treated as success, as the
    /// server's intent is the same.
    #[verifier::loop_isolation(false)]
    pub fn unsubscribe_finish(&mut self, sids: &Vec<i32>, response: CommandResponse) -> (r:
        Result<(), KalshiError>)
        requires
            old(self).wf(),
        ensures
            final(self).wf(),
            final(self).correlator == old(self).correlator,
            final(self).connected == old(self).connected,
            final(self).url@ == old(self).url@,
            final(self).key_id@ == old(self).key_id@,
            response matches CommandResponse::Error { code, msg } ==> r matches Err(ke)
                && ke == (KalshiError::Rejected { code, msg })
                && final(self).registry == old(self).registry,
            !(response is Error) ==> r is Ok && reg_view(final(self).registry.entries())
                == spec_rv_remove_all(reg_view(old(self).registry.entries()), sids@),
    {
        match response {
            CommandResponse::Error { code, msg } => {
                return Err(KalshiError::Rejected { code, msg });
            },
            _ => {},
        }
        let ghost orig_reg = reg_view(old(self).registry.entries());
        let mut k: usize = 0;
        proof {
            assert(sids@.skip(0) =~= sids@);
        }
        while k < sids.len()
            invariant
                self.wf(),
                k <= sids@.len(),
                self.correlator == old(self).correlator,
                self.connected == old(self).connected,
                self.url == old(self).url,
                self.key_id == old(self).key_id,
                self.private_key == old(self).private_key,
                spec_rv_remove_all(orig_reg, sids@) == spec_rv_remove_all(
                    reg_view(self.registry.entries()),
                    sids@.skip(k as int),
                ),
            decreases sids@.len() - k,
        {
            let ghost reg_before = reg_view(self.registry.entries());
            let ghost entries_before = self.registry.entries();
            let sid = sids[k];
            let ghost had = self.registry.spec_has(sid);
            self.registry.remove(sid);
            proof {
                if had {
                    let i = choose|i: int| 0 <= i < entries_before.len()
                        && entries_before[i].sid == sid
                        && self.registry.entries() == entries_before.remove(i);
                    assert(reg_view(self.registry.entries()) =~= reg_before.remove(i));
                    assert forall|j: int| 0 <= j < i implies reg_before[j].0 != sid by {
                        assert(entries_before[j].sid != entries_before[i].sid);
                        assert(reg_before[j].0 == entries_before[j].sid);
                    }
                    assert(reg_before[i].0 == sid);
                    lemma_rv_remove_at(reg_before, i, sid);
                } else {
                    assert forall|j: int| 0 <= j < reg_before.len()
                        implies reg_before[j].0 != sid by {
                        assert(reg_before[j].0 == entries_before[j].sid);
                        if entries_before[j].sid == sid {
                            assert(false);
                        }
                    }
                    lemma_rv_remove_absent(reg_before, sid);
                    assert(reg_view(self.registry.entries()) == reg_before);
                }
                assert(sids@.skip(k as int)[0] == sids@[k as int]);
                assert(sids@.skip(k as int).drop_first() =~= sids@.skip(k + 1));
            }
            k = k + 1;
        }
        proof {
            assert(sids@.skip(sids@.len() as int).len() == 0);
        }
        Ok(())
    }

    /// Applies the update confirmation: adds or removes the tickers on
    /// each listed sid (a missing sid is skipped) — or reports the
    /// server's rejection, changing nothing.  An unexpected subscription
    /// confirmation is treated as success without touching the registry.
    #[verifier::loop_isolation(false)]
    pub fn update_subscription_finish(
        &mut self,
        sids: &Vec<i32>,
        market_tickers: &Vec<String>,
        action: UpdateAction,
        response: CommandResponse,
    ) -> (r: Result<(), KalshiError>)
        requires
            old(self).wf(),
        ensures
            final(self).wf(),
            final(self).correlator == old(self).correlator,
            final(self).connected == old(self).connected,
            final(self).url@ == old(self).url@,
            final(self).key_id@ == old(self).key_id@,
            response matches CommandResponse::Error { code, msg } ==> r matches Err(ke)
                && ke == (KalshiError::Rejected { code, msg })
                && final(self).registry == old(self).registry,
            response is Subscribed ==> r is Ok && final(self).registry == old(self).registry,
            response is Ack ==> r is Ok && reg_view(final(self).registry.entries())
                == spec_rv_update_all(
                reg_view(old(self).registry.entries()),
                sids@,
                str_views(market_tickers@),
                action is AddMarkets,
            ),
    {
        match response {
            CommandResponse::Error { code, msg } => {
                return Err(KalshiError::Rejected { code, msg });
            },
            CommandResponse::Subscribed { .. } => {
                return Ok(());
            },
            CommandResponse::Ack { .. } => {},
        }
        let add = matches!(action, UpdateAction::AddMarkets);
        let ghost orig_reg = reg_view(old(self).registry.entries());
        let ghost tv = str_views(market_tickers@);
        let mut k: usize = 0;
        proof {
            assert(sids@.skip(0) =~= sids@);
        }
        while k < sids.len()
            invariant
                self.wf(),
                k <= sids@.len(),
                self.correlator == old(self).correlator,
                self.connected == old(self).connected,
                self.url == old(self).url,
                self.key_id == old(self).key_id,
                self.private_key == old(self).private_key,
                spec_rv_update_all(orig_reg, sids@, tv, add) == spec_rv_update_all(
                    reg_view(self.registry.entries()),
                    sids@.skip(k as int),
                    tv,
                    add,
                ),
            decreases sids@.len() - k,
        {
            let ghost reg_before = reg_view(self.registry.entries());
            let ghost entries_before = self.registry.entries();
            let sid = sids[k];
            if add {
                self.registry.add_tickers(sid, market_tickers);
            } else {
                self.registry.remove_tickers(sid, market_tickers);
            }
            proof {
                assert(reg_view(self.registry.entries())
                    =~= spec_rv_update(reg_before, sid, tv, add));
                assert(sids@.skip(k as int)[0] == sids@[k as int]);
                assert(sids@.skip(k as int).drop_first() =~= sids@.skip(k + 1));
            }
            k = k + 1;
        }
        proof {
            assert(sids@.skip(sids@.len() as int).len() == 0);
        }
        Ok(())
    }

    /// List all active subscriptions: a consistent point-in-time copy of
    /// the locally tracked entries, in confirmation order.
    pub fn list_subscriptions(&self) -> (r: Vec<Subscription>)
        ensures
            r@.len() == self.registry.entries().len(),
            forall|j: int| 0 <= j < r@.len()
                ==> #[trigger] r@[j].same_as(self.registry.entries()[j]),
    {
        self.registry.snapshot()
    }

    /// Get a subscription by its sid.
    pub fn get_subscription(&self, sid: i32) -> (r: Option<&Subscription>)
        requires
            self.wf(),
        ensures
            r is Some <==> self.registry.spec_has(sid),
            r matches Some(sub) ==> sub.sid == sid
                && exists|i: int| 0 <= i < self.registry.entries().len()
                    && self.registry.entries()[i] == *sub,
    {
        self.registry.get(sid)
    }
}

/// Removing a sid that sits at index `i`, with no earlier entry carrying
/// it, is removing index `i`.
proof fn lemma_rv_remove_at(reg: Seq<(i32, Channel, Seq<Seq<char>>)>, i: int, sid: i32)
    requires
        0 <= i < reg.len(),
        reg[i].0 == sid,
        forall|j: int| 0 <= j < i ==> reg[j].0 != sid,
    ensures
        spec_rv_remove(reg, sid) == reg.remove(i),
    decreases i,
{
    if i == 0 {
        assert(spec_rv_remove(reg, sid) == reg.drop_first());
        assert(reg.remove(0) =~= reg.drop_first());
    } else {
        assert(reg[0].0 != sid);
        assert forall|j: int| 0 <= j < i - 1
            implies reg.drop_first()[j].0 != sid by {
            assert(reg.drop_first()[j] == reg[j + 1]);
        }
        assert(reg.drop_first()[i - 1] == reg[i]);
        lemma_rv_remove_at(reg.drop_first(), i - 1, sid);
        assert(seq![reg[0]] + reg.drop_first().remove(i - 1) =~= reg.remove(i));
    }
}

/// Removing a sid that no entry carries changes nothing.
proof fn lemma_rv_remove_absent(reg: Seq<(i32, Channel, Seq<Seq<char>>)>, sid: i32)
    requires
        forall|j: int| 0 <= j < reg.len() ==> reg[j].0 != sid,
    ensures
        spec_rv_remove(reg, sid) == reg,
    decreases reg.len(),
{
    if reg.len() > 0 {
        assert forall|j: int| 0 <= j < reg.drop_first().len()
            implies reg.drop_first()[j].0 != sid by {
            assert(reg.drop_first()[j] == reg[j + 1]);
        }
        lemma_rv_remove_absent(reg.drop_first(), sid);
        assert(seq![reg[0]] + reg.drop_first() =~= reg);
    }
}

/// Issuing a subscribe for `n` channels yields `n` waiters whose ids map
/// one-to-one onto the channels by offset from the base id: however the
/// confirmations arrive, the `k`-th collected confirmation answers the
/// channel at index `collected[k].0 - base`, and two distinct
/// confirmations answer two distinct channels.
pub proof fn lemma_confirmations_match_channels(
    base: int,
    channels: Seq<Channel>,
    ids: Seq<i32>,
    collected: Seq<(i32, CommandResponse)>,
)
    requires
        ids.len() == channels.len(),
        forall|i: int| 0 <= i < ids.len() ==> ids[i] == base + i,
        forall|k: int| 0 <= k < collected.len()
            ==> ids.contains(#[trigger] collected[k].0),
        forall|k1: int, k2: int| 0 <= k1 < k2 < collected.len()
            ==> collected[k1].0 != collected[k2].0,
    ensures
        forall|k: int| 0 <= k < collected.len()
            ==> 0 <= #[trigger] collected[k].0 - base < channels.len(),
        forall|k1: int, k2: int| 0 <= k1 < k2 < collected.len()
            ==> #[trigger] collected[k1].0 - base != #[trigger] collected[k2].0 - base,
{
    assert forall|k: int| 0 <= k < collected.len()
        implies 0 <= #[trigger] collected[k].0 - base < channels.len() by {
        let w = choose|i: int| 0 <= i < ids.len() && ids[i] == collected[k].0;
        assert(ids[w] == base + w);
    }
}

/// Round-trip idempotence at the registry level: adding one ticker to a
/// subscription that does not yet carry it and then removing it restores
/// the registry exactly.  (A ticker already present fails the round trip:
/// the addition is a no-op and the removal deletes the pre-existing
/// entry.)
pub proof fn lemma_update_round_trip(
    reg: Seq<(i32, Channel, Seq<Seq<char>>)>,
    sid: i32,
    x: Seq<char>,
)
    requires
        forall|i: int| 0 <= i < reg.len() && #[trigger] reg[i].0 == sid
            ==> !reg[i].2.contains(x),
    ensures
        spec_rv_update_all(
            spec_rv_update_all(reg, seq![sid], seq![x], true),
            seq![sid],
            seq![x],
            false,
        ) == reg,
{
    let added = spec_rv_update(reg, sid, seq![x], true);
    let back = spec_rv_update(added, sid, seq![x], false);
    assert forall|i: int| 0 <= i < reg.len() implies back[i] == reg[i] by {
        if reg[i].0 == sid {
            crate::registry::lemma_ticker_round_trip(reg[i].2, x);
            assert(added[i] == (reg[i].0, reg[i].1, spec_add_all(reg[i].2, seq![x])));
            assert(back[i].2 == spec_remove_all(spec_add_all(reg[i].2, seq![x]), seq![x]));
        }
    }
    assert(back =~= reg);
    assert(seq![sid][0] == sid);
    assert(seq![sid].drop_first() =~= Seq::<i32>::empty());
    assert(spec_rv_update_all(added, seq![sid].drop_first(), seq![x], true) == added);
    assert(spec_rv_update_all(reg, seq![sid], seq![x], true) == added);
    assert(spec_rv_update_all(back, seq![sid].drop_first(), seq![x], false) == back);
    assert(spec_rv_update_all(added, seq![sid], seq![x], false) == back);
}

/// Once every awaited id has a routed response, collecting returns exactly
/// one response per awaited id: a subscribe issued for `n` channels yields
/// exactly `n` confirmations, however they arrived on the wire.
pub proof fn lemma_ready_wait_collects_all(c: Correlator, ids: Seq<i32>)
    requires
        c.wf(),
        ids.no_duplicates(),
        spec_wait_ready(c, ids),
    ensures
        spec_matching(c.delivered@, ids).len() == ids.len(),
{
    broadcast use vstd::set::group_set_axioms;

    let d = c.delivered@;
    let m = spec_matching(d, ids);
    let mi = delivered_ids(m);
    crate::correlator::lemma_partition_distinct(d, ids);
    assert(mi.no_duplicates()) by {
        assert forall|i: int, j: int| 0 <= i < mi.len() && 0 <= j < mi.len() && i != j
            implies mi[i] != mi[j] by {
            if i < j {
                assert(m[i].0 != m[j].0);
            } else {
                assert(m[j].0 != m[i].0);
            }
        }
    }
    assert forall|x: i32| ids.to_set().contains(x) implies mi.to_set().contains(x) by {
        assert(ids.contains(x));
        let k = choose|k: int| 0 <= k < ids.len() && ids[k] == x;
        assert(delivered_ids(d).contains(ids[k]));
        crate::correlator::lemma_matching_complete(d, ids, x);
        assert(mi.contains(x));
    }
    assert forall|x: i32| mi.to_set().contains(x) implies ids.to_set().contains(x) by {
        assert(mi.contains(x));
        let v = choose|j: int| 0 <= j < mi.len() && mi[j] == x;
        assert(m[v].0 == x);
        assert(ids.contains(m[v].0));
    }
    assert(mi.to_set() =~= ids.to_set());
    mi.unique_seq_to_set();
    ids.unique_seq_to_set();
    assert(mi.len() == m.len());
}

} // verus!
