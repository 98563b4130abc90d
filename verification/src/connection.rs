//! The connection engine: lifecycle state, the authenticated connection
//! URL, and the routing of every inbound frame.
//!
//! The engine owns no socket.  The caller opens the WebSocket at the URL
//! that [`KalshiWebSocket::connect_url`] computes, reports what the socket
//! yields as [`WsEvent`]s, and sends the frames the engine hands back.
//! Every decision — what a frame means, which waiter it resolves, what the
//! registry records — is made here and in the subscription operations.

use vstd::prelude::*;
use crate::correlator::{CommandResponse, Correlator, corr_same};
use crate::messages::{DecodeError, WebSocketMessage};
use crate::registry::Registry;
use crate::wire::spec_dec_int;
use crate::wire::fmt_i64;

verus! {

/// Defines the trading environment for the Kalshi exchange.
///
/// This enum is used to specify whether the interaction with the Kalshi API
/// should be in a demo (simulated) environment or in the live market with
/// real financial transactions.
#[derive(Debug, Clone, Copy, PartialEq, Eq, Structural)]
pub enum TradingEnvironment {
    /// The demo mode represents a simulated environment where trades do not
    /// involve real money.  Typically used for testing and practice.
    DemoMode,
    /// The live market mode is the real trading environment where all
    /// transactions involve actual financial stakes.
    ProdMode,
}

/// Why an operation failed, by kind, so that a caller can tell a server
/// rejection, a dead transport and a missing answer apart.
#[derive(Debug, PartialEq)]
pub enum KalshiError {
    /// Socket-level failure: the connection is gone or was never opened.
    Transport(String),
    /// The authentication material could not produce a signature.
    Auth(String),
    /// Caller-side misuse, rejected before any I/O.
    Validation(String),
    /// The server rejected the command, with its code and message.
    Rejected { code: i32, msg: String },
    /// No response arrived within the deadline.  Distinct from `Rejected`:
    /// the server never answered, it did not say no.
    Timeout,
}

#[verifier::external_type_specification]
#[verifier::external_body]
#[verifier::reject_recursive_types(T)]
pub struct ExPKey<T>(openssl::pkey::PKey<T>);

#[verifier::external_type_specification]
#[verifier::external_body]
pub struct ExPrivate(openssl::pkey::Private);

/// Relies on `chrono::Utc::now` and `timestamp_millis`: the current Unix
/// time in milliseconds.  The result depends on the clock, so nothing is
/// promised of it.
#[verifier::external_body]
fn now_millis() -> i64 {
    chrono::Utc::now().timestamp_millis()
}

/// Relies on openssl's `Signer` (RSA-PSS, SHA-256, digest-length salt) and
/// base64's standard engine: signs the message with the private key and
/// encodes the signature.  PSS signing draws a random salt, so nothing is
/// promised of the text; a failure in any step is `None`.
#[verifier::external_body]
fn sign_message(
    key: &openssl::pkey::PKey<openssl::pkey::Private>,
    message: &str,
) -> Option<String> {
    let mut signer = openssl::sign::Signer::new(openssl::hash::MessageDigest::sha256(), key)
        .ok()?;
    signer.set_rsa_padding(openssl::rsa::Padding::PKCS1_PSS).ok()?;
    signer.set_rsa_pss_saltlen(openssl::sign::RsaPssSaltlen::DIGEST_LENGTH).ok()?;
    signer.update(message.as_bytes()).ok()?;
    let sig = signer.sign_to_vec().ok()?;
    Some(base64::Engine::encode(&base64::engine::general_purpose::STANDARD, sig))
}

/// The WebSocket endpoint of each trading environment.
pub open spec fn spec_ws_url(env: TradingEnvironment) -> Seq<char> {
    match env {
        TradingEnvironment::DemoMode => "wss://demo-api.kalshi.co/trade-api/ws/v2"@,
        TradingEnvironment::ProdMode => "wss://api.elections.kalshi.com/trade-api/ws/v2"@,
    }
}

/// The text that is signed at connect time.
pub open spec fn spec_auth_message(ts: int) -> Seq<char> {
    spec_dec_int(ts) + "GET/trade-api/ws/v2"@
}

/// The authenticated connection URL.
pub open spec fn spec_auth_url(
    base: Seq<char>,
    key_id: Seq<char>,
    ts: int,
    sig: Seq<char>,
) -> Seq<char> {
    base + "?api-key="@ + key_id + "&timestamp="@ + spec_dec_int(ts) + "&signature="@ + sig
}

fn auth_message(ts: i64) -> (s: String)
    ensures
        s@ == spec_auth_message(ts as int),
{
    let mut s = fmt_i64(ts);
    s.append("GET/trade-api/ws/v2");
    s
}

fn build_auth_url(base: &str, key_id: &str, ts: i64, sig: &str) -> (s: String)
    ensures
        s@ == spec_auth_url(base@, key_id@, ts as int, sig@),
{
    let mut s = String::new();
    s.append(base);
    s.append("?api-key=");
    s.append(key_id);
    s.append("&timestamp=");
    let num = fmt_i64(ts);
    s.append(num.as_str());
    s.append("&signature=");
    s.append(sig);
    proof {
        assert(s@ =~= spec_auth_url(base@, key_id@, ts as int, sig@));
    }
    s
}

/// What one poll of the transport reported.
#[derive(Debug)]
pub enum WsEvent {
    /// A text frame arrived.
    Frame(String),
    /// Nothing arrived within the transport's short poll window.
    Silence,
    /// The socket closed or failed.
    Closed,
    /// The caller's deadline for the running wait expired.
    DeadlineExpired,
}

/// What the message stream does after one event.
#[derive(Debug)]
pub enum StreamStep {
    /// Yield this message to the consumer.
    Item(WebSocketMessage),
    /// Nothing to yield yet; poll the transport again.
    Pending,
    /// The stream is over; the connection is gone.
    End,
}

/// What routing one control message does to the correlator: a `subscribed`
/// confirmation resolves the oldest pending command (the wire carries no
/// command id on this path), an acknowledgment resolves the command whose id
/// it echoes, an error resolves the oldest pending command (the error path
/// carries no id either), and a data message leaves the correlator alone.
///
/// Routing by "oldest pending" is a documented fallback for a known
/// ambiguity of the wire protocol: correlation is only exact while at most
/// one multi-response command is outstanding at a time.
pub open spec fn spec_control_effect(
    pre: Correlator,
    post: Correlator,
    m: WebSocketMessage,
) -> bool {
    match m {
        WebSocketMessage::Subscribed(sm) => spec_oldest_route(
            pre,
            post,
            CommandResponse::Subscribed { sid: sm.sid, channel: sm.channel },
        ),
        WebSocketMessage::Ack(om) => spec_id_route(
            pre,
            post,
            om.sid,
            CommandResponse::Ack { id: om.sid },
        ),
        WebSocketMessage::Error(em) => spec_oldest_route(
            pre,
            post,
            CommandResponse::Error { code: em.code, msg: em.msg },
        ),
        _ => corr_same(post, pre),
    }
}

/// Resolving the oldest pending command, if one exists.
pub open spec fn spec_oldest_route(
    pre: Correlator,
    post: Correlator,
    resp: CommandResponse,
) -> bool {
    if pre.pending@.len() == 0 {
        corr_same(post, pre)
    } else {
        &&& post.next_id == pre.next_id
        &&& post.pending@ == pre.pending@.drop_first()
        &&& post.delivered@ == pre.delivered@.push((pre.pending@[0], resp))
    }
}

/// Resolving the pending command with a known id, if it exists.
pub open spec fn spec_id_route(
    pre: Correlator,
    post: Correlator,
    id: i32,
    resp: CommandResponse,
) -> bool {
    if !pre.pending@.contains(id) {
        corr_same(post, pre)
    } else {
        &&& post.next_id == pre.next_id
        &&& exists|i: int| 0 <= i < pre.pending@.len() && pre.pending@[i] == id
            && post.pending@ == pre.pending@.remove(i)
        &&& post.delivered@ == pre.delivered@.push((id, resp))
    }
}

/// WebSocket client engine for real-time Kalshi market data and trading
/// events.
///
/// Holds the credentials, the lifecycle state, the subscription registry
/// and the command correlator.  One instance per connection: ids and
/// subscriptions are never shared between connections.
pub struct KalshiWebSocket {
    pub url: String,
    pub key_id: String,
    pub private_key: openssl::pkey::PKey<openssl::pkey::Private>,
    pub connected: bool,
    pub correlator: Correlator,
    pub registry: Registry,
}

impl KalshiWebSocket {
    /// Well-formed: the correlator's and the registry's own invariants.
    pub open spec fn wf(&self) -> bool {
        self.correlator.wf() && self.registry.wf()
    }

    /// Everything but the correlator is unchanged.
    pub open spec fn only_correlator_changed(pre: Self, post: Self) -> bool {
        &&& post.url@ == pre.url@
        &&& post.key_id@ == pre.key_id@
        &&& post.connected == pre.connected
        &&& post.registry == pre.registry
    }

    /// Creates a new client engine without establishing a connection.  The
    /// id counter starts at 1, and no subscription and no pending command
    /// exist.
    pub fn new(
        trading_env: TradingEnvironment,
        key_id: &str,
        private_key: openssl::pkey::PKey<openssl::pkey::Private>,
    ) -> (r: KalshiWebSocket)
        ensures
            r.wf(),
            r.url@ == spec_ws_url(trading_env),
            r.key_id@ == key_id@,
            !r.connected,
            r.correlator.next_id == 1,
            r.correlator.pending@ == Seq::<i32>::empty(),
            r.correlator.delivered@ == Seq::<(i32, CommandResponse)>::empty(),
            r.registry.entries() == Seq::<crate::registry::Subscription>::empty(),
    {
        let url = match trading_env {
            TradingEnvironment::DemoMode => String::from_str(
                "wss://demo-api.kalshi.co/trade-api/ws/v2",
            ),
            TradingEnvironment::ProdMode => String::from_str(
                "wss://api.elections.kalshi.com/trade-api/ws/v2",
            ),
        };
        KalshiWebSocket {
            url,
            key_id: String::from_str(key_id),
            private_key,
            connected: false,
            correlator: Correlator::new(),
            registry: Registry::new(),
        }
    }

    /// The authenticated URL to open the WebSocket at: the endpoint with
    /// the key id, a current timestamp and a signature over
    /// `{timestamp}GET/trade-api/ws/v2`.  Fails only if signing fails.
    pub fn connect_url(&self) -> (r: Result<String, KalshiError>)
        ensures
            r matches Ok(u) ==> exists|ts: int, sig: Seq<char>|
                u@ == spec_auth_url(self.url@, self.key_id@, ts, sig),
            r matches Err(e) ==> e is Auth,
    {
        let ts = now_millis();
        let msg = auth_message(ts);
        match sign_message(&self.private_key, msg.as_str()) {
            Some(sig) => {
                let u = build_auth_url(
                    self.url.as_str(),
                    self.key_id.as_str(),
                    ts,
                    sig.as_str(),
                );
                proof {
                    assert(u@ == spec_auth_url(self.url@, self.key_id@, ts as int, sig@));
                }
                Ok(u)
            },
            None => Err(KalshiError::Auth(String::from_str("signing failed"))),
        }
    }

    /// Records that the caller's handshake succeeded and the socket is
    /// open.  Called only then: a failed handshake must leave the engine
    /// reporting not connected.
    pub fn connection_opened(&mut self)
        requires
            old(self).wf(),
        ensures
            final(self).wf(),
            final(self).connected,
            final(self).url@ == old(self).url@,
            final(self).key_id@ == old(self).key_id@,
            final(self).correlator == old(self).correlator,
            final(self).registry == old(self).registry,
    {
        self.connected = true;
    }

    /// Returns `true` while the connection is open.  No I/O.
    pub fn is_connected(&self) -> (r: bool)
        ensures
            r == self.connected,
    {
        self.connected
    }

    /// Tears the connection state down: not connected, no subscription
    /// survives, and every pending command and undelivered response is
    /// dropped, so no wait can resolve against the dead connection.  The
    /// caller closes the socket itself.  The id counter is kept: ids are
    /// never reused, even across reconnects of the same engine.
    pub fn disconnect(&mut self)
        requires
            old(self).wf(),
        ensures
            final(self).wf(),
            !final(self).connected,
            final(self).registry.entries() == Seq::<crate::registry::Subscription>::empty(),
            final(self).correlator.pending@ == Seq::<i32>::empty(),
            final(self).correlator.delivered@ == Seq::<(i32, CommandResponse)>::empty(),
            final(self).correlator.next_id == old(self).correlator.next_id,
            final(self).url@ == old(self).url@,
            final(self).key_id@ == old(self).key_id@,
    {
        self.connected = false;
        self.registry.clear();
        self.correlator.clear();
    }

    /// Hands a decoded control message to the correlator; data messages
    /// pass through untouched.  Unmatched responses are dropped silently:
    /// they are late responses after a timeout, or server behaviour outside
    /// the tracked set, and must not tear anything down.
    pub fn handle_control_message(&mut self, msg: &WebSocketMessage)
        requires
            old(self).wf(),
        ensures
            final(self).wf(),
            Self::only_correlator_changed(*old(self), *final(self)),
            spec_control_effect(old(self).correlator, final(self).correlator, *msg),
    {
        match msg {
            WebSocketMessage::Subscribed(sm) => {
                if self.correlator.pending.len() > 0 {
                    let target = self.correlator.pending[0];
                    proof {
                        assert(self.correlator.pending@[0] == target);
                        assert(self.correlator.pending@.contains(target));
                    }
                    let resp = CommandResponse::of_subscribed(sm);
                    let _ = self.correlator.route(target, resp);
                    proof {
                        Self::lemma_route_head(old(self).correlator, self.correlator, target);
                    }
                }
            },
            WebSocketMessage::Ack(om) => {
                let resp = CommandResponse::Ack { id: om.sid };
                let _ = self.correlator.route(om.sid, resp);
            },
            WebSocketMessage::Error(em) => {
                if self.correlator.pending.len() > 0 {
                    let target = self.correlator.pending[0];
                    proof {
                        assert(self.correlator.pending@[0] == target);
                        assert(self.correlator.pending@.contains(target));
                    }
                    let resp = CommandResponse::of_error(em);
                    let _ = self.correlator.route(target, resp);
                    proof {
                        Self::lemma_route_head(old(self).correlator, self.correlator, target);
                    }
                }
            },
            _ => {},
        }
    }

    /// Routing the head of the pending list removes exactly the head.
    proof fn lemma_route_head(pre: Correlator, post: Correlator, target: i32)
        requires
            pre.wf(),
            pre.pending@.len() > 0,
            target == pre.pending@[0],
            exists|i: int| 0 <= i < pre.pending@.len() && pre.pending@[i] == target
                && post.pending@ == pre.pending@.remove(i),
        ensures
            post.pending@ == pre.pending@.drop_first(),
    {
        let i = choose|i: int| 0 <= i < pre.pending@.len() && pre.pending@[i] == target
            && post.pending@ == pre.pending@.remove(i);
        if i != 0 {
            assert(pre.pending@[0] != pre.pending@[i]);
        }
        assert(post.pending@ == pre.pending@.remove(0));
        assert(pre.pending@.remove(0) =~= pre.pending@.drop_first());
    }

    /// One step of the message stream.  Every text frame is decoded; a
    /// decodable frame is routed to the correlator exactly once and then
    /// yielded to the consumer — control frames too, by design.  A frame
    /// that fails to decode is dropped and the stream keeps going; only
    /// the transport's end, or a disconnected engine, ends the stream.
    pub fn stream_step(&mut self, event: WsEvent) -> (r: StreamStep)
        requires
            old(self).wf(),
        ensures
            final(self).wf(),
            Self::only_correlator_changed(*old(self), *final(self)),
            !old(self).connected ==> r is End
                && final(self).correlator == old(self).correlator,
            old(self).connected ==> match event {
                WsEvent::Frame(text) => {
                    &&& (r matches StreamStep::Item(m)
                        ==> crate::messages::spec_parse_frame(text@, Ok(m))
                        && spec_control_effect(old(self).correlator, final(self).correlator, m))
                    &&& (r is Pending ==> (exists|e: DecodeError|
                        crate::messages::spec_parse_frame(text@, Err(e)))
                        && final(self).correlator == old(self).correlator)
                    &&& !(r is End)
                },
                WsEvent::Closed => r is End
                    && final(self).correlator == old(self).correlator,
                _ => r is Pending && final(self).correlator == old(self).correlator,
            },
    {
        if !self.connected {
            return StreamStep::End;
        }
        match event {
            WsEvent::Frame(text) => {
                match WebSocketMessage::parse(text.as_str()) {
                    Ok(m) => {
                        self.handle_control_message(&m);
                        StreamStep::Item(m)
                    },
                    Err(e) => {
                        proof {
                            assert(crate::messages::spec_parse_frame(text@, Err(e)));
                        }
                        StreamStep::Pending
                    },
                }
            },
            WsEvent::Closed => StreamStep::End,
            _ => StreamStep::Pending,
        }
    }
}

} // verus!
