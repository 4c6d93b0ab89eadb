use vstd::prelude::*;

use vstd::string::StringExecFns;

use crate::shutdown::ShutdownSignal;
use crate::util::{dec_digits, u16_to_dec};

verus! {

/// Login data carried as out-of-band metadata on every connection-open
/// request: user name, password, and the numeric role/port value. Fixed at
/// startup, immutable for the life of the process.
pub struct Credentials {
    pub username: String,
    pub password: String,
    pub broadcast_port: u16,
}

/// One self-contained, independently decodable unit of compressed audio,
/// transmitted as one binary message. Order between chunks matters and is
/// preserved end to end.
pub struct EncodedChunk {
    pub data: Vec<u8>,
}

impl View for EncodedChunk {
    type V = Seq<u8>;

    open spec fn view(&self) -> Seq<u8> {
        self.data@
    }
}

/// The connection-open request of one attempt: where to connect, and the
/// three credential fields the transport carries as protocol-level metadata.
pub struct HandshakeRequest {
    pub host: String,
    pub port: u16,
    pub authority: String,
    pub username: String,
    pub password: String,
    pub port_field: String,
}

/// Builds the open request for one connection attempt: the authority is
/// `host:port`, and the three out-of-band fields carry exactly the stored
/// user name, the stored password, and the role/port value in decimal.
pub fn build_handshake_request(host: &String, port: u16, creds: &Credentials) -> (r:
    HandshakeRequest)
    ensures
        r.host@ == host@,
        r.port == port,
        r.authority@ == host@ + ":"@ + dec_digits(port as nat),
        r.username@ == creds.username@,
        r.password@ == creds.password@,
        r.port_field@ == dec_digits(creds.broadcast_port as nat),
{
    let port_text = u16_to_dec(port);
    let authority = host.clone().concat(":").concat(port_text.as_str());
    HandshakeRequest {
        host: host.clone(),
        port,
        authority,
        username: creds.username.clone(),
        password: creds.password.clone(),
        port_field: u16_to_dec(creds.broadcast_port),
    }
}

/// The states of one network session: created per connection attempt,
/// destroyed on handshake failure, send error or peer close.
#[derive(Clone, Copy, PartialEq, Eq, Structural, Debug)]
pub enum SessionState {
    Disconnected,
    Connecting,
    Authenticated,
    Streaming,
    Closed,
}

/// What the sending loop should do at its next iteration boundary.
#[derive(Clone, Copy, PartialEq, Eq, Structural, Debug)]
pub enum SenderStep {
    /// No session is alive: attempt a connection now.
    Connect,
    /// The attempt failed: wait the fixed backoff interval, then poll again.
    Backoff,
    /// The session is streaming: block on the chunk channel for the next
    /// chunk (the loop's one legitimate blocking wait).
    AwaitChunk,
    /// Shutdown was requested, or the session was closed for good.
    Stop,
}

/// How long the sender waits after a failed attempt before the next one, in
/// milliseconds. Retries are infinite — paced by this interval, bounded only
/// by the shutdown signal, never by an attempt counter.
pub const BACKOFF_MS: u64 = 50;

/// The mathematical state of the sender: session state, how many attempts
/// were begun and how many failed, the chunk handed over for transmission
/// but not yet acknowledged, and everything transmitted so far, in order.
pub ghost struct SenderModel {
    pub state: SessionState,
    pub attempts: int,
    pub failures: int,
    pub in_flight: Option<Seq<u8>>,
    pub sent: Seq<Seq<u8>>,
}

/// The network delivery stage (§ network sender): one session at a time; an
/// authenticated handshake opens it, chunks stream over it in arrival order,
/// and any failure destroys it — after which the sender backs off a fixed
/// interval and retries, without limit, until shutdown.
///
/// Chunks produced while no session is alive are not replayed: delivery is
/// best effort across reconnects.
pub struct NetworkSender {
    state: SessionState,
    attempts: u64,
    failures: u64,
    in_flight: Option<EncodedChunk>,
    sent_count: u64,
    sent: Ghost<Seq<Seq<u8>>>,
}

impl View for NetworkSender {
    type V = SenderModel;

    closed spec fn view(&self) -> SenderModel {
        SenderModel {
            state: self.state,
            attempts: self.attempts as int,
            failures: self.failures as int,
            in_flight: match self.in_flight {
                Some(c) => Some(c@),
                None => None,
            },
            sent: self.sent@,
        }
    }
}

impl NetworkSender {
    /// A fresh sender: no session, no attempts yet, nothing in flight,
    /// nothing transmitted.
    pub fn new() -> (r: NetworkSender)
        ensures
            r@ == (SenderModel {
                state: SessionState::Disconnected,
                attempts: 0,
                failures: 0,
                in_flight: None,
                sent: Seq::<Seq<u8>>::empty(),
            }),
    {
        NetworkSender {
            state: SessionState::Disconnected,
            attempts: 0,
            failures: 0,
            in_flight: None,
            sent_count: 0,
            sent: Ghost(Seq::empty()),
        }
    }

    /// The number of chunks transmitted so far; mirrors the transmitted
    /// record.
    pub closed spec fn spec_sent_count(&self) -> int {
        self.sent_count as int
    }

    /// The exec fields agree with the model: the counter counts exactly the
    /// transmitted record.
    pub open spec fn counts_ok(&self) -> bool {
        self.spec_sent_count() == self@.sent.len()
    }

    /// The current session state.
    pub fn state(&self) -> (s: SessionState)
        ensures
            s == self@.state,
    {
        self.state
    }

    /// How many connection attempts have been begun.
    pub fn attempts(&self) -> (n: u64)
        ensures
            n == self@.attempts,
    {
        self.attempts
    }

    /// How many handshake attempts have failed.
    pub fn failures(&self) -> (n: u64)
        ensures
            n == self@.failures,
    {
        self.failures
    }

    /// How many chunks have been transmitted.
    pub fn sent_count(&self) -> (n: u64)
        ensures
            n == self.spec_sent_count(),
    {
        self.sent_count
    }

    /// Opens one connection attempt, counting it.
    pub fn begin_attempt(&mut self)
        requires
            old(self)@.state == SessionState::Disconnected,
            old(self)@.attempts < u64::MAX,
        ensures
            final(self)@ == (SenderModel {
                state: SessionState::Connecting,
                attempts: old(self)@.attempts + 1,
                ..old(self)@
            }),
            final(self).spec_sent_count() == old(self).spec_sent_count(),
    {
        self.state = SessionState::Connecting;
        self.attempts = self.attempts + 1;
    }

    /// The transport accepted the open request that carried the credentials.
    /// No separate application-level acknowledgment is needed: the session
    /// is authenticated.
    pub fn handshake_accepted(&mut self)
        requires
            old(self)@.state == SessionState::Connecting,
        ensures
            final(self)@ == (SenderModel { state: SessionState::Authenticated, ..old(self)@ }),
            final(self).spec_sent_count() == old(self).spec_sent_count(),
    {
        self.state = SessionState::Authenticated;
    }

    /// The transport refused the attempt: the would-be session is destroyed,
    /// the failure is counted, and the one thing to do is wait the fixed
    /// backoff interval — then retry, unconditionally.
    pub fn handshake_failed(&mut self) -> (r: SenderStep)
        requires
            old(self)@.state == SessionState::Connecting,
            old(self)@.failures < u64::MAX,
        ensures
            final(self)@ == (SenderModel {
                state: SessionState::Disconnected,
                failures: old(self)@.failures + 1,
                ..old(self)@
            }),
            final(self).spec_sent_count() == old(self).spec_sent_count(),
            r == SenderStep::Backoff,
    {
        self.state = SessionState::Disconnected;
        self.failures = self.failures + 1;
        SenderStep::Backoff
    }

    /// An authenticated session begins streaming: from here on the sender
    /// reads chunks from its channel and transmits each in turn.
    pub fn start_streaming(&mut self)
        requires
            old(self)@.state == SessionState::Authenticated,
        ensures
            final(self)@ == (SenderModel { state: SessionState::Streaming, ..old(self)@ }),
            final(self).spec_sent_count() == old(self).spec_sent_count(),
    {
        self.state = SessionState::Streaming;
    }

    /// Takes the next chunk off the channel for transmission. Exactly this
    /// chunk is now in flight.
    pub fn accept_chunk(&mut self, c: EncodedChunk)
        requires
            old(self)@.state == SessionState::Streaming,
            old(self)@.in_flight is None,
        ensures
            final(self)@ == (SenderModel { in_flight: Some(c@), ..old(self)@ }),
            final(self).spec_sent_count() == old(self).spec_sent_count(),
    {
        self.in_flight = Some(c);
    }

    /// The transport accepted the in-flight chunk: it is appended to the
    /// transmitted record, in order, and the session keeps streaming.
    pub fn send_succeeded(&mut self)
        requires
            old(self)@.state == SessionState::Streaming,
            old(self)@.in_flight is Some,
            old(self).spec_sent_count() < u64::MAX,
        ensures
            final(self)@ == (SenderModel {
                in_flight: None,
                sent: old(self)@.sent.push(old(self)@.in_flight->0),
                ..old(self)@
            }),
            final(self).spec_sent_count() == old(self).spec_sent_count() + 1,
            old(self).counts_ok() ==> final(self).counts_ok(),
    {
        let ghost c = self@.in_flight->0;
        self.in_flight = None;
        self.sent_count = self.sent_count + 1;
        proof {
            self.sent@ = self.sent@.push(c);
        }
    }

    /// The transport refused the in-flight chunk: the session is destroyed
    /// at once and the chunk is dropped — best effort, no replay. The next
    /// poll will reconnect.
    pub fn send_failed(&mut self)
        requires
            old(self)@.state == SessionState::Streaming,
            old(self)@.in_flight is Some,
        ensures
            final(self)@ == (SenderModel {
                state: SessionState::Disconnected,
                in_flight: None,
                ..old(self)@
            }),
            final(self).spec_sent_count() == old(self).spec_sent_count(),
    {
        self.state = SessionState::Disconnected;
        self.in_flight = None;
    }

    /// The peer closed the connection between sends: the session is
    /// destroyed; the next poll will reconnect.
    pub fn peer_closed(&mut self)
        requires
            old(self)@.state == SessionState::Streaming,
            old(self)@.in_flight is None,
        ensures
            final(self)@ == (SenderModel { state: SessionState::Disconnected, ..old(self)@ }),
            final(self).spec_sent_count() == old(self).spec_sent_count(),
    {
        self.state = SessionState::Disconnected;
    }

    /// Closes the sender for good; used on the shutdown path.
    pub fn close(&mut self)
        ensures
            final(self)@ == (SenderModel { state: SessionState::Closed, ..old(self)@ }),
            final(self).spec_sent_count() == old(self).spec_sent_count(),
    {
        self.state = SessionState::Closed;
    }

    /// One whole connection attempt, with the transport's verdict handed in:
    /// begin, carry the credentials, and either reach Streaming or fall back
    /// to Disconnected with the fixed backoff.
    pub fn connect_cycle(&mut self, accepted: bool) -> (r: SenderStep)
        requires
            old(self)@.state == SessionState::Disconnected,
            old(self)@.attempts < u64::MAX,
            old(self)@.failures < u64::MAX,
        ensures
            final(self)@ == spec_connect_cycle(old(self)@, accepted),
            final(self).spec_sent_count() == old(self).spec_sent_count(),
            accepted ==> r == SenderStep::AwaitChunk,
            !accepted ==> r == SenderStep::Backoff,
    {
        self.begin_attempt();
        if accepted {
            self.handshake_accepted();
            self.start_streaming();
            SenderStep::AwaitChunk
        } else {
            self.handshake_failed()
        }
    }

    /// The loop decision at an iteration boundary: stop on shutdown or a
    /// closed sender; connect when no session is alive; otherwise wait on
    /// the chunk channel.
    pub fn poll(&self, sig: &ShutdownSignal) -> (r: SenderStep)
        ensures
            r == spec_sender_poll(self@, *sig),
    {
        if sig.is_set() {
            SenderStep::Stop
        } else {
            match self.state {
                SessionState::Disconnected => SenderStep::Connect,
                SessionState::Connecting => SenderStep::Connect,
                SessionState::Authenticated => SenderStep::AwaitChunk,
                SessionState::Streaming => SenderStep::AwaitChunk,
                SessionState::Closed => SenderStep::Stop,
            }
        }
    }
}

/// The sending loop's decision as a function of its state: it stops exactly
/// when shutdown has been requested or the sender was closed.
pub open spec fn spec_sender_poll(m: SenderModel, sig: ShutdownSignal) -> SenderStep {
    if sig.is_fired() {
        SenderStep::Stop
    } else {
        match m.state {
            SessionState::Disconnected => SenderStep::Connect,
            SessionState::Connecting => SenderStep::Connect,
            SessionState::Authenticated => SenderStep::AwaitChunk,
            SessionState::Streaming => SenderStep::AwaitChunk,
            SessionState::Closed => SenderStep::Stop,
        }
    }
}

/// One connection attempt against a transport that answers `accepted`: the
/// attempt is counted; acceptance reaches Streaming, refusal falls back to
/// Disconnected and counts the failure.
pub open spec fn spec_connect_cycle(m: SenderModel, accepted: bool) -> SenderModel {
    if accepted {
        SenderModel { state: SessionState::Streaming, attempts: m.attempts + 1, ..m }
    } else {
        SenderModel {
            state: SessionState::Disconnected,
            attempts: m.attempts + 1,
            failures: m.failures + 1,
            ..m
        }
    }
}

/// Connection attempts repeated against the transport's successive verdicts,
/// for as long as no session is alive — the retry loop, one verdict per
/// attempt.
pub open spec fn spec_run_attempts(m: SenderModel, outcomes: Seq<bool>) -> SenderModel
    decreases outcomes.len(),
{
    if outcomes.len() == 0 || m.state != SessionState::Disconnected {
        m
    } else {
        spec_run_attempts(spec_connect_cycle(m, outcomes[0]), outcomes.skip(1))
    }
}

/// Law: against a transport that refuses the first `k` handshakes and
/// accepts the next, the sender makes exactly `k` failed attempts — each
/// answered with the fixed backoff before the next — and reaches Streaming
/// on attempt `k + 1`; what it has transmitted is untouched throughout.
pub proof fn lemma_retry_until_accepted(m: SenderModel, outcomes: Seq<bool>, k: int)
    requires
        m.state == SessionState::Disconnected,
        outcomes.len() == k + 1,
        0 <= k,
        forall|i: int| 0 <= i < k ==> !outcomes[i],
        outcomes[k],
    ensures
        spec_run_attempts(m, outcomes) == (SenderModel {
            state: SessionState::Streaming,
            attempts: m.attempts + k + 1,
            failures: m.failures + k,
            ..m
        }),
    decreases k,
{
    if k == 0 {
        assert(outcomes[0]);
        assert(spec_connect_cycle(m, true).state == SessionState::Streaming);
        assert(spec_run_attempts(spec_connect_cycle(m, true), outcomes.skip(1))
            == spec_connect_cycle(m, true));
    } else {
        assert(!outcomes[0]);
        let m1 = spec_connect_cycle(m, false);
        assert(m1.state == SessionState::Disconnected);
        lemma_retry_until_accepted(m1, outcomes.skip(1), k - 1);
        assert(outcomes.skip(1)[k - 1] == outcomes[k]);
    }
}

/// A run of chunks transmitted over a living session, in arrival order.
pub open spec fn spec_stream_chunks(m: SenderModel, chunks: Seq<Seq<u8>>) -> SenderModel
    decreases chunks.len(),
{
    if chunks.len() == 0 {
        m
    } else {
        spec_stream_chunks(SenderModel { sent: m.sent.push(chunks[0]), ..m }, chunks.skip(1))
    }
}

/// Law: while the session lives, every chunk taken off the channel is
/// transmitted, in arrival order — no chunk produced after a successful
/// connection is lost.
pub proof fn lemma_streaming_sends_everything(m: SenderModel, chunks: Seq<Seq<u8>>)
    requires
        m.state == SessionState::Streaming,
    ensures
        spec_stream_chunks(m, chunks) == (SenderModel { sent: m.sent + chunks, ..m }),
    decreases chunks.len(),
{
    if chunks.len() == 0 {
        assert(m.sent + chunks =~= m.sent);
        assert(spec_stream_chunks(m, chunks) == (SenderModel { sent: m.sent + chunks, ..m }));
    } else {
        let m1 = SenderModel { sent: m.sent.push(chunks[0]), ..m };
        lemma_streaming_sends_everything(m1, chunks.skip(1));
        assert(m.sent.push(chunks[0]) + chunks.skip(1) =~= m.sent + chunks);
    }
}

} // verus!
