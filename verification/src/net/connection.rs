//! The resilient connection: a stable send/receive/flush surface over an
//! inner transport that may be swapped out behind a lock during
//! reconnection.
//!
//! The shared cells (the transport slot and the state flag) and the
//! detached reconnection task live with the unverified I/O shell; what is
//! verified here is every decision they are driven by: whether an operation
//! may touch the transport at all, how a transport verdict maps to the
//! caller-visible outcome, when the state flips and a reconnection task must
//! be scheduled, and how the state machine walks Connected → Disconnected →
//! Reconnecting → Connected.

use vstd::prelude::*;

use crate::codec::Op;
use crate::error::NatsError;
use crate::net::connection_inner::NatsConnectionInner;
use crate::net::NatsClientTlsConfig;

verus! {

/// State of the raw connection. Exactly one holds at any instant.
#[derive(Clone, Copy, Debug, PartialEq, Eq, Structural)]
pub enum NatsConnectionState {
    Connected,
    Reconnecting,
    Disconnected,
}

/// What the inner transport reported for one operation (a send, a flush or
/// a receive), as handed back by the I/O shell.
#[derive(Clone, Debug, PartialEq, Eq)]
pub enum InnerVerdict {
    /// A send was accepted into the write buffer.
    Accepted,
    /// The transport cannot make progress yet; try again later.
    NotReady,
    /// A receive yielded a frame.
    Frame(Op),
    /// The peer closed the stream in an orderly way.
    StreamEnd,
    /// The socket reported a disconnection condition.
    Disconnected,
    /// Any other transport failure, not recovered automatically.
    Failed(NatsError),
}

/// What the caller of a connection operation sees.
#[derive(Clone, Debug, PartialEq, Eq)]
pub enum OpOutcome {
    /// The send was accepted.
    Accepted,
    /// Not ready: try again later. A disconnection is invisible to the
    /// caller except as a transient run of these.
    NotReady,
    /// A received frame.
    Frame(Op),
    /// The orderly end of the stream.
    StreamEnd,
    /// A failure passed through untouched.
    Failed(NatsError),
}

/// Whether an operation may touch the transport: only when the non-blocking
/// read of the shared state succeeded and showed `Connected`, and the
/// non-blocking exclusive acquisition of the transport slot succeeded.
pub open spec fn operation_admitted_spec(
    state_read: Option<NatsConnectionState>,
    lock_acquired: bool,
) -> bool {
    state_read == Some(NatsConnectionState::Connected) && lock_acquired
}

/// The admission test in front of every public operation. `state_read` is
/// the result of the non-blocking read of the shared state (`None` when
/// contended); `lock_acquired` is whether the non-blocking exclusive
/// acquisition of the transport slot succeeded. When this returns false the
/// operation answers `NotReady` at once and must not touch the transport.
pub fn operation_admitted(state_read: Option<NatsConnectionState>, lock_acquired: bool) -> (r:
    bool)
    ensures
        r == operation_admitted_spec(state_read, lock_acquired),
{
    match state_read {
        Some(s) => s == NatsConnectionState::Connected && lock_acquired,
        None => false,
    }
}

/// Represents a connection to a server of the protocol: the long-lived
/// identity (address, optional hostname, security configuration), the
/// transport slot and the state flag. The I/O shell shares `inner` and
/// `state` with any in-flight reconnection task.
pub struct NatsConnection {
    /// Indicates if the connection is made over an encrypted channel.
    pub is_tls: bool,
    /// The server's resolved address, kept for reconnection.
    pub addr: String,
    /// Host name of the server; present only when encryption is requested
    /// (the handshake verifies the server's identity against it).
    pub host: Option<String>,
    /// First frame sent by the server, captured during an encrypted
    /// connection because it had to be parsed before the upgrade.
    pub first_op: Option<Op>,
    /// Security configuration for client verification, shared by value
    /// across reconnections.
    pub tls_config: NatsClientTlsConfig,
    /// The swappable inner transport.
    pub inner: NatsConnectionInner,
    /// Current state of the connection.
    pub state: NatsConnectionState,
}

/// The connection's long-lived identity and its transport are untouched:
/// only the state flag may differ.
pub open spec fn same_but_state(a: NatsConnection, b: NatsConnection) -> bool {
    &&& a.is_tls == b.is_tls
    &&& a.addr == b.addr
    &&& a.host == b.host
    &&& a.first_op == b.first_op
    &&& a.tls_config == b.tls_config
    &&& a.inner == b.inner
}

/// What the caller sees for each transport verdict. A disconnection
/// surfaces as `NotReady` while recovery is scheduled; everything else is
/// handed to the caller unchanged.
pub open spec fn verdict_outcome(v: InnerVerdict) -> OpOutcome {
    match v {
        InnerVerdict::Accepted => OpOutcome::Accepted,
        InnerVerdict::NotReady => OpOutcome::NotReady,
        InnerVerdict::Frame(op) => OpOutcome::Frame(op),
        InnerVerdict::StreamEnd => OpOutcome::StreamEnd,
        InnerVerdict::Disconnected => OpOutcome::NotReady,
        InnerVerdict::Failed(e) => OpOutcome::Failed(e),
    }
}

/// How absorbing one transport verdict relates the connection before the
/// call, the connection after it, the caller-visible outcome and whether a
/// detached reconnection task must be scheduled.
pub open spec fn absorb_step(
    before: NatsConnection,
    v: InnerVerdict,
    after: NatsConnection,
    out: OpOutcome,
    schedule_reconnect: bool,
) -> bool {
    &&& same_but_state(before, after)
    &&& out == verdict_outcome(v)
    &&& if v is Disconnected {
        after.state == NatsConnectionState::Disconnected && schedule_reconnect
    } else {
        after.state == before.state && !schedule_reconnect
    }
}

/// The reconnection task has begun: the connection is reconnecting.
pub open spec fn reconnect_begin_step(before: NatsConnection, after: NatsConnection) -> bool {
    &&& same_but_state(before, after)
    &&& after.state == NatsConnectionState::Reconnecting
}

/// The reconnection task succeeded: the transport slot holds the new
/// transport, wholesale, and the connection is connected again.
pub open spec fn reconnect_complete_step(
    before: NatsConnection,
    new_inner: NatsConnectionInner,
    after: NatsConnection,
) -> bool {
    &&& after.is_tls == before.is_tls
    &&& after.addr == before.addr
    &&& after.host == before.host
    &&& after.first_op == before.first_op
    &&& after.tls_config == before.tls_config
    &&& after.inner == new_inner
    &&& after.state == NatsConnectionState::Connected
}

impl NatsConnection {
    /// A plaintext connection the moment its initial connect succeeded:
    /// state starts at `Connected`, no hostname, no pending first frame, an
    /// empty security configuration.
    pub fn established(addr: String, inner: NatsConnectionInner) -> (r: Self)
        ensures
            r.state == NatsConnectionState::Connected,
            !r.is_tls,
            r.addr == addr,
            r.host is None,
            r.first_op is None,
            r.tls_config.identity_view() is None,
            r.tls_config.root_cert_view() is None,
            r.inner == inner,
    {
        NatsConnection {
            is_tls: false,
            addr,
            host: None,
            first_op: None,
            tls_config: NatsClientTlsConfig::default(),
            inner,
            state: NatsConnectionState::Connected,
        }
    }

    /// An encrypted connection the moment its connect-and-upgrade succeeded.
    /// The pending first frame is retrieved from the transport here — its
    /// one retrieval — and kept on the connection for whoever needs the
    /// server's greeting.
    pub fn established_tls(
        host: String,
        addr: String,
        tls_config: NatsClientTlsConfig,
        inner: NatsConnectionInner,
    ) -> (r: Self)
        ensures
            r.state == NatsConnectionState::Connected,
            r.is_tls,
            r.addr == addr,
            r.host == Some(host),
            r.tls_config == tls_config,
            r.first_op == inner.pending_first_op(),
            r.inner.pending_first_op() is None,
            r.inner.framed() == inner.framed(),
    {
        let mut inner = inner;
        let first = inner.first_op();
        NatsConnection {
            is_tls: true,
            addr,
            host: Some(host),
            first_op: first,
            tls_config,
            inner,
            state: NatsConnectionState::Connected,
        }
    }

    /// Absorb the transport's verdict for one operation that was admitted.
    /// This is the one compound action shared by send, flush and receive: on
    /// a disconnection the state flips to `Disconnected`, the call answers
    /// `NotReady`, and a detached reconnection task must be scheduled (the
    /// returned flag); any other verdict leaves the connection untouched and
    /// is handed to the caller as is.
    pub fn absorb_verdict(&mut self, verdict: InnerVerdict) -> (r: (OpOutcome, bool))
        ensures
            absorb_step(*old(self), verdict, *final(self), r.0, r.1),
    {
        match verdict {
            InnerVerdict::Disconnected => {
                self.state = NatsConnectionState::Disconnected;
                (OpOutcome::NotReady, true)
            },
            InnerVerdict::Accepted => (OpOutcome::Accepted, false),
            InnerVerdict::NotReady => (OpOutcome::NotReady, false),
            InnerVerdict::Frame(op) => (OpOutcome::Frame(op), false),
            InnerVerdict::StreamEnd => (OpOutcome::StreamEnd, false),
            InnerVerdict::Failed(e) => (OpOutcome::Failed(e), false),
        }
    }

    /// The reconnection task begins: mark the connection as reconnecting.
    /// Operations keep reporting "not ready" meanwhile.
    pub fn reconnect_begin(&mut self)
        requires
            old(self).state == NatsConnectionState::Disconnected,
        ensures
            reconnect_begin_step(*old(self), *final(self)),
    {
        self.state = NatsConnectionState::Reconnecting;
    }

    /// The reconnection task succeeded: publish the freshly built transport
    /// into the shared slot — replaced wholesale, never mutated in place —
    /// and mark the connection as connected again. A failed task never calls
    /// this; the connection then simply stays as it is.
    pub fn reconnect_complete(&mut self, new_inner: NatsConnectionInner)
        requires
            old(self).state == NatsConnectionState::Reconnecting,
        ensures
            reconnect_complete_step(*old(self), new_inner, *final(self)),
    {
        self.inner = new_inner;
        self.state = NatsConnectionState::Connected;
    }
}

/// Law (state machine): starting from `Connected`, a disconnection verdict
/// moves the connection to `Disconnected` with a reconnection task
/// scheduled and "not ready" reported; the task's start moves it to
/// `Reconnecting`; the task's success moves it back to `Connected` with the
/// transport slot replaced by the new transport.
pub proof fn lemma_disconnect_then_recover(
    c0: NatsConnection,
    v: InnerVerdict,
    c1: NatsConnection,
    out: OpOutcome,
    scheduled: bool,
    c2: NatsConnection,
    new_inner: NatsConnectionInner,
    c3: NatsConnection,
)
    requires
        c0.state == NatsConnectionState::Connected,
        v is Disconnected,
        absorb_step(c0, v, c1, out, scheduled),
        reconnect_begin_step(c1, c2),
        reconnect_complete_step(c2, new_inner, c3),
    ensures
        c1.state == NatsConnectionState::Disconnected,
        scheduled,
        out is NotReady,
        c1.inner == c0.inner,
        c2.state == NatsConnectionState::Reconnecting,
        c3.state == NatsConnectionState::Connected,
        c3.inner == new_inner,
{
}

/// Law: an operation issued while the state is not `Connected` — or while
/// the state read itself is contended — is never admitted to the transport:
/// it reports "not ready" immediately and can have no side effect on the
/// transport.
pub proof fn lemma_not_connected_never_admitted(
    state_read: Option<NatsConnectionState>,
    lock_acquired: bool,
)
    requires
        state_read != Some(NatsConnectionState::Connected),
    ensures
        !operation_admitted_spec(state_read, lock_acquired),
{
}

/// Law (concurrency): of two operations issued concurrently against the
/// same connection, at most one can hold the transport slot, and only the
/// holder can be admitted — the other reports "not ready" without touching
/// the transport. Both therefore terminate: one proceeds, one backs off.
pub proof fn lemma_concurrent_operations_one_proceeds(
    state_read_a: Option<NatsConnectionState>,
    lock_a: bool,
    state_read_b: Option<NatsConnectionState>,
    lock_b: bool,
)
    requires
        !(lock_a && lock_b),
    ensures
        !(operation_admitted_spec(state_read_a, lock_a) && operation_admitted_spec(
            state_read_b,
            lock_b,
        )),
{
}

} // verus!
