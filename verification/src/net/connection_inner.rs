//! The dual-mode transport variant: a framed stream that starts as plaintext
//! and can be upgraded once to an encrypted channel.
//!
//! Verus verifies the part of a framed stream that is logic: the codec and
//! the two byte buffers (bytes received but not yet parsed into a frame, and
//! bytes queued to send but not yet flushed). The raw socket and its
//! readiness live with the unverified I/O shell, which pairs each variant
//! with the matching socket type.

use vstd::prelude::*;

use crate::buffer::{bytes_mut_new, bytes_view};
use crate::codec::{Op, OpCodec};

verus! {

/// The logic half of a framed stream: the scan codec and the unconsumed
/// read/write byte buffers that must survive a transport upgrade.
pub struct FramedBuffers {
    pub codec: OpCodec,
    pub read_buf: bytes::BytesMut,
    pub write_buf: bytes::BytesMut,
}

impl FramedBuffers {
    /// Fresh framed state: nothing buffered, scan starting at the beginning.
    pub fn new() -> (r: Self)
        ensures
            r.codec.cursor() == 0,
            bytes_view(r.read_buf) == Seq::<u8>::empty(),
            bytes_view(r.write_buf) == Seq::<u8>::empty(),
    {
        FramedBuffers { codec: OpCodec::new(), read_buf: bytes_mut_new(), write_buf: bytes_mut_new() }
    }
}

/// Inner transport variant over a plaintext stream and an encrypted stream.
/// The encrypted variant additionally carries the frame captured from the
/// plaintext phase right before the upgrade — the server's greeting, read
/// from the wire but not yet handed to the application.
pub enum NatsConnectionInner {
    /// Plaintext framed connection.
    Tcp(FramedBuffers),
    /// Encrypted framed connection, with the possibly-pending first frame.
    Tls(FramedBuffers, Option<Op>),
}

impl NatsConnectionInner {
    /// The framed state of whichever variant this is.
    pub open spec fn framed(&self) -> FramedBuffers {
        match *self {
            NatsConnectionInner::Tcp(fb) => fb,
            NatsConnectionInner::Tls(fb, _) => fb,
        }
    }

    /// Bytes received but not yet parsed into a frame.
    pub open spec fn read_view(&self) -> Seq<u8> {
        bytes_view(self.framed().read_buf)
    }

    /// Bytes queued to send but not yet flushed.
    pub open spec fn write_view(&self) -> Seq<u8> {
        bytes_view(self.framed().write_buf)
    }

    /// The frame captured just before the upgrade, if it is still pending.
    pub open spec fn pending_first_op(&self) -> Option<Op> {
        match *self {
            NatsConnectionInner::Tcp(_) => None,
            NatsConnectionInner::Tls(_, op) => op,
        }
    }

    /// A fresh plaintext transport around a newly connected socket: empty
    /// buffers, scan starting at the beginning.
    pub fn fresh_tcp() -> (r: Self)
        ensures
            r is Tcp,
            r.read_view() == Seq::<u8>::empty(),
            r.write_view() == Seq::<u8>::empty(),
            r.framed().codec.cursor() == 0,
            r.pending_first_op() is None,
    {
        NatsConnectionInner::Tcp(FramedBuffers::new())
    }

    /// What the one-time plaintext-to-encrypted upgrade does: the unconsumed
    /// read and write buffers are transplanted wholesale into the encrypted
    /// variant — no byte is lost or duplicated — while the codec is replaced
    /// by a fresh one (scan state never survives a socket swap) and the
    /// frame captured before the upgrade is attached as the pending first
    /// frame. A transport that is already encrypted is left untouched.
    pub open spec fn upgrade_step(before: Self, first: Option<Op>, after: Self) -> bool {
        if before is Tcp {
            &&& after is Tls
            &&& after.read_view() == before.read_view()
            &&& after.write_view() == before.write_view()
            &&& after.framed().codec.cursor() == 0
            &&& after.pending_first_op() == first
        } else {
            after == before
        }
    }

    /// The one-time plaintext-to-encrypted upgrade, on the logic side; see
    /// `upgrade_step` for the full account.
    pub fn upgrade_to_tls(self, first: Option<Op>) -> (r: Self)
        ensures
            Self::upgrade_step(self, first, r),
    {
        match self {
            NatsConnectionInner::Tcp(fb) => NatsConnectionInner::Tls(
                FramedBuffers {
                    codec: OpCodec::new(),
                    read_buf: fb.read_buf,
                    write_buf: fb.write_buf,
                },
                first,
            ),
            inner => inner,
        }
    }

    /// How one retrieval of the pending first frame relates the transport
    /// before the call, the transport after it, and the returned frame.
    pub open spec fn first_op_step(
        before: NatsConnectionInner,
        after: NatsConnectionInner,
        r: Option<Op>,
    ) -> bool {
        &&& r == before.pending_first_op()
        &&& after.pending_first_op() is None
        &&& after.framed() == before.framed()
        &&& (after is Tls <==> before is Tls)
    }

    /// Retrieve the pending first frame. It was consumed from the wire
    /// before the application had a chance to receive it through the normal
    /// path, and it is handed out exactly once: this call clears it.
    pub fn first_op(&mut self) -> (r: Option<Op>)
        ensures
            Self::first_op_step(*old(self), *final(self), r),
    {
        match self {
            NatsConnectionInner::Tls(_, op) => op.take(),
            NatsConnectionInner::Tcp(_) => None,
        }
    }
}

/// Law: the pending first frame is retrievable exactly once. The first
/// retrieval yields whatever was captured at the upgrade; any later
/// retrieval yields nothing; the framed buffers are untouched either way.
pub proof fn lemma_first_op_exactly_once(
    s0: NatsConnectionInner,
    s1: NatsConnectionInner,
    s2: NatsConnectionInner,
    r1: Option<Op>,
    r2: Option<Op>,
)
    requires
        NatsConnectionInner::first_op_step(s0, s1, r1),
        NatsConnectionInner::first_op_step(s1, s2, r2),
    ensures
        r1 == s0.pending_first_op(),
        r2 is None,
        s2.framed() == s0.framed(),
{
}

/// Law (upgrade integrity): across a plaintext-to-encrypted upgrade no
/// buffered byte is lost or duplicated — bytes received but not yet parsed,
/// and bytes queued but not yet flushed, are carried over unchanged — and the
/// frame captured before the upgrade is exactly what the first retrieval of
/// the pending first frame returns.
pub proof fn lemma_upgrade_preserves_bytes(
    before: NatsConnectionInner,
    first: Option<Op>,
    upgraded: NatsConnectionInner,
    after_take: NatsConnectionInner,
    taken: Option<Op>,
)
    requires
        before is Tcp,
        NatsConnectionInner::upgrade_step(before, first, upgraded),
        NatsConnectionInner::first_op_step(upgraded, after_take, taken),
    ensures
        upgraded.read_view() == before.read_view(),
        upgraded.write_view() == before.write_view(),
        taken == first,
        after_take.read_view() == before.read_view(),
        after_take.write_view() == before.write_view(),
{
}

} // verus!
