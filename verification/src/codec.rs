//! Streaming frame codec: locates frame boundaries in an unbounded byte
//! buffer and appends outgoing serializations.
//!
//! The only framing signal this layer understands is the first ASCII space or
//! horizontal tab in the unscanned region of the buffer: everything to its
//! left is the verb span, handed to an external parser. The codec remembers
//! how far it has scanned (`next_index`) so that a call without new bytes
//! never re-examines the prefix it already covered.

use vstd::prelude::*;
use vstd::slice::{slice_subrange, slice_to_vec};

use crate::buffer::{bytes_mut_as_slice, bytes_view};
use crate::error::NatsError;

verus! {

/// One complete protocol frame as exchanged over the wire. The frame is
/// produced and consumed by the external parser; this layer treats it as an
/// atomic value and never inspects the payload.
#[derive(Clone, Debug, PartialEq, Eq)]
pub struct Op {
    pub payload: Vec<u8>,
}

/// The external frame parser's verdict on a verb span.
#[derive(Clone, Debug, PartialEq, Eq)]
pub enum ParseOutcome {
    /// The span was decoded into a frame.
    Parsed(Op),
    /// The span is a prefix of a frame: more trailing bytes are needed.
    Incomplete,
    /// The span is structurally malformed.
    Malformed,
}

/// Whether a byte is the protocol's verb/argument delimiter: an ASCII space
/// or a horizontal tab.
pub open spec fn is_delim(b: u8) -> bool {
    b == 32u8 || b == 9u8
}

/// The position of the first delimiter byte of `s` at or after `from`.
pub open spec fn find_delim_from(s: Seq<u8>, from: int) -> Option<int>
    decreases s.len() - from,
{
    if from < 0 || from >= s.len() {
        None
    } else if is_delim(s[from]) {
        Some(from)
    } else {
        find_delim_from(s, from + 1)
    }
}

/// How one decode call reacts to the parser's verdict `v` on the verb span:
/// the cursor moves from `cur0` to `cur1` and the call returns `r`.
///
/// A parsed frame is handed through with the cursor untouched (consumption of
/// the matched bytes is the parser's responsibility). An incomplete span is
/// treated like a missing delimiter: the cursor records that the whole buffer
/// of length `len` was examined. A malformed span invalidates the current
/// buffer interpretation entirely, so the cursor resets to the start.
pub open spec fn verdict_transition(
    v: ParseOutcome,
    cur0: int,
    len: int,
    cur1: int,
    r: Result<Option<Op>, NatsError>,
) -> bool {
    match v {
        ParseOutcome::Parsed(op) => r == Ok::<Option<Op>, NatsError>(Some(op)) && cur1 == cur0,
        ParseOutcome::Incomplete => r == Ok::<Option<Op>, NatsError>(None) && cur1 == len,
        ParseOutcome::Malformed => r == Err::<Option<Op>, NatsError>(NatsError::CommandError)
            && cur1 == 0,
    }
}

/// Scanning an interval free of delimiters does not change what is found.
proof fn lemma_find_delim_from_skip(s: Seq<u8>, a: int, b: int)
    requires
        0 <= a <= b <= s.len(),
        forall|j: int| a <= j < b ==> !is_delim(s[j]),
    ensures
        find_delim_from(s, a) == find_delim_from(s, b),
    decreases b - a,
{
    if a < b {
        lemma_find_delim_from_skip(s, a + 1, b);
    }
}

/// What a scan result means, byte by byte: a hit is the first delimiter at or
/// after `from`; a miss means the region holds no delimiter at all.
pub proof fn lemma_find_delim_from_spec(s: Seq<u8>, from: int)
    requires
        0 <= from <= s.len(),
    ensures
        match find_delim_from(s, from) {
            Some(k) => from <= k < s.len() && is_delim(s[k]) && forall|j: int|
                from <= j < k ==> !is_delim(s[j]),
            None => forall|j: int| from <= j < s.len() ==> !is_delim(s[j]),
        },
    decreases s.len() - from,
{
    if from < s.len() && !is_delim(s[from]) {
        lemma_find_delim_from_spec(s, from + 1);
    }
}

/// Stateful scanner over a byte buffer. `next_index` is the scan cursor:
/// the prefix of the buffer already examined for a delimiter.
#[derive(Clone, Copy, Debug, PartialEq, Eq, Hash, PartialOrd, Ord, Structural)]
pub struct OpCodec {
    next_index: usize,
}

impl Default for OpCodec {
    /// A fresh codec scans from the start of its buffer.
    fn default() -> (r: Self)
        ensures
            r.cursor() == 0,
    {
        OpCodec { next_index: 0 }
    }
}

impl OpCodec {
    /// The scan cursor as contracts speak of it: the prefix of the buffer
    /// already examined for a delimiter.
    pub closed spec fn cursor(&self) -> int {
        self.next_index as int
    }

    pub fn new() -> (r: Self)
        ensures
            r.cursor() == 0,
    {
        OpCodec { next_index: 0 }
    }

    /// The scan cursor: how much of the buffer has already been examined.
    pub fn scan_cursor(&self) -> (r: usize)
        ensures
            r == self.cursor(),
    {
        self.next_index
    }

    /// Scan `buf[next_index..]` for the first delimiter byte and, if one is
    /// found, hand the verb span `buf[..k]` to `parse`, the external frame
    /// parser.
    ///
    /// With no delimiter the cursor records that the whole buffer was
    /// examined and the call reports "no frame yet" (`Ok(None)`); the same
    /// call without new bytes is then answered the same way without
    /// re-scanning. With a delimiter, the parser's verdict decides the result
    /// as `verdict_transition` states.
    pub fn decode<F: Fn(Vec<u8>) -> ParseOutcome>(
        &mut self,
        buf: &bytes::BytesMut,
        parse: F,
    ) -> (r: Result<Option<Op>, NatsError>)
        requires
            old(self).cursor() <= bytes_view(*buf).len(),
            forall|s: Vec<u8>| #[trigger] call_requires(parse, (s,)),
        ensures
            final(self).cursor() <= bytes_view(*buf).len(),
            match find_delim_from(bytes_view(*buf), old(self).cursor()) {
                None => r == Ok::<Option<Op>, NatsError>(None) && final(self).cursor()
                    == bytes_view(*buf).len(),
                Some(k) => exists|sp: Vec<u8>, v: ParseOutcome|
                    sp@ == bytes_view(*buf).subrange(0, k) && #[trigger] call_ensures(
                        parse,
                        (sp,),
                        v,
                    ) && verdict_transition(
                        v,
                        old(self).cursor(),
                        bytes_view(*buf).len() as int,
                        final(self).cursor(),
                        r,
                    ),
            },
    {
        let s: &[u8] = bytes_mut_as_slice(buf);
        let len: usize = s.len();
        let start: usize = self.next_index;
        let mut i: usize = start;
        while i < len && !(s[i] == 32u8 || s[i] == 9u8)
            invariant
                start <= i <= len,
                len == s@.len(),
                s@ == bytes_view(*buf),
                forall|j: int| start <= j < i ==> !is_delim(s@[j]),
            decreases len - i,
        {
            i = i + 1;
        }
        proof {
            lemma_find_delim_from_skip(bytes_view(*buf), start as int, i as int);
        }
        if i < len {
            // Delimiter found at offset i: the verb span is everything to its left.
            let span: Vec<u8> = slice_to_vec(slice_subrange(s, 0, i));
            let verdict = parse(span);
            match verdict {
                ParseOutcome::Parsed(op) => Ok(Some(op)),
                ParseOutcome::Incomplete => {
                    self.next_index = len;
                    Ok(None)
                },
                ParseOutcome::Malformed => {
                    self.next_index = 0;
                    Err(NatsError::CommandError)
                },
            }
        } else {
            // No delimiter yet: remember that every byte was examined.
            self.next_index = len;
            Ok(None)
        }
    }

    /// Serialize `item` through the external serializer and append the bytes
    /// to `dst`, growing it as needed. The append happens only after the full
    /// serialization succeeded: a serialization failure leaves `dst`
    /// untouched and is passed through.
    pub fn encode<F: Fn(Op) -> Result<Vec<u8>, NatsError>>(
        &mut self,
        item: Op,
        dst: &mut bytes::BytesMut,
        serialize: F,
    ) -> (r: Result<(), NatsError>)
        requires
            forall|o: Op| #[trigger] call_requires(serialize, (o,)),
        ensures
            *final(self) == *old(self),
            match r {
                Ok(_) => exists|b: Vec<u8>|
                    #[trigger] call_ensures(serialize, (item, ), Ok(b)) && bytes_view(*final(dst))
                        == bytes_view(*old(dst)) + b@,
                Err(e) => bytes_view(*final(dst)) == bytes_view(*old(dst)) && call_ensures(
                    serialize,
                    (item, ),
                    Err::<Vec<u8>, NatsError>(e),
                ),
            },
    {
        let ghost item0 = item;
        match serialize(item) {
            Ok(b) => {
                crate::buffer::bytes_mut_extend(dst, b.as_slice());
                Ok(())
            },
            Err(e) => Err(e),
        }
    }
}

/// Law: a decode that finds no delimiter is idempotent. It leaves the cursor
/// at the buffer's end, and a further scan from there — the same buffer with
/// no new bytes appended — examines nothing and finds no frame again.
pub proof fn lemma_no_delimiter_idempotent(buf: Seq<u8>, cursor: int)
    requires
        0 <= cursor <= buf.len(),
        find_delim_from(buf, cursor) is None,
    ensures
        find_delim_from(buf, buf.len() as int) is None,
{
}

/// Law: after new bytes arrive, a scan resumed at the old buffer length
/// examines only the appended region; the delimiter is never re-derived from
/// bytes the cursor already covered.
pub proof fn lemma_append_scans_only_new_bytes(s: Seq<u8>, t: Seq<u8>, i: int)
    requires
        0 <= i <= t.len(),
    ensures
        find_delim_from(s + t, s.len() + i) == match find_delim_from(t, i) {
            Some(k) => Some(s.len() + k),
            None => None::<int>,
        },
    decreases t.len() - i,
{
    assert((s + t).len() == s.len() + t.len());
    if i < t.len() {
        assert((s + t)[s.len() + i] == t[i]);
        if !is_delim(t[i]) {
            lemma_append_scans_only_new_bytes(s, t, i + 1);
        }
    }
}

/// Law: a structural parse error resets the scan cursor to the start of the
/// buffer and surfaces as a command error, so the next decode scans from the
/// beginning of whatever buffer is passed in.
pub proof fn lemma_parse_error_resets_scan(
    v: ParseOutcome,
    cur0: int,
    len: int,
    cur1: int,
    r: Result<Option<Op>, NatsError>,
)
    requires
        v is Malformed,
        verdict_transition(v, cur0, len, cur1, r),
    ensures
        cur1 == 0,
        r == Err::<Option<Op>, NatsError>(NatsError::CommandError),
{
}

/// Law (round trip): decode undoes encode. Take a buffer holding a frame's
/// serialization — say what `encode` appended for a frame `f` — with its
/// delimiter at `k`, and a parser whose verdict depends on the verb span
/// alone and which recognizes `buf[..k]` as exactly `f`. Then what `decode`
/// ensured of its call pins the result completely: the very frame `f` comes
/// back and the scan cursor is left where it was.
pub proof fn lemma_round_trip<F: Fn(Vec<u8>) -> ParseOutcome>(
    parse: F,
    buf: Seq<u8>,
    cur0: int,
    k: int,
    f: Op,
    cur1: int,
    r: Result<Option<Op>, NatsError>,
)
    requires
        find_delim_from(buf, cur0) == Some(k),
        // the parser recognizes the verb span as f, and as nothing else
        forall|sp: Vec<u8>, v: ParseOutcome|
            sp@ == buf.subrange(0, k) && #[trigger] call_ensures(parse, (sp,), v)
                ==> v == ParseOutcome::Parsed(f),
        // what decode's contract ensures of a call on this buffer
        exists|sp: Vec<u8>, v: ParseOutcome|
            sp@ == buf.subrange(0, k) && #[trigger] call_ensures(parse, (sp,), v)
                && verdict_transition(v, cur0, buf.len() as int, cur1, r),
    ensures
        r == Ok::<Option<Op>, NatsError>(Some(f)),
        cur1 == cur0,
{
    let (sp, v) = choose|sp: Vec<u8>, v: ParseOutcome|
        sp@ == buf.subrange(0, k) && #[trigger] call_ensures(parse, (sp,), v)
            && verdict_transition(v, cur0, buf.len() as int, cur1, r);
    assert(v == ParseOutcome::Parsed(f));
}

} // verus!
