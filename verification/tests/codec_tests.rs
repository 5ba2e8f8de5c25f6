use std::cell::Cell;

use bytes::BytesMut;
use nitox::codec::{Op, OpCodec, ParseOutcome};
use nitox::error::NatsError;

fn op(payload: &[u8]) -> Op {
    Op { payload: payload.to_vec() }
}

#[test]
fn no_delimiter_reports_no_frame_and_is_idempotent() {
    let buf = BytesMut::from(&b"PINGPONG"[..]);
    let mut codec = OpCodec::new();
    let calls = Cell::new(0usize);

    let r = codec.decode(&buf, |_sp: Vec<u8>| {
        calls.set(calls.get() + 1);
        ParseOutcome::Malformed
    });
    assert_eq!(r, Ok(None));
    assert_eq!(codec.scan_cursor(), buf.len());

    // Same buffer, no new bytes: same answer, no re-scan of the covered
    // prefix (the cursor does not move) and the parser is never consulted.
    let r2 = codec.decode(&buf, |_sp: Vec<u8>| {
        calls.set(calls.get() + 1);
        ParseOutcome::Malformed
    });
    assert_eq!(r2, Ok(None));
    assert_eq!(codec.scan_cursor(), buf.len());
    assert_eq!(calls.get(), 0);
}

#[test]
fn decode_hands_verb_span_to_parser() {
    let buf = BytesMut::from(&b"CMD arg\n"[..]);
    let mut codec = OpCodec::new();

    let r = codec.decode(&buf, |sp: Vec<u8>| {
        if sp == b"CMD".to_vec() {
            ParseOutcome::Parsed(Op { payload: sp })
        } else {
            ParseOutcome::Malformed
        }
    });
    assert_eq!(r, Ok(Some(op(b"CMD"))));
    // Consumption of the matched bytes is the parser's business: the scan
    // cursor is left where it was.
    assert_eq!(codec.scan_cursor(), 0);
}

#[test]
fn partial_then_complete_does_not_rescan() {
    let mut buf = BytesMut::from(&b"CM"[..]);
    let mut codec = OpCodec::new();
    let calls = Cell::new(0usize);

    // No delimiter within the available bytes yet.
    let r = codec.decode(&buf, |_sp: Vec<u8>| {
        calls.set(calls.get() + 1);
        ParseOutcome::Malformed
    });
    assert_eq!(r, Ok(None));
    assert_eq!(codec.scan_cursor(), 2);
    assert_eq!(calls.get(), 0);

    // The rest arrives; the scan resumes at the cursor, not at the start.
    buf.extend_from_slice(b"D arg\n");
    let r2 = codec.decode(&buf, |sp: Vec<u8>| {
        if sp == b"CMD".to_vec() {
            ParseOutcome::Parsed(Op { payload: sp })
        } else {
            ParseOutcome::Malformed
        }
    });
    assert_eq!(r2, Ok(Some(op(b"CMD"))));
}

#[test]
fn incomplete_verdict_is_treated_like_missing_delimiter() {
    let buf = BytesMut::from(&b"IN FO"[..]);
    let mut codec = OpCodec::new();

    let r = codec.decode(&buf, |_sp: Vec<u8>| ParseOutcome::Incomplete);
    assert_eq!(r, Ok(None));
    assert_eq!(codec.scan_cursor(), buf.len());
}

#[test]
fn parse_error_resets_cursor_to_start() {
    let buf = BytesMut::from(&b"BAD! X"[..]);
    let mut codec = OpCodec::new();

    let r = codec.decode(&buf, |_sp: Vec<u8>| ParseOutcome::Malformed);
    assert_eq!(r, Err(NatsError::CommandError));
    assert_eq!(codec.scan_cursor(), 0);

    // The next call starts scanning from the beginning of whatever buffer
    // is passed in: the first verb span of the new buffer is seen whole.
    let recovered = BytesMut::from(&b"A B"[..]);
    let r2 = codec.decode(&recovered, |sp: Vec<u8>| {
        if sp == b"A".to_vec() {
            ParseOutcome::Parsed(Op { payload: sp })
        } else {
            ParseOutcome::Malformed
        }
    });
    assert_eq!(r2, Ok(Some(op(b"A"))));
}

#[test]
fn encode_appends_after_prior_content_and_grows() {
    // Deliberately no spare capacity: encode must grow the buffer to fit.
    let mut dst = BytesMut::with_capacity(0);
    dst.extend_from_slice(b"PRE-");
    let mut codec = OpCodec::new();

    let r = codec.encode(op(b"PING"), &mut dst, |f: Op| {
        let mut bytes = f.payload;
        bytes.push(b' ');
        Ok(bytes)
    });
    assert_eq!(r, Ok(()));
    assert_eq!(&dst[..], b"PRE-PING ");
}

#[test]
fn encode_failure_leaves_buffer_untouched() {
    let mut dst = BytesMut::from(&b"KEEP"[..]);
    let mut codec = OpCodec::new();

    let r = codec.encode(op(b"PING"), &mut dst, |_f: Op| Err(NatsError::SerializeError));
    assert_eq!(r, Err(NatsError::SerializeError));
    assert_eq!(&dst[..], b"KEEP");
}

#[test]
fn encode_then_decode_round_trips() {
    let frame = op(b"PING");
    let mut dst = BytesMut::new();
    let mut codec = OpCodec::new();

    let r = codec.encode(frame.clone(), &mut dst, |f: Op| {
        let mut bytes = f.payload;
        bytes.push(b' ');
        Ok(bytes)
    });
    assert_eq!(r, Ok(()));

    let mut decoder = OpCodec::new();
    let decoded = decoder.decode(&dst, |sp: Vec<u8>| {
        if sp == b"PING".to_vec() {
            ParseOutcome::Parsed(Op { payload: sp })
        } else {
            ParseOutcome::Malformed
        }
    });
    assert_eq!(decoded, Ok(Some(frame)));
}

#[test]
fn tab_is_a_delimiter_too() {
    let buf = BytesMut::from(&b"SUB\tx"[..]);
    let mut codec = OpCodec::new();

    let r = codec.decode(&buf, |sp: Vec<u8>| {
        if sp == b"SUB".to_vec() {
            ParseOutcome::Parsed(Op { payload: sp })
        } else {
            ParseOutcome::Malformed
        }
    });
    assert_eq!(r, Ok(Some(op(b"SUB"))));
}

#[test]
fn empty_buffer_reports_no_frame() {
    let buf = BytesMut::new();
    let mut codec = OpCodec::new();
    let r = codec.decode(&buf, |_sp: Vec<u8>| ParseOutcome::Malformed);
    assert_eq!(r, Ok(None));
    assert_eq!(codec.scan_cursor(), 0);
}

#[test]
fn delimiter_at_start_yields_empty_verb_span() {
    let buf = BytesMut::from(&b" args"[..]);
    let mut codec = OpCodec::new();
    let seen = Cell::new(usize::MAX);

    let r = codec.decode(&buf, |sp: Vec<u8>| {
        seen.set(sp.len());
        ParseOutcome::Malformed
    });
    // The parser saw the empty span to the left of the delimiter and
    // rejected it; the scan state is reset.
    assert_eq!(seen.get(), 0);
    assert_eq!(r, Err(NatsError::CommandError));
    assert_eq!(codec.scan_cursor(), 0);
}
