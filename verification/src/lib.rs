//! Transport layer of a client for a line-oriented, text-framed
//! publish/subscribe protocol.
//!
//! Three pieces make up the core: a streaming frame codec that locates frame
//! boundaries in an unbounded byte buffer (`codec`), a dual-mode transport
//! that can start as plaintext and upgrade once to an encrypted channel while
//! preserving already-buffered bytes (`net::connection_inner`), and a
//! resilient connection state machine that survives a dropped socket behind a
//! stable send/receive surface (`net::connection`).
//!
//! The frame grammar itself belongs to an external collaborator: the codec
//! only locates the verb/argument delimiter and hands the verb span to a
//! parser supplied by the caller.

pub mod buffer;
pub mod codec;
pub mod error;
pub mod net;
