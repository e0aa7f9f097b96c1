//! Adapts a synchronous, I/O-free TLS protocol engine to an asynchronous
//! transport whose receive and send operations own their byte buffers for the
//! whole duration of the operation (kernel-completion-style I/O).
//!
//! The library is organised as step machines: every operation that the
//! original blocking loop would suspend on is split at the suspension point.
//! A step method performs all synchronous work (engine calls, buffer
//! bookkeeping) and returns either a finished result or the one transport
//! action the caller must perform before stepping again.  The caller hands
//! buffer ownership to the transport through `begin_recv`/`begin_send` and
//! returns it with the completion count through `complete_recv`/
//! `complete_send`, so a buffer lent to an in-flight operation can never be
//! moved or grown by this library.

pub mod buffer;
pub mod engine;
pub mod handshake;
pub mod split;
pub mod stream;
pub mod client;

use vstd::prelude::*;

verus! {

/// Failure classes of the stream, mirrored by the caller onto its own
/// error type.  The would-block condition is never surfaced: it is absorbed
/// by the drivers as the trigger for the next transport operation.
#[derive(Clone, Copy, Debug, PartialEq, Eq, Structural)]
pub enum TlsError {
    /// The peer signalled closure while the engine was still mid-handshake.
    HandshakeAlert,
    /// The transport reached end-of-stream while the engine was still
    /// mid-handshake.
    HandshakeEof,
    /// The transport reached end-of-stream while more plaintext was owed to
    /// a read.
    StreamEof,
    /// The engine rejected incoming data (decode or crypto failure).
    Protocol,
    /// The engine reported an I/O-level failure while moving raw bytes.
    EngineIo,
    /// The engine reported a failure on the plaintext side.
    PlainIo,
    /// Session construction rejected the peer identity or configuration.
    Session,
}

} // verus!
