//! The capability surface of the protocol engine, taken on trust.
//!
//! The engine is a synchronous, I/O-free TLS state machine; this library
//! consumes it through the small set of calls below and reimplements none of
//! it.  Each wrapper makes exactly one engine call and states only what the
//! engine's own source shows of every outcome; everything the engine decides
//! (how many bytes it consumes or produces, whether it is still
//! handshaking) stays opaque, and the drivers are verified for every value
//! it can hand back.

use vstd::prelude::*;

use crate::TlsError;

verus! {

#[verifier::external_type_specification]
#[verifier::external_body]
pub struct ExConnection(rustls::Connection);

#[verifier::external_type_specification]
#[verifier::external_body]
pub struct ExClientConfig(rustls::ClientConfig);

#[verifier::external_type_specification]
#[verifier::external_body]
pub struct ExServerName<'a>(rustls::pki_types::ServerName<'a>);

/// Outcome of one synchronous plaintext read against the engine.
pub enum PlainRead {
    /// The engine yielded this many decoded bytes (zero after a clean
    /// closure by the peer, once all pending data has been drained).
    Data(usize),
    /// No plaintext is decoded yet; more raw bytes are needed.
    Blocked,
    /// The peer closed the transport without a clean protocol closure.
    Failed,
}

/// Whether a peer identity is well-formed: exactly the strings that the
/// engine's name parser accepts.  The answer depends on the characters
/// alone.
pub uninterp spec fn valid_server_name(domain: Seq<char>) -> bool;

/// Relies on `rustls::pki_types::ServerName::try_from` (for `String`): a
/// pure parse that accepts exactly the well-formed peer identities and
/// owns the result.
#[verifier::external_body]
pub(crate) fn parse_server_name(domain: &str) -> (r: Result<
    rustls::pki_types::ServerName<'static>,
    TlsError,
>)
    ensures
        r is Ok ==> valid_server_name(domain@),
        r is Err ==> !valid_server_name(domain@) && (r matches Err(e) && e == TlsError::Session),
{
    match rustls::pki_types::ServerName::try_from(domain.to_string()) {
        Ok(name) => Ok(name),
        Err(_) => Err(TlsError::Session),
    }
}

/// Relies on `rustls::ClientConnection::new`: it builds a client session
/// bound to the shared configuration, or rejects the configuration.
#[verifier::external_body]
pub(crate) fn client_session(
    config: &std::sync::Arc<rustls::ClientConfig>,
    name: rustls::pki_types::ServerName<'static>,
) -> (r: Result<rustls::Connection, TlsError>)
    ensures
        r matches Err(e) ==> e == TlsError::Session,
{
    match rustls::ClientConnection::new(config.clone(), name) {
        Ok(session) => Ok(rustls::Connection::Client(session)),
        Err(_) => Err(TlsError::Session),
    }
}

/// Relies on `rustls::Connection::read_tls`: reading from a byte slice, it
/// moves at most the slice's length into the engine's raw-byte buffer and
/// returns how much it took; an empty slice tells the engine the transport
/// reached end-of-stream.  An error is the engine's back-pressure signal.
#[verifier::external_body]
pub(crate) fn read_tls_from(sess: &mut rustls::Connection, input: &[u8]) -> (r: Result<
    usize,
    TlsError,
>)
    ensures
        r matches Ok(n) ==> n <= input@.len(),
        r matches Err(e) ==> e == TlsError::EngineIo,
{
    let mut rd: &[u8] = input;
    match sess.read_tls(&mut rd) {
        Ok(n) => Ok(n),
        Err(_) => Err(TlsError::EngineIo),
    }
}

/// Relies on `rustls::Connection::write_tls`: writing into a `Vec`, it
/// appends the raw bytes it wants sent and returns their count; the bytes
/// already in the `Vec` stay untouched.
#[verifier::external_body]
pub(crate) fn write_tls_into(sess: &mut rustls::Connection, out: &mut Vec<u8>) -> (r: usize)
    ensures
        final(out)@.len() == old(out)@.len() + r,
        final(out)@.subrange(0, old(out)@.len() as int) == old(out)@,
{
    match sess.write_tls(out) {
        Ok(n) => n,
        Err(_) => 0,
    }
}

/// Relies on `rustls::Connection::process_new_packets`: it decodes the
/// buffered raw bytes, advances the handshake and session state, and
/// reports whether the peer has signalled closure; a failure means the
/// incoming data was rejected.
#[verifier::external_body]
pub(crate) fn process_packets(sess: &mut rustls::Connection) -> (r: Result<bool, TlsError>)
    ensures
        r matches Err(e) ==> e == TlsError::Protocol,
{
    match sess.process_new_packets() {
        Ok(state) => Ok(state.peer_has_closed()),
        Err(_) => Err(TlsError::Protocol),
    }
}

/// Relies on `rustls::CommonState::is_handshaking`.
#[verifier::external_body]
pub(crate) fn is_handshaking(sess: &rustls::Connection) -> bool {
    sess.is_handshaking()
}

/// Relies on `rustls::CommonState::wants_read`: whether the engine would
/// make progress from more raw bytes.
#[verifier::external_body]
pub(crate) fn wants_read(sess: &rustls::Connection) -> bool {
    sess.wants_read()
}

/// Relies on `rustls::CommonState::wants_write`: whether the engine holds
/// raw bytes it wants sent.
#[verifier::external_body]
pub(crate) fn wants_write(sess: &rustls::Connection) -> bool {
    sess.wants_write()
}

/// Relies on `rustls::Reader::read` (through `Connection::reader`): it
/// fills at most `dest.len()` bytes of decoded plaintext from the front of
/// `dest`, never resizing it, and signals would-block while the connection
/// is healthy but nothing is decoded yet.
#[verifier::external_body]
pub(crate) fn plain_read(sess: &mut rustls::Connection, dest: &mut Vec<u8>) -> (r: PlainRead)
    ensures
        final(dest)@.len() == old(dest)@.len(),
        r matches PlainRead::Data(n) ==> n <= final(dest)@.len(),
{
    match std::io::Read::read(&mut sess.reader(), dest.as_mut_slice()) {
        Ok(n) => PlainRead::Data(n),
        Err(err) if err.kind() == std::io::ErrorKind::WouldBlock => PlainRead::Blocked,
        Err(_) => PlainRead::Failed,
    }
}

/// Relies on `rustls::Writer::write` (through `Connection::writer`): it
/// buffers a prefix of `data` for encoding, returns how much it accepted,
/// and never fails.
#[verifier::external_body]
pub(crate) fn plain_write(sess: &mut rustls::Connection, data: &[u8]) -> (r: usize)
    ensures
        r <= data@.len(),
{
    match std::io::Write::write(&mut sess.writer(), data) {
        Ok(n) => n,
        Err(_) => 0,
    }
}

/// Relies on `rustls::Writer::write_all` (through `Connection::writer`):
/// success means the engine accepted the entire slice; it fails only when
/// the engine stops accepting bytes before the slice is exhausted.
#[verifier::external_body]
pub(crate) fn plain_write_all(sess: &mut rustls::Connection, data: &[u8]) -> (r: Result<
    (),
    TlsError,
>)
    ensures
        r matches Err(e) ==> e == TlsError::PlainIo,
{
    match std::io::Write::write_all(&mut sess.writer(), data) {
        Ok(()) => Ok(()),
        Err(_) => Err(TlsError::PlainIo),
    }
}

/// Relies on `rustls::Writer::flush` (through `Connection::writer`): the
/// engine buffers internally and its flush unconditionally succeeds.
#[verifier::external_body]
pub(crate) fn plain_flush(sess: &mut rustls::Connection) -> (r: Result<(), TlsError>)
    ensures
        r is Ok,
{
    match std::io::Write::flush(&mut sess.writer()) {
        Ok(()) => Ok(()),
        Err(_) => Err(TlsError::PlainIo),
    }
}

} // verus!
