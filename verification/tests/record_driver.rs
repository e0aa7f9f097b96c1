//! The record-level drivers against a real engine session and a scripted
//! transport: would-block absorption, the unconditional flush, and the
//! fatal error classes.

use std::sync::Arc;

use tls_uring::TlsError;
use tls_uring::split::{ReadStep, WriteStep};
use tls_uring::stream::TlsStream;

fn client_stream() -> TlsStream {
    let ck = rcgen::generate_simple_self_signed(vec!["localhost".to_string()]).unwrap();
    let mut roots = rustls::RootCertStore::empty();
    roots.add(ck.cert.der().clone()).unwrap();
    let cfg = Arc::new(
        rustls::ClientConfig::builder()
            .with_root_certificates(roots)
            .with_no_client_auth(),
    );
    TlsStream::new_client(&cfg, "localhost").unwrap()
}

#[test]
fn read_would_block_costs_one_receive() {
    let mut s = client_stream();
    // Nothing buffered and no end-of-stream: the driver asks for exactly
    // one receive.
    assert_eq!(s.read_io().unwrap(), ReadStep::Recv);
    assert_eq!(s.read_io().unwrap(), ReadStep::Recv);
    let mut buf = s.begin_recv();
    buf[0] = 0x16;
    s.complete_recv(buf, 1);
    // With a byte in hand the engine is attempted, not the transport.
    assert_eq!(s.read_io().unwrap(), ReadStep::Done(1));
    // The byte was consumed, so the next attempt would block again.
    assert_eq!(s.read_io().unwrap(), ReadStep::Recv);
}

#[test]
fn write_io_encodes_then_flushes_once() {
    let mut s = client_stream();
    // A fresh client session owes its opening flight: the encode happens,
    // then the unconditional send is requested.
    assert_eq!(s.write_io().unwrap(), WriteStep::Send);
    let buf = s.begin_send();
    let n = buf.len();
    assert!(n > 0);
    s.complete_send(buf, n);
    // The step finishes with the honest encoded count.
    assert_eq!(s.write_io().unwrap(), WriteStep::Done(n));
    // Nothing further to encode and nothing buffered: done at once, no
    // transport operation.
    assert_eq!(s.write_io().unwrap(), WriteStep::Done(0));
}

#[test]
fn partial_send_is_retried_not_dropped() {
    let mut s = client_stream();
    assert_eq!(s.write_io().unwrap(), WriteStep::Send);
    let buf = s.begin_send();
    let total = buf.len();
    let wire_first: Vec<u8> = buf[..3].to_vec();
    // The transport accepts only three bytes.
    s.complete_send(buf, 3);
    assert_eq!(s.write_io().unwrap(), WriteStep::Done(total));
    // The remainder is still pending, in order, and goes out next.
    let rest = s.begin_send();
    assert_eq!(rest.len(), total - 3);
    let n = rest.len();
    let mut wire: Vec<u8> = wire_first.clone();
    wire.extend_from_slice(&rest);
    assert_eq!(wire.len(), total);
    s.complete_send(rest, n);
}

#[test]
fn garbage_input_is_a_protocol_error() {
    let mut s = client_stream();
    assert_eq!(s.read_io().unwrap(), ReadStep::Recv);
    let mut buf = s.begin_recv();
    let junk = [0xffu8, 0xff, 0xff, 0xff, 0xff, 0xff];
    buf[..junk.len()].copy_from_slice(&junk);
    s.complete_recv(buf, junk.len());
    assert_eq!(s.read_io().err(), Some(TlsError::Protocol));
}

#[test]
fn read_after_raw_eof_reports_stream_end() {
    let mut s = client_stream();
    let mut dest = vec![0u8; 32];
    // Nothing decoded yet: the facade read asks for a receive.
    assert_eq!(s.read(&mut dest).unwrap(), ReadStep::Recv);
    let buf = s.begin_recv();
    s.complete_recv(buf, 0);
    // The transport ended while plaintext was still owed.
    assert_eq!(s.read(&mut dest).err(), Some(TlsError::StreamEof));
    // Once the engine has seen the unclean closure, further reads fail on
    // the plaintext side.
    assert_eq!(s.read(&mut dest).err(), Some(TlsError::PlainIo));
}
