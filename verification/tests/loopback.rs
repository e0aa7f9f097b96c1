//! A loopback pair of streams: two engine sessions wired to each other's
//! buffers in place of a real transport.  The handshake completes, and
//! plaintext written on one side arrives byte-identical on the other,
//! including when it spans several records.

use std::sync::Arc;

use tls_uring::TlsError;
use tls_uring::split::{ReadStep, WriteAllStep, WriteStep};
use tls_uring::stream::{HandshakeStep, TlsStream};

fn configs() -> (Arc<rustls::ClientConfig>, Arc<rustls::ServerConfig>) {
    let ck = rcgen::generate_simple_self_signed(vec!["localhost".to_string()]).unwrap();
    let cert_der = ck.cert.der().clone();
    let key_der = rustls::pki_types::PrivateKeyDer::Pkcs8(
        rustls::pki_types::PrivatePkcs8KeyDer::from(ck.key_pair.serialize_der()),
    );
    let server = rustls::ServerConfig::builder()
        .with_no_client_auth()
        .with_single_cert(vec![cert_der.clone()], key_der)
        .unwrap();
    let mut roots = rustls::RootCertStore::empty();
    roots.add(cert_der).unwrap();
    let client = rustls::ClientConfig::builder()
        .with_root_certificates(roots)
        .with_no_client_auth();
    (Arc::new(client), Arc::new(server))
}

fn pair() -> (TlsStream, TlsStream) {
    let (ccfg, scfg) = configs();
    let client = TlsStream::new_client(&ccfg, "localhost").unwrap();
    let server_session: rustls::Connection = rustls::ServerConnection::new(scfg).unwrap().into();
    let server = TlsStream::new(server_session);
    (client, server)
}

/// Deliver up to everything in `inbox` into the stream's inbound adaptor.
/// Returns false when nothing could be delivered.
fn deliver(s: &mut TlsStream, inbox: &mut Vec<u8>) -> bool {
    if inbox.is_empty() || s.recv_outstanding() {
        return false;
    }
    let mut buf = s.begin_recv();
    let n = inbox.len().min(buf.len());
    buf[..n].copy_from_slice(&inbox[..n]);
    s.complete_recv(buf, n);
    inbox.drain(..n);
    true
}

/// Move all bytes the stream wants sent onto the wire.
fn collect(s: &mut TlsStream, outbox: &mut Vec<u8>) {
    let buf = s.begin_send();
    let n = buf.len();
    outbox.extend_from_slice(&buf);
    s.complete_send(buf, n);
}

/// One handshake step for one side; returns false when the side is stalled
/// waiting for bytes the wire does not have yet.
fn hs_step(
    s: &mut TlsStream,
    inbox: &mut Vec<u8>,
    outbox: &mut Vec<u8>,
    done: &mut Option<(usize, usize)>,
) -> bool {
    if done.is_some() {
        return false;
    }
    match s.handshake().unwrap() {
        HandshakeStep::Done(r, w) => {
            *done = Some((r, w));
            true
        }
        HandshakeStep::Working => true,
        HandshakeStep::Send => {
            collect(s, outbox);
            true
        }
        HandshakeStep::Recv => deliver(s, inbox),
    }
}

fn run_handshakes(
    client: &mut TlsStream,
    server: &mut TlsStream,
    c2s: &mut Vec<u8>,
    s2c: &mut Vec<u8>,
) -> ((usize, usize), (usize, usize)) {
    let mut cd: Option<(usize, usize)> = None;
    let mut sd: Option<(usize, usize)> = None;
    for _ in 0..10_000 {
        let p1 = hs_step(client, s2c, c2s, &mut cd);
        let p2 = hs_step(server, c2s, s2c, &mut sd);
        if cd.is_some() && sd.is_some() {
            break;
        }
        if !p1 && !p2 {
            panic!("handshake deadlocked");
        }
    }
    (cd.expect("client handshake unfinished"), sd.expect("server handshake unfinished"))
}

/// Drive a whole-slice write to completion, collecting wire bytes.
fn write_all_pump(s: &mut TlsStream, data: &[u8], outbox: &mut Vec<u8>) {
    for _ in 0..10_000 {
        match s.write_all(data).unwrap() {
            WriteAllStep::Done => return,
            WriteAllStep::Send => collect(s, outbox),
        }
    }
    panic!("write_all never finished");
}

/// Drive a read until it yields once; feeds from `inbox` as asked.
fn read_once(s: &mut TlsStream, dest: &mut Vec<u8>, inbox: &mut Vec<u8>) -> usize {
    for _ in 0..10_000 {
        match s.read(dest).unwrap() {
            ReadStep::Done(n) => return n,
            ReadStep::Recv => {
                if !deliver(s, inbox) {
                    panic!("reader starved");
                }
            }
        }
    }
    panic!("read never finished");
}

fn read_exact(s: &mut TlsStream, want: usize, inbox: &mut Vec<u8>) -> Vec<u8> {
    let mut got: Vec<u8> = Vec::new();
    while got.len() < want {
        let mut dest = vec![0u8; want - got.len()];
        let n = read_once(s, &mut dest, inbox);
        assert!(n > 0, "reader made no progress");
        got.extend_from_slice(&dest[..n]);
    }
    got
}

#[test]
fn round_trip_small() {
    let (mut client, mut server) = pair();
    let mut c2s: Vec<u8> = Vec::new();
    let mut s2c: Vec<u8> = Vec::new();
    let ((crd, cwr), (srd, swr)) = run_handshakes(&mut client, &mut server, &mut c2s, &mut s2c);
    assert!(crd > 0 && cwr > 0 && srd > 0 && swr > 0);

    let msg = b"hello over tls";
    write_all_pump(&mut client, msg, &mut c2s);
    let got = read_exact(&mut server, msg.len(), &mut c2s);
    assert_eq!(got, msg);

    // And the other direction over the same session.
    let reply = b"hello back";
    write_all_pump(&mut server, reply, &mut s2c);
    let got = read_exact(&mut client, reply.len(), &mut s2c);
    assert_eq!(got, reply);
}

#[test]
fn round_trip_spans_multiple_records() {
    let (mut client, mut server) = pair();
    let mut c2s: Vec<u8> = Vec::new();
    let mut s2c: Vec<u8> = Vec::new();
    run_handshakes(&mut client, &mut server, &mut c2s, &mut s2c);

    // Far larger than one TLS record, so the sequence is split across
    // several records on the wire.
    let msg: Vec<u8> = (0..40_000u32).map(|i| (i % 251) as u8).collect();
    write_all_pump(&mut client, &msg, &mut c2s);
    let got = read_exact(&mut server, msg.len(), &mut c2s);
    assert_eq!(got, msg);
}

#[test]
fn short_read_is_honest() {
    let (mut client, mut server) = pair();
    let mut c2s: Vec<u8> = Vec::new();
    let mut s2c: Vec<u8> = Vec::new();
    run_handshakes(&mut client, &mut server, &mut c2s, &mut s2c);

    write_all_pump(&mut client, b"tiny", &mut c2s);

    // The destination is far larger than what was sent: the read returns
    // the smaller count at once instead of waiting for more.
    let mut dest = vec![0u8; 4096];
    let n = read_once(&mut server, &mut dest, &mut c2s);
    assert_eq!(n, 4);
    assert_eq!(&dest[..n], b"tiny");
}

#[test]
fn write_reports_honest_count() {
    let (mut client, mut server) = pair();
    let mut c2s: Vec<u8> = Vec::new();
    let mut s2c: Vec<u8> = Vec::new();
    run_handshakes(&mut client, &mut server, &mut c2s, &mut s2c);

    let msg = b"partial-writes-are-reported";
    let mut accepted: Option<usize> = None;
    for _ in 0..10_000 {
        match client.write(msg).unwrap() {
            WriteStep::Done(n) => {
                accepted = Some(n);
                break;
            }
            WriteStep::Send => collect(&mut client, &mut c2s),
        }
    }
    let n = accepted.expect("write never finished");
    assert!(n > 0 && n <= msg.len());
    let got = read_exact(&mut server, n, &mut c2s);
    assert_eq!(got, &msg[..n]);
}

#[test]
fn clean_closure_reads_as_zero_not_as_error() {
    let (mut client, mut server) = pair();
    let mut c2s: Vec<u8> = Vec::new();
    let mut s2c: Vec<u8> = Vec::new();
    run_handshakes(&mut client, &mut server, &mut c2s, &mut s2c);

    // The server closes the session cleanly: the closure record goes out
    // through the ordinary outbound driver.
    let (mut sess, _rd, mut wr) = tls_uring::split::split(server);
    sess.send_close_notify();
    for _ in 0..100 {
        match wr.write_io(&mut sess).unwrap() {
            WriteStep::Send => {
                let buf = wr.begin_send();
                let n = buf.len();
                s2c.extend_from_slice(&buf);
                wr.complete_send(buf, n);
            }
            WriteStep::Done(0) => break,
            WriteStep::Done(_) => {}
        }
    }

    // A clean closure surfaces as a zero-count read, distinct from the
    // unexpected-end error a torn transport produces.
    let mut dest = vec![0u8; 64];
    let n = read_once(&mut client, &mut dest, &mut s2c);
    assert_eq!(n, 0);
}

#[test]
fn split_halves_drive_both_directions() {
    let (mut client, mut server) = pair();
    let mut c2s: Vec<u8> = Vec::new();
    let mut s2c: Vec<u8> = Vec::new();
    run_handshakes(&mut client, &mut server, &mut c2s, &mut s2c);

    // The two halves own their directions outright; only the session is
    // handed to whichever half is stepping.
    let (mut session, mut rd, mut wr) = tls_uring::split::split(client);

    let msg = b"written through the write half";
    'writing: for _ in 0..10_000 {
        match wr.write_all(&mut session, msg).unwrap() {
            WriteAllStep::Done => break 'writing,
            WriteAllStep::Send => {
                let buf = wr.begin_send();
                let n = buf.len();
                c2s.extend_from_slice(&buf);
                wr.complete_send(buf, n);
            }
        }
    }
    let got = read_exact(&mut server, msg.len(), &mut c2s);
    assert_eq!(got, msg);

    let reply = b"read through the read half";
    write_all_pump(&mut server, reply, &mut s2c);
    let mut collected: Vec<u8> = Vec::new();
    while collected.len() < reply.len() {
        let mut dest = vec![0u8; reply.len() - collected.len()];
        let n = 'reading: loop {
            match rd.read(&mut session, &mut dest).unwrap() {
                ReadStep::Done(n) => break 'reading n,
                ReadStep::Recv => {
                    assert!(!s2c.is_empty(), "read half starved");
                    let mut buf = rd.begin_recv();
                    let n = s2c.len().min(buf.len());
                    buf[..n].copy_from_slice(&s2c[..n]);
                    rd.complete_recv(buf, n);
                    s2c.drain(..n);
                }
            }
        };
        assert!(n > 0);
        collected.extend_from_slice(&dest[..n]);
    }
    assert_eq!(collected, reply);
}

#[test]
fn premature_eof_fails_handshake() {
    let (ccfg, _) = configs();
    let mut client = TlsStream::new_client(&ccfg, "localhost").unwrap();
    let mut sink: Vec<u8> = Vec::new();
    let mut result: Option<Result<HandshakeStep, TlsError>> = None;
    for _ in 0..10_000 {
        match client.handshake() {
            Ok(HandshakeStep::Send) => collect(&mut client, &mut sink),
            Ok(HandshakeStep::Working) => {}
            Ok(HandshakeStep::Recv) => {
                // The fake transport answers with a zero-length receive.
                let buf = client.begin_recv();
                client.complete_recv(buf, 0);
            }
            other => {
                result = Some(other);
                break;
            }
        }
    }
    assert_eq!(result, Some(Err(TlsError::HandshakeEof)));
}

#[test]
fn connector_builds_streams_and_rejects_bad_names() {
    let (ccfg, _) = configs();
    let connector = tls_uring::client::TlsConnector::from(ccfg);
    assert!(connector.connect("localhost").is_ok());
    let bad = connector.connect("not a host name");
    assert_eq!(bad.err(), Some(TlsError::Session));
}
