//! The buffer adaptors: byte order, cursor behaviour, end-of-stream
//! recording, partial sends, and the stability of storage handed to an
//! in-flight transport operation.

use tls_uring::buffer::{RecvBuffer, SendBuffer};

#[test]
fn recv_appends_in_order() {
    let mut rb = RecvBuffer::new(8);
    assert_eq!(rb.pending_len(), 0);
    assert!(rb.is_empty());
    assert!(!rb.at_eof());

    let mut buf = rb.begin_recv();
    assert_eq!(buf.len(), 8);
    buf[0] = 1;
    buf[1] = 2;
    buf[2] = 3;
    rb.complete_recv(buf, 3);
    assert_eq!(rb.pending_slice(), &[1, 2, 3]);

    let mut buf = rb.begin_recv();
    buf[0] = 4;
    rb.complete_recv(buf, 1);
    assert_eq!(rb.pending_slice(), &[1, 2, 3, 4]);
    assert!(!rb.at_eof());
}

#[test]
fn recv_consume_advances_cursor() {
    let mut rb = RecvBuffer::new(8);
    let mut buf = rb.begin_recv();
    for i in 0..5 {
        buf[i] = (i as u8) + 10;
    }
    rb.complete_recv(buf, 5);
    rb.consume(2);
    assert_eq!(rb.pending_slice(), &[12, 13, 14]);
    rb.consume(3);
    assert!(rb.is_empty());
}

#[test]
fn recv_records_eof_on_zero_length() {
    let mut rb = RecvBuffer::new(8);
    let buf = rb.begin_recv();
    rb.complete_recv(buf, 0);
    assert!(rb.at_eof());
    assert!(rb.is_empty());
}

#[test]
fn send_partial_send_keeps_remainder_in_order() {
    let mut sb = SendBuffer::new(16);
    sb.append(&[9, 8, 7, 6, 5]);
    assert_eq!(sb.pending_len(), 5);
    let buf = sb.begin_send();
    assert_eq!(buf, vec![9, 8, 7, 6, 5]);
    assert_eq!(sb.pending_len(), 0);
    sb.complete_send(buf, 2);
    let rest = sb.begin_send();
    assert_eq!(rest, vec![7, 6, 5]);
    let n = rest.len();
    sb.complete_send(rest, n);
    assert!(sb.is_empty());
}

#[test]
fn send_room_tracks_bound() {
    let mut sb = SendBuffer::new(4);
    assert!(sb.has_room());
    sb.append(&[1, 2, 3]);
    assert!(sb.has_room());
    sb.append(&[4]);
    assert!(!sb.has_room());
    let buf = sb.begin_send();
    let n = buf.len();
    sb.complete_send(buf, n);
    assert!(sb.has_room());
}

#[test]
fn lent_recv_storage_address_is_stable() {
    let mut rb = RecvBuffer::new(64);
    let mut sb = SendBuffer::new(1 << 20);
    let inflight = rb.begin_recv();
    let addr = inflight.as_ptr();
    // Growth-triggering writes on the other direction's adaptor while the
    // receive is simulated in flight.
    for i in 0..2000 {
        sb.append(&[i as u8; 97]);
    }
    assert_eq!(inflight.as_ptr(), addr);
    rb.complete_recv(inflight, 0);
}

#[test]
fn lent_send_storage_address_is_stable() {
    let mut sb = SendBuffer::new(1 << 20);
    let mut rb = RecvBuffer::new(64);
    sb.append(&[42; 333]);
    let inflight = sb.begin_send();
    let addr = inflight.as_ptr();
    for _ in 0..500 {
        let mut buf = rb.begin_recv();
        for b in buf.iter_mut() {
            *b = 7;
        }
        let n = buf.len();
        rb.complete_recv(buf, n);
    }
    assert_eq!(inflight.as_ptr(), addr);
    assert_eq!(inflight, vec![42; 333]);
    let n = inflight.len();
    sb.complete_send(inflight, n);
}
