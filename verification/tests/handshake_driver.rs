//! The handshake driver's decision rule, driven with scripted engine flags
//! in place of a real engine.

use tls_uring::TlsError;
use tls_uring::handshake::{Handshaker, HsAction};

fn run_cycles(n: usize) {
    let mut hs = Handshaker::new();
    // The fake engine reports handshaking for exactly `n` write-then-read
    // cycles, then settles with one last flight to send.
    for _ in 0..n {
        assert_eq!(hs.advance(true, false, true), Ok(HsAction::WriteIo));
        hs.note_write(90);
        assert_eq!(hs.advance(false, true, true), Ok(HsAction::ReadIo));
        hs.note_read(120);
    }
    assert_eq!(hs.advance(true, false, false), Ok(HsAction::WriteIo));
    hs.note_write(10);
    assert_eq!(hs.advance(false, false, false), Ok(HsAction::Done));
    assert_eq!(hs.totals(), (n * 120, n * 90 + 10));
}

#[test]
fn completes_after_each_cycle_count() {
    run_cycles(1);
    run_cycles(3);
    run_cycles(7);
}

#[test]
fn settles_with_nothing_left_to_send() {
    let mut hs = Handshaker::new();
    assert_eq!(hs.advance(false, false, false), Ok(HsAction::Done));
    assert_eq!(hs.totals(), (0, 0));
}

#[test]
fn eof_mid_handshake_is_fatal() {
    let mut hs = Handshaker::new();
    assert_eq!(hs.advance(true, false, true), Ok(HsAction::WriteIo));
    hs.note_write(40);
    assert_eq!(hs.advance(false, true, true), Ok(HsAction::ReadIo));
    // The record-level read observes a zero-length transport receive.
    hs.note_read(0);
    assert_eq!(hs.advance(false, true, true), Err(TlsError::HandshakeEof));
}

#[test]
fn eof_never_turns_into_success_while_handshaking() {
    let mut hs = Handshaker::new();
    hs.note_read(0);
    for wants_write in [false, true] {
        for wants_read in [false, true] {
            let r = hs.advance(wants_write, wants_read, true);
            assert!(r != Ok(HsAction::Done));
            if !wants_write {
                assert_eq!(r, Err(TlsError::HandshakeEof));
            }
        }
    }
}

#[test]
fn output_drains_before_eof_is_judged() {
    let mut hs = Handshaker::new();
    hs.note_read(0);
    // Output owed while handshaking still goes out first.
    assert_eq!(hs.advance(true, false, true), Ok(HsAction::WriteIo));
    hs.note_write(55);
    assert_eq!(hs.advance(false, false, true), Err(TlsError::HandshakeEof));
}

#[test]
fn eof_after_settling_is_no_error() {
    let mut hs = Handshaker::new();
    hs.note_read(0);
    // The engine settles: the final drain runs and the driver completes.
    assert_eq!(hs.advance(true, false, false), Ok(HsAction::WriteIo));
    hs.note_write(5);
    assert_eq!(hs.advance(false, false, false), Ok(HsAction::Done));
    assert_eq!(hs.totals(), (0, 5));
}

#[test]
fn final_drain_repeats_while_output_remains() {
    let mut hs = Handshaker::new();
    assert_eq!(hs.advance(true, false, false), Ok(HsAction::WriteIo));
    hs.note_write(1);
    assert_eq!(hs.advance(true, false, false), Ok(HsAction::WriteIo));
    hs.note_write(2);
    assert_eq!(hs.advance(true, true, true), Ok(HsAction::WriteIo));
    hs.note_write(3);
    assert_eq!(hs.advance(false, true, true), Ok(HsAction::Done));
    assert_eq!(hs.totals(), (0, 6));
}

#[test]
fn byte_counts_saturate() {
    let mut hs = Handshaker::new();
    hs.note_read(usize::MAX);
    hs.note_read(17);
    hs.note_write(usize::MAX - 1);
    hs.note_write(1);
    hs.note_write(1);
    assert_eq!(hs.totals(), (usize::MAX, usize::MAX));
    // A zero-length receive noted after saturation still records
    // end-of-stream without disturbing the counts.
    hs.note_read(0);
    assert_eq!(hs.totals(), (usize::MAX, usize::MAX));
    assert!(hs.advance(false, true, true) == Err(TlsError::HandshakeEof));
}
