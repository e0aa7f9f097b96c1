//! The stream facade: one engine session plus the two buffer adaptors, with
//! the record-level drivers, the handshake driver and the application-level
//! read and write operations.
//!
//! Each public operation is a step machine (see the crate root): it runs
//! the engine as far as it can and returns either its result or the one
//! transport operation the caller must perform — `Recv` for a receive into
//! storage obtained from `begin_recv`, `Send` for a send of the bytes from
//! `begin_send` — before calling the same operation again.  `Working` from
//! the handshake means progress was made and no transport work is owed yet.

use vstd::prelude::*;

use crate::TlsError;
use crate::engine;
use crate::handshake::{Handshaker, HsAction};
use crate::split::{ReadHalf, ReadStep, WriteAllStep, WriteHalf, WriteStep};

verus! {

/// Storage handed to each transport receive, in bytes.
pub const RECV_CHUNK: usize = 16384;

/// Outbound bytes buffered before the outbound driver insists on a send.
pub const SEND_CAP: usize = 16384;

/// Outcome of one handshake step.
#[derive(Clone, Copy, Debug, PartialEq, Eq, Structural)]
pub enum HandshakeStep {
    /// The handshake settled and the final output drain is finished; the
    /// cumulative bytes read and written are reported for diagnostics.
    Done(usize, usize),
    /// One transport receive is needed.
    Recv,
    /// One transport send is needed.
    Send,
    /// Progress was made; step again.
    Working,
}

/// A TLS stream: the protocol-engine session and the two buffer adaptors,
/// driven against a transport owned by the caller.
pub struct TlsStream {
    pub(crate) session: rustls::Connection,
    pub(crate) rd: ReadHalf,
    pub(crate) wr: WriteHalf,
    pub(crate) hs: Handshaker,
}

impl TlsStream {
    /// The inbound half's state.
    pub closed spec fn rd_spec(self) -> ReadHalf {
        self.rd
    }

    /// The outbound half's state.
    pub closed spec fn wr_spec(self) -> WriteHalf {
        self.wr
    }

    /// The handshake driver's state.
    pub closed spec fn hs_spec(self) -> Handshaker {
        self.hs
    }

    /// The engine session the stream drives.
    pub closed spec fn session_spec(self) -> rustls::Connection {
        self.session
    }

    pub(crate) proof fn lemma_parts(self)
        ensures
            self.rd_spec() == self.rd,
            self.wr_spec() == self.wr,
            self.hs_spec() == self.hs,
            self.session_spec() == self.session,
    {
    }

    pub open spec fn wf(self) -> bool {
        &&& self.rd_spec().wf()
        &&& self.wr_spec().wf()
    }

    /// Both adaptors hold their storage: no transport operation is in
    /// flight.
    pub open spec fn quiescent(self) -> bool {
        &&& !self.rd_spec().lent()
        &&& !self.wr_spec().lent()
    }

    /// Wrap an engine session; the handshake is still to be driven.
    pub fn new(session: rustls::Connection) -> (r: TlsStream)
        ensures
            r.session_spec() == session,
            r.wf(),
            r.quiescent(),
            r.rd_spec().pending() == Seq::<u8>::empty(),
            !r.rd_spec().at_eof(),
            r.wr_spec().pending() == Seq::<u8>::empty(),
            r.wr_spec().flushing_spec() is None,
            r.wr_spec().accepted_spec() is None,
            !r.wr_spec().all_accepted_spec(),
            !r.hs_spec().draining(),
            !r.hs_spec().saw_eof(),
            r.hs_spec().rd() == 0,
            r.hs_spec().wr() == 0,
    {
        TlsStream {
            session,
            rd: ReadHalf::new(RECV_CHUNK),
            wr: WriteHalf::new(SEND_CAP),
            hs: Handshaker::new(),
        }
    }

    /// Build a client session against `config` for the peer named by
    /// `domain` and wrap it; fails when the engine rejects the peer
    /// identity or the configuration.
    pub fn new_client(config: &std::sync::Arc<rustls::ClientConfig>, domain: &str) -> (r: Result<
        TlsStream,
        TlsError,
    >)
        ensures
            r matches Ok(s) ==> {
                &&& s.wf()
                &&& s.quiescent()
                &&& s.rd_spec().pending() == Seq::<u8>::empty()
                &&& !s.rd_spec().at_eof()
                &&& s.wr_spec().pending() == Seq::<u8>::empty()
                &&& s.wr_spec().flushing_spec() is None
                &&& s.wr_spec().accepted_spec() is None
                &&& !s.wr_spec().all_accepted_spec()
                &&& !s.hs_spec().draining()
                &&& !s.hs_spec().saw_eof()
            },
            r is Ok ==> engine::valid_server_name(domain@),
            !engine::valid_server_name(domain@) ==> (r matches Err(e) && e == TlsError::Session),
    {
        let name = match engine::parse_server_name(domain) {
            Ok(name) => name,
            Err(e) => { return Err(e) },
        };
        let session = match engine::client_session(config, name) {
            Ok(session) => session,
            Err(e) => { return Err(e) },
        };
        Ok(TlsStream::new(session))
    }

    /// Whether the inbound storage is away on an in-flight receive.
    pub fn recv_outstanding(&self) -> (r: bool)
        ensures
            r == self.rd_spec().lent(),
    {
        self.rd.recv_outstanding()
    }

    /// Hand the inbound storage to one transport receive.
    pub fn begin_recv(&mut self) -> (r: Vec<u8>)
        requires
            old(self).wf(),
            !old(self).rd_spec().lent(),
        ensures
            final(self).wf(),
            final(self).rd_spec().lent(),
            r@.len() == old(self).rd_spec().chunk_size(),
            final(self).rd_spec().pending() == old(self).rd_spec().pending(),
            final(self).rd_spec().at_eof() == old(self).rd_spec().at_eof(),
            final(self).rd_spec().chunk_size() == old(self).rd_spec().chunk_size(),
            final(self).wr_spec() == old(self).wr_spec(),
            final(self).hs_spec() == old(self).hs_spec(),
    {
        self.rd.begin_recv()
    }

    /// Return the inbound storage with the received count; zero records
    /// end-of-stream.
    pub fn complete_recv(&mut self, buf: Vec<u8>, n: usize)
        requires
            old(self).wf(),
            old(self).rd_spec().lent(),
            n <= buf@.len(),
            buf@.len() == old(self).rd_spec().chunk_size(),
        ensures
            final(self).wf(),
            !final(self).rd_spec().lent(),
            final(self).rd_spec().pending() == old(self).rd_spec().pending() + buf@.take(n as int),
            final(self).rd_spec().at_eof() == (old(self).rd_spec().at_eof() || n == 0),
            final(self).rd_spec().chunk_size() == old(self).rd_spec().chunk_size(),
            final(self).wr_spec() == old(self).wr_spec(),
            final(self).hs_spec() == old(self).hs_spec(),
    {
        self.rd.complete_recv(buf, n)
    }

    /// Whether the outbound storage is away on an in-flight send.
    pub fn send_outstanding(&self) -> (r: bool)
        ensures
            r == self.wr_spec().lent(),
    {
        self.wr.send_outstanding()
    }

    /// Hand all pending outbound bytes to one transport send.
    pub fn begin_send(&mut self) -> (r: Vec<u8>)
        requires
            old(self).wf(),
            !old(self).wr_spec().lent(),
        ensures
            final(self).wf(),
            final(self).wr_spec().lent(),
            r@ == old(self).wr_spec().pending(),
            final(self).wr_spec().pending() == Seq::<u8>::empty(),
            final(self).rd_spec() == old(self).rd_spec(),
            final(self).hs_spec() == old(self).hs_spec(),
            final(self).wr_spec().cap() == old(self).wr_spec().cap(),
            final(self).wr_spec().flushing_spec() == old(self).wr_spec().flushing_spec(),
            final(self).wr_spec().accepted_spec() == old(self).wr_spec().accepted_spec(),
            final(self).wr_spec().all_accepted_spec() == old(self).wr_spec().all_accepted_spec(),
    {
        self.wr.begin_send()
    }

    /// Return the outbound storage with the count the transport accepted.
    pub fn complete_send(&mut self, buf: Vec<u8>, n: usize)
        requires
            old(self).wf(),
            old(self).wr_spec().lent(),
            n <= buf@.len(),
        ensures
            final(self).wf(),
            !final(self).wr_spec().lent(),
            final(self).wr_spec().pending() == buf@.skip(n as int),
            final(self).rd_spec() == old(self).rd_spec(),
            final(self).hs_spec() == old(self).hs_spec(),
            final(self).wr_spec().cap() == old(self).wr_spec().cap(),
            final(self).wr_spec().flushing_spec() == old(self).wr_spec().flushing_spec(),
            final(self).wr_spec().accepted_spec() == old(self).wr_spec().accepted_spec(),
            final(self).wr_spec().all_accepted_spec() == old(self).wr_spec().all_accepted_spec(),
    {
        self.wr.complete_send(buf, n)
    }

    /// One record-level inbound operation; see `ReadHalf::read_io`.
    pub fn read_io(&mut self) -> (r: Result<ReadStep, TlsError>)
        requires
            old(self).wf(),
            !old(self).rd_spec().lent(),
        ensures
            final(self).wf(),
            !final(self).rd_spec().lent(),
            final(self).wr_spec() == old(self).wr_spec(),
            final(self).hs_spec() == old(self).hs_spec(),
            final(self).rd_spec().at_eof() == old(self).rd_spec().at_eof(),
            r == Ok::<ReadStep, TlsError>(ReadStep::Recv) <==> {
                &&& old(self).rd_spec().pending().len() == 0
                &&& !old(self).rd_spec().at_eof()
            },
            r == Ok::<ReadStep, TlsError>(ReadStep::Recv) ==> final(self).rd_spec().pending()
                == old(self).rd_spec().pending(),
            r matches Ok(ReadStep::Done(n)) ==> {
                &&& n <= old(self).rd_spec().pending().len()
                &&& final(self).rd_spec().pending() == old(self).rd_spec().pending().skip(n as int)
            },
            r is Err ==> final(self).rd_spec().pending().len() <= old(
                self).rd_spec().pending().len(),
            r matches Err(e) ==> (e == TlsError::EngineIo || e == TlsError::Protocol || e
                == TlsError::HandshakeAlert),
    {
        self.rd.read_io(&mut self.session)
    }

    /// One record-level outbound operation; see `WriteHalf::write_io`.
    pub fn write_io(&mut self) -> (r: Result<WriteStep, TlsError>)
        requires
            old(self).wf(),
            !old(self).wr_spec().lent(),
        ensures
            final(self).wf(),
            !final(self).wr_spec().lent(),
            final(self).rd_spec() == old(self).rd_spec(),
            final(self).hs_spec() == old(self).hs_spec(),
            final(self).wr_spec().cap() == old(self).wr_spec().cap(),
            r is Ok,
            final(self).wr_spec().pending().len() >= old(self).wr_spec().pending().len(),
            final(self).wr_spec().pending().subrange(0, old(self).wr_spec().pending().len() as int)
                == old(self).wr_spec().pending(),
            old(self).wr_spec().flushing_spec() matches Some(m) ==> r == Ok::<WriteStep, TlsError>(
                WriteStep::Done(m),
            ) && final(self).wr_spec().pending() == old(self).wr_spec().pending(),
            old(self).wr_spec().flushing_spec() is None && old(self).wr_spec().pending().len()
                >= old(self).wr_spec().cap() ==> r == Ok::<WriteStep, TlsError>(WriteStep::Send)
                && final(self).wr_spec().pending() == old(self).wr_spec().pending(),
            old(self).wr_spec().flushing_spec() is None && r == Ok::<WriteStep, TlsError>(
                WriteStep::Send,
            ) && old(self).wr_spec().pending().len() < old(self).wr_spec().cap() ==> (
            final(self).wr_spec().flushing_spec() matches Some(k) && old(
                self).wr_spec().pending().len() + k == final(self).wr_spec().pending().len()),
            r matches Ok(WriteStep::Done(n)) ==> {
                &&& final(self).wr_spec().flushing_spec() is None
                &&& (old(self).wr_spec().flushing_spec() matches Some(m) ==> n == m)
            },
            r == Ok::<WriteStep, TlsError>(WriteStep::Send) ==> final(self).wr_spec().pending().len() > 0,
    {
        self.wr.write_io(&mut self.session)
    }

    /// One handshake step: resume an owed flush, otherwise follow the
    /// handshake driver's decision rule (drain output, then consume input,
    /// until the engine settles, then one final drain).  An end-of-stream
    /// observed while the engine still handshakes fails; completion reports
    /// the cumulative byte counts.
    pub fn handshake(&mut self) -> (r: Result<HandshakeStep, TlsError>)
        requires
            old(self).wf(),
            old(self).quiescent(),
        ensures
            final(self).wf(),
            final(self).quiescent(),
            old(self).wr_spec().flushing_spec() matches Some(m) ==> {
                &&& r == Ok::<HandshakeStep, TlsError>(HandshakeStep::Working)
                &&& final(self).wr_spec().flushing_spec() is None
                &&& final(self).hs_spec().rd() == old(self).hs_spec().rd()
                &&& final(self).hs_spec().wr() == (if old(self).hs_spec().wr() + m <= usize::MAX {
                    old(self).hs_spec().wr() + m
                } else {
                    usize::MAX as int
                })
            },
            r == Ok::<HandshakeStep, TlsError>(HandshakeStep::Recv) || r == Ok::<
                HandshakeStep,
                TlsError,
            >(HandshakeStep::Send) ==> {
                &&& final(self).hs_spec().rd() == old(self).hs_spec().rd()
                &&& final(self).hs_spec().wr() == old(self).hs_spec().wr()
                &&& final(self).hs_spec().saw_eof() == old(self).hs_spec().saw_eof()
            },
            r matches Err(e) ==> (e == TlsError::HandshakeEof || e == TlsError::EngineIo || e
                == TlsError::Protocol || e == TlsError::HandshakeAlert),
            r == Ok::<HandshakeStep, TlsError>(HandshakeStep::Recv) ==> {
                &&& final(self).rd_spec().pending().len() == 0
                &&& !final(self).rd_spec().at_eof()
            },
            r == Ok::<HandshakeStep, TlsError>(HandshakeStep::Send) ==> final(self).wr_spec().pending().len() > 0,
            r matches Ok(HandshakeStep::Done(rd, wr)) ==> {
                &&& rd == final(self).hs_spec().rd()
                &&& wr == final(self).hs_spec().wr()
                &&& final(self).hs_spec().draining()
            },
    {
        if self.wr.flush_owed() {
            match self.wr.write_io(&mut self.session) {
                Ok(WriteStep::Done(n)) => {
                    self.hs.note_write(n);
                    return Ok(HandshakeStep::Working);
                },
                Ok(WriteStep::Send) => { return Ok(HandshakeStep::Send) },
                Err(e) => { return Err(e) },
            }
        }
        let ww = engine::wants_write(&self.session);
        let wr = engine::wants_read(&self.session);
        let hsk = engine::is_handshaking(&self.session);
        let action = match self.hs.advance(ww, wr, hsk) {
            Ok(a) => a,
            Err(e) => { return Err(e) },
        };
        match action {
            HsAction::WriteIo => match self.wr.write_io(&mut self.session) {
                Ok(WriteStep::Done(n)) => {
                    self.hs.note_write(n);
                    Ok(HandshakeStep::Working)
                },
                Ok(WriteStep::Send) => Ok(HandshakeStep::Send),
                Err(e) => Err(e),
            },
            HsAction::ReadIo => match self.rd.read_io(&mut self.session) {
                Ok(ReadStep::Done(n)) => {
                    self.hs.note_read(n);
                    Ok(HandshakeStep::Working)
                },
                Ok(ReadStep::Recv) => Ok(HandshakeStep::Recv),
                Err(e) => Err(e),
            },
            HsAction::Done => {
                let totals = self.hs.totals();
                Ok(HandshakeStep::Done(totals.0, totals.1))
            },
        }
    }

    /// Application-level read; see `ReadHalf::read`.
    pub fn read(&mut self, dest: &mut Vec<u8>) -> (r: Result<ReadStep, TlsError>)
        requires
            old(self).wf(),
            !old(self).rd_spec().lent(),
        ensures
            final(self).wf(),
            !final(self).rd_spec().lent(),
            final(self).wr_spec() == old(self).wr_spec(),
            final(self).hs_spec() == old(self).hs_spec(),
            final(dest)@.len() == old(dest)@.len(),
            r matches Ok(ReadStep::Done(n)) ==> n <= final(dest)@.len(),
            r == Ok::<ReadStep, TlsError>(ReadStep::Recv) ==> {
                &&& final(self).rd_spec().pending().len() == 0
                &&& !final(self).rd_spec().at_eof()
            },
    {
        self.rd.read(&mut self.session, dest)
    }

    /// Application-level write; see `WriteHalf::write`.
    pub fn write(&mut self, data: &[u8]) -> (r: Result<WriteStep, TlsError>)
        requires
            old(self).wf(),
            !old(self).wr_spec().lent(),
            old(self).wr_spec().accepted_spec() matches Some(m) ==> m <= data@.len(),
        ensures
            final(self).wf(),
            !final(self).wr_spec().lent(),
            final(self).rd_spec() == old(self).rd_spec(),
            final(self).hs_spec() == old(self).hs_spec(),
            final(self).wr_spec().cap() == old(self).wr_spec().cap(),
            r is Ok,
            r matches Ok(WriteStep::Done(n)) ==> {
                &&& n <= data@.len()
                &&& final(self).wr_spec().accepted_spec() is None
                &&& (old(self).wr_spec().accepted_spec() matches Some(m) ==> n == m)
            },
            r == Ok::<WriteStep, TlsError>(WriteStep::Send) ==> {
                &&& final(self).wr_spec().pending().len() > 0
                &&& (final(self).wr_spec().accepted_spec() matches Some(m) && m <= data@.len())
                &&& (old(self).wr_spec().accepted_spec() is Some ==> final(
                    self).wr_spec().accepted_spec() == old(self).wr_spec().accepted_spec())
            },
    {
        self.wr.write(&mut self.session, data)
    }

    /// Application-level whole-slice write; see `WriteHalf::write_all`.
    pub fn write_all(&mut self, data: &[u8]) -> (r: Result<WriteAllStep, TlsError>)
        requires
            old(self).wf(),
            !old(self).wr_spec().lent(),
        ensures
            final(self).wf(),
            !final(self).wr_spec().lent(),
            final(self).rd_spec() == old(self).rd_spec(),
            final(self).hs_spec() == old(self).hs_spec(),
            final(self).wr_spec().cap() == old(self).wr_spec().cap(),
            r == Ok::<WriteAllStep, TlsError>(WriteAllStep::Done) ==> !final(self).wr_spec().all_accepted_spec(),
            r == Ok::<WriteAllStep, TlsError>(WriteAllStep::Send) ==> {
                &&& final(self).wr_spec().pending().len() > 0
                &&& final(self).wr_spec().all_accepted_spec()
            },
            r is Err ==> final(self).wr_spec() == old(self).wr_spec(),
            r matches Err(e) ==> e == TlsError::PlainIo,
    {
        self.wr.write_all(&mut self.session, data)
    }
}

} // verus!
