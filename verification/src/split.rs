//! The two independently owned halves of a stream: the inbound driver and
//! facade read on one side, the outbound driver and facade write on the
//! other.  Each half owns its direction's buffer adaptor and driver state
//! outright, so two tasks can hold them with no shared cell; only the engine
//! session is common to both, and it is passed in by the caller for the
//! duration of each synchronous step.
//!
//! Every method is a step: it performs engine work until a real transport
//! operation is needed, then returns which one (`Recv` or `Send`).  The
//! caller performs that one operation through `begin_recv`/`complete_recv`
//! or `begin_send`/`complete_send` and steps again.  A would-block signal
//! from the engine is absorbed here and triggers exactly one such
//! operation; it never reaches the caller as an error.

use vstd::prelude::*;

use crate::TlsError;
use crate::buffer::{RecvBuffer, SendBuffer};
use crate::engine;
use crate::engine::PlainRead;

verus! {

/// Outcome of an inbound step: finished with a byte count, or one transport
/// receive is needed before stepping again.
#[derive(Clone, Copy, Debug, PartialEq, Eq, Structural)]
pub enum ReadStep {
    Done(usize),
    Recv,
}

/// Outcome of an outbound step: finished with a byte count, or one
/// transport send is needed before stepping again.
#[derive(Clone, Copy, Debug, PartialEq, Eq, Structural)]
pub enum WriteStep {
    Done(usize),
    Send,
}

/// Outcome of a whole-slice write step.
#[derive(Clone, Copy, Debug, PartialEq, Eq, Structural)]
pub enum WriteAllStep {
    Done,
    Send,
}

/// Part a stream into its engine session and its two independently owned
/// halves.  The halves share nothing; the session is handed back to the
/// caller, who lends it to whichever half is stepping.  Two tasks driving
/// the two halves must therefore take turns with the session — the
/// non-interleaving discipline the shared-session design documents — but
/// each half's own state needs no discipline at all.
pub fn split(stream: crate::stream::TlsStream) -> (r: (rustls::Connection, ReadHalf, WriteHalf))
    ensures
        r.0 == stream.session_spec(),
        r.1 == stream.rd_spec(),
        r.2 == stream.wr_spec(),
{
    proof {
        stream.lemma_parts();
    }
    let crate::stream::TlsStream { session, rd, wr, hs: _ } = stream;
    (session, rd, wr)
}

/// The read-only half: owns the inbound adaptor.
pub struct ReadHalf {
    rbuf: RecvBuffer,
}

impl ReadHalf {
    /// Raw bytes received and not yet consumed by the engine.
    pub closed spec fn pending(self) -> Seq<u8> {
        self.rbuf.pending()
    }

    /// A zero-length transport receive has been observed.
    pub closed spec fn at_eof(self) -> bool {
        self.rbuf.at_eof_spec()
    }

    /// The inbound storage is owned by an in-flight receive.
    pub closed spec fn lent(self) -> bool {
        self.rbuf.is_lent()
    }

    pub closed spec fn chunk_size(self) -> int {
        self.rbuf.chunk_size()
    }

    pub closed spec fn wf(self) -> bool {
        self.rbuf.wf()
    }

    pub(crate) fn new(chunk: usize) -> (r: ReadHalf)
        requires
            chunk > 0,
        ensures
            r.wf(),
            r.pending() == Seq::<u8>::empty(),
            !r.at_eof(),
            !r.lent(),
            r.chunk_size() == chunk,
    {
        ReadHalf { rbuf: RecvBuffer::new(chunk) }
    }

    /// Whether the inbound storage is away on an in-flight receive.
    pub fn recv_outstanding(&self) -> (r: bool)
        ensures
            r == self.lent(),
    {
        self.rbuf.recv_outstanding()
    }

    /// Hand the inbound storage to one transport receive.
    pub fn begin_recv(&mut self) -> (r: Vec<u8>)
        requires
            old(self).wf(),
            !old(self).lent(),
        ensures
            final(self).wf(),
            final(self).lent(),
            r@.len() == old(self).chunk_size(),
            final(self).pending() == old(self).pending(),
            final(self).at_eof() == old(self).at_eof(),
            final(self).chunk_size() == old(self).chunk_size(),
    {
        self.rbuf.begin_recv()
    }

    /// Return the storage with the received count; zero records
    /// end-of-stream.
    pub fn complete_recv(&mut self, buf: Vec<u8>, n: usize)
        requires
            old(self).wf(),
            old(self).lent(),
            n <= buf@.len(),
            buf@.len() == old(self).chunk_size(),
        ensures
            final(self).wf(),
            !final(self).lent(),
            final(self).pending() == old(self).pending() + buf@.take(n as int),
            final(self).at_eof() == (old(self).at_eof() || n == 0),
            final(self).chunk_size() == old(self).chunk_size(),
    {
        self.rbuf.complete_recv(buf, n)
    }

    /// One record-level inbound operation: feed buffered raw bytes to the
    /// engine and let it decode them.  With nothing buffered and no
    /// end-of-stream seen this asks for exactly one transport receive
    /// instead (the absorbed would-block).  A successful step reports how
    /// many raw bytes the engine took; zero is the end-of-stream
    /// observation.  A peer closure decoded while the engine is still
    /// handshaking is the fatal handshake alert.
    pub fn read_io(&mut self, sess: &mut rustls::Connection) -> (r: Result<ReadStep, TlsError>)
        requires
            old(self).wf(),
            !old(self).lent(),
        ensures
            final(self).wf(),
            !final(self).lent(),
            final(self).chunk_size() == old(self).chunk_size(),
            final(self).at_eof() == old(self).at_eof(),
            r == Ok::<ReadStep, TlsError>(ReadStep::Recv) <==> {
                &&& old(self).pending().len() == 0
                &&& !old(self).at_eof()
            },
            r == Ok::<ReadStep, TlsError>(ReadStep::Recv) ==> final(self).pending() == old(self).pending(),
            r matches Ok(ReadStep::Done(n)) ==> {
                &&& n <= old(self).pending().len()
                &&& final(self).pending() == old(self).pending().skip(n as int)
            },
            r is Err ==> final(self).pending().len() <= old(self).pending().len(),
            r matches Err(e) ==> (e == TlsError::EngineIo || e == TlsError::Protocol || e
                == TlsError::HandshakeAlert),
    {
        if self.rbuf.is_empty() && !self.rbuf.at_eof() {
            return Ok(ReadStep::Recv);
        }
        let taken = match engine::read_tls_from(sess, self.rbuf.pending_slice()) {
            Ok(k) => k,
            Err(e) => { return Err(e) },
        };
        self.rbuf.consume(taken);
        let closed = match engine::process_packets(sess) {
            Ok(c) => c,
            Err(e) => { return Err(e) },
        };
        if closed && engine::is_handshaking(sess) {
            return Err(TlsError::HandshakeAlert);
        }
        Ok(ReadStep::Done(taken))
    }

    /// Facade read: move decoded plaintext into the front of `dest`.  The
    /// first time the engine yields bytes the count is returned as is — a
    /// short read is never padded by waiting for more.  While the engine
    /// has nothing decoded, one record-level operation runs per attempt; a
    /// zero-length transport receive here means the connection ended while
    /// plaintext was still owed, which is fatal.  A closure the peer
    /// announced cleanly inside the protocol is not an error: it surfaces
    /// as a zero count once the pending data is drained.
    pub fn read(&mut self, sess: &mut rustls::Connection, dest: &mut Vec<u8>) -> (r: Result<
        ReadStep,
        TlsError,
    >)
        requires
            old(self).wf(),
            !old(self).lent(),
        ensures
            final(self).wf(),
            !final(self).lent(),
            final(self).chunk_size() == old(self).chunk_size(),
            final(dest)@.len() == old(dest)@.len(),
            r matches Ok(ReadStep::Done(n)) ==> n <= final(dest)@.len(),
            r == Ok::<ReadStep, TlsError>(ReadStep::Recv) ==> {
                &&& final(self).pending().len() == 0
                &&& !final(self).at_eof()
            },
            r matches Err(e) ==> (e == TlsError::EngineIo || e == TlsError::Protocol || e
                == TlsError::HandshakeAlert || e == TlsError::StreamEof || e == TlsError::PlainIo),
    {
        loop
            invariant
                self.wf(),
                !self.lent(),
                self.chunk_size() == old(self).chunk_size(),
                dest@.len() == old(dest)@.len(),
            decreases self.pending().len(),
        {
            match engine::plain_read(sess, dest) {
                PlainRead::Data(n) => { return Ok(ReadStep::Done(n)) },
                PlainRead::Blocked => {},
                PlainRead::Failed => { return Err(TlsError::PlainIo) },
            }
            match self.read_io(sess) {
                Ok(ReadStep::Recv) => { return Ok(ReadStep::Recv) },
                Ok(ReadStep::Done(n)) => {
                    if n == 0 {
                        return Err(TlsError::StreamEof);
                    }
                },
                Err(e) => { return Err(e) },
            }
        }
    }
}

/// Law (would-block absorption, inbound): `read_io` asks for a transport
/// receive exactly while it holds no raw bytes and has seen no
/// end-of-stream (its contract), and after any completed receive that
/// state is gone — bytes are pending, or the zero-length result recorded
/// end-of-stream.  So each inbound would-block costs exactly one transport
/// operation, the very next step reaches the engine, and the caller's
/// retry loop can never issue two receives without a step between them
/// ending in a result.
pub proof fn lemma_read_would_block_absorbed(before: ReadHalf, after: ReadHalf, buf: Seq<u8>, n: int)
    requires
        0 <= n <= buf.len(),
        after.pending() == before.pending() + buf.take(n),
        after.at_eof() == (before.at_eof() || n == 0),
    ensures
        after.pending().len() > 0 || after.at_eof(),
{
}

/// Law (would-block absorption, outbound): `write_io` asks for a transport
/// send only while bytes are pending (its contract), and a send that the
/// transport accepts in full empties the adaptor below any positive bound —
/// so each outbound would-block costs exactly one transport operation
/// before the engine may encode again.
pub proof fn lemma_write_would_block_absorbed(before: WriteHalf, after: WriteHalf, buf: Seq<u8>)
    requires
        after.pending() == buf.skip(buf.len() as int),
        after.cap() == before.cap(),
        before.cap() > 0,
    ensures
        after.pending().len() < after.cap(),
{
}

/// The write-only half: owns the outbound adaptor and the outbound driver
/// state.
pub struct WriteHalf {
    wbuf: SendBuffer,
    flushing: Option<usize>,
    accepted: Option<usize>,
    all_accepted: bool,
}

impl WriteHalf {
    /// Raw bytes the engine has produced that the transport has not
    /// accepted yet.
    pub closed spec fn pending(self) -> Seq<u8> {
        self.wbuf.pending()
    }

    /// The outbound storage is owned by an in-flight send.
    pub closed spec fn lent(self) -> bool {
        self.wbuf.is_lent()
    }

    /// The bound above which engine output waits for a send.
    pub closed spec fn cap(self) -> int {
        self.wbuf.cap_spec()
    }

    /// A record-level write has encoded this many bytes and still owes its
    /// unconditional flush.
    pub closed spec fn flushing_spec(self) -> Option<usize> {
        self.flushing
    }

    /// A facade write has had this many bytes accepted by the engine and is
    /// still draining.
    pub closed spec fn accepted_spec(self) -> Option<usize> {
        self.accepted
    }

    /// A whole-slice write has been accepted by the engine and is still
    /// draining.
    pub closed spec fn all_accepted_spec(self) -> bool {
        self.all_accepted
    }

    pub closed spec fn wf(self) -> bool {
        self.wbuf.wf()
    }

    pub(crate) fn new(cap: usize) -> (r: WriteHalf)
        requires
            cap > 0,
        ensures
            r.wf(),
            r.pending() == Seq::<u8>::empty(),
            !r.lent(),
            r.cap() == cap,
            r.flushing_spec() is None,
            r.accepted_spec() is None,
            !r.all_accepted_spec(),
    {
        WriteHalf { wbuf: SendBuffer::new(cap), flushing: None, accepted: None, all_accepted: false }
    }

    /// Whether the outbound storage is away on an in-flight send.
    pub fn send_outstanding(&self) -> (r: bool)
        ensures
            r == self.lent(),
    {
        self.wbuf.send_outstanding()
    }

    /// Whether a record-level write still owes its unconditional flush.
    pub fn flush_owed(&self) -> (r: bool)
        ensures
            r == (self.flushing_spec() is Some),
    {
        self.flushing.is_some()
    }

    /// Hand all pending outbound bytes to one transport send.
    pub fn begin_send(&mut self) -> (r: Vec<u8>)
        requires
            old(self).wf(),
            !old(self).lent(),
        ensures
            final(self).wf(),
            final(self).lent(),
            r@ == old(self).pending(),
            final(self).pending() == Seq::<u8>::empty(),
            final(self).cap() == old(self).cap(),
            final(self).flushing_spec() == old(self).flushing_spec(),
            final(self).accepted_spec() == old(self).accepted_spec(),
            final(self).all_accepted_spec() == old(self).all_accepted_spec(),
    {
        self.wbuf.begin_send()
    }

    /// Return the storage with the count the transport accepted; the
    /// remainder stays pending, in order.
    pub fn complete_send(&mut self, buf: Vec<u8>, n: usize)
        requires
            old(self).wf(),
            old(self).lent(),
            n <= buf@.len(),
        ensures
            final(self).wf(),
            !final(self).lent(),
            final(self).pending() == buf@.skip(n as int),
            final(self).cap() == old(self).cap(),
            final(self).flushing_spec() == old(self).flushing_spec(),
            final(self).accepted_spec() == old(self).accepted_spec(),
            final(self).all_accepted_spec() == old(self).all_accepted_spec(),
    {
        self.wbuf.complete_send(buf, n)
    }

    /// One record-level outbound operation: let the engine encode pending
    /// output into the adaptor, then ask for the one unconditional send
    /// that keeps encoded bytes from lingering.  A full adaptor asks for a
    /// send first (the absorbed would-block).  The step finishes, with the
    /// encoded count, on the call after its send completes — or at once
    /// when the engine had nothing to encode and nothing is buffered.
    pub fn write_io(&mut self, sess: &mut rustls::Connection) -> (r: Result<WriteStep, TlsError>)
        requires
            old(self).wf(),
            !old(self).lent(),
        ensures
            final(self).wf(),
            !final(self).lent(),
            final(self).cap() == old(self).cap(),
            final(self).accepted_spec() == old(self).accepted_spec(),
            final(self).all_accepted_spec() == old(self).all_accepted_spec(),
            r is Ok,
            final(self).pending().len() >= old(self).pending().len(),
            final(self).pending().subrange(0, old(self).pending().len() as int) == old(
                self).pending(),
            old(self).flushing_spec() matches Some(m) ==> r == Ok::<WriteStep, TlsError>(
                WriteStep::Done(m),
            ) && final(self).pending() == old(self).pending(),
            old(self).flushing_spec() is None && old(self).pending().len() >= old(self).cap()
                ==> r == Ok::<WriteStep, TlsError>(WriteStep::Send) && final(self).pending() == old(
                self).pending() && final(self).flushing_spec() is None,
            old(self).flushing_spec() is None && r == Ok::<WriteStep, TlsError>(WriteStep::Send)
                && old(self).pending().len() < old(self).cap() ==> (
            final(self).flushing_spec() matches Some(k) && old(self).pending().len() + k == final(
                self).pending().len()),
            r matches Ok(WriteStep::Done(n)) ==> {
                &&& final(self).flushing_spec() is None
                &&& (old(self).flushing_spec() matches Some(m) ==> n == m)
                &&& (old(self).flushing_spec() is None ==> n == 0 && final(self).pending().len()
                    == 0 && old(self).pending().len() == 0)
            },
            r == Ok::<WriteStep, TlsError>(WriteStep::Send) ==> final(self).pending().len() > 0,
    {
        match self.flushing {
            Some(n) => {
                self.flushing = None;
                return Ok(WriteStep::Done(n));
            },
            None => {},
        }
        if !self.wbuf.has_room() {
            proof {
                self.wbuf.cap_positive();
            }
            return Ok(WriteStep::Send);
        }
        let mut chunk: Vec<u8> = Vec::new();
        let encoded = engine::write_tls_into(sess, &mut chunk);
        self.wbuf.append(chunk.as_slice());
        if self.wbuf.is_empty() {
            Ok(WriteStep::Done(encoded))
        } else {
            self.flushing = Some(encoded);
            Ok(WriteStep::Send)
        }
    }

    /// Facade write: hand `data` to the engine once — the engine decides
    /// how much it accepts, and that honest count is what the finished step
    /// reports — then drain pending output through record-level writes
    /// until the engine wants no more or a drain moves nothing.
    pub fn write(&mut self, sess: &mut rustls::Connection, data: &[u8]) -> (r: Result<
        WriteStep,
        TlsError,
    >)
        requires
            old(self).wf(),
            !old(self).lent(),
            old(self).accepted_spec() matches Some(m) ==> m <= data@.len(),
        ensures
            final(self).wf(),
            !final(self).lent(),
            final(self).cap() == old(self).cap(),
            final(self).all_accepted_spec() == old(self).all_accepted_spec(),
            r is Ok,
            r matches Ok(WriteStep::Done(n)) ==> {
                &&& n <= data@.len()
                &&& final(self).accepted_spec() is None
                &&& (old(self).accepted_spec() matches Some(m) ==> n == m)
            },
            r == Ok::<WriteStep, TlsError>(WriteStep::Send) ==> {
                &&& final(self).pending().len() > 0
                &&& (final(self).accepted_spec() matches Some(m) && m <= data@.len())
                &&& (old(self).accepted_spec() is Some ==> final(self).accepted_spec() == old(
                    self).accepted_spec())
            },
    {
        if self.accepted.is_none() {
            let n = engine::plain_write(sess, data);
            match engine::plain_flush(sess) {
                Ok(_) => {},
                Err(e) => { return Err(e) },
            }
            self.accepted = Some(n);
        }
        loop
            invariant
                self.wf(),
                !self.lent(),
                self.cap() == old(self).cap(),
                self.all_accepted_spec() == old(self).all_accepted_spec(),
                self.accepted_spec() matches Some(m) && m <= data@.len(),
                old(self).accepted_spec() is Some ==> self.accepted_spec() == old(
                    self).accepted_spec(),
            decreases (if self.flushing_spec() is Some { 1int } else { 0int }),
        {
            if self.flushing.is_none() && !engine::wants_write(sess) {
                let n = match self.accepted {
                    Some(n) => n,
                    None => 0,
                };
                self.accepted = None;
                return Ok(WriteStep::Done(n));
            }
            match self.write_io(sess) {
                Ok(WriteStep::Send) => { return Ok(WriteStep::Send) },
                Ok(WriteStep::Done(moved)) => {
                    if moved == 0 {
                        let n = match self.accepted {
                            Some(n) => n,
                            None => 0,
                        };
                        self.accepted = None;
                        return Ok(WriteStep::Done(n));
                    }
                },
                Err(e) => { return Err(e) },
            }
        }
    }

    /// Facade whole-slice write: the engine's guaranteed-full-write
    /// primitive accepts the entire slice before the drain phase, so
    /// success never hides a partial acceptance; on failure the error is
    /// reported and nothing is silently dropped.
    pub fn write_all(&mut self, sess: &mut rustls::Connection, data: &[u8]) -> (r: Result<
        WriteAllStep,
        TlsError,
    >)
        requires
            old(self).wf(),
            !old(self).lent(),
        ensures
            final(self).wf(),
            !final(self).lent(),
            final(self).cap() == old(self).cap(),
            final(self).accepted_spec() == old(self).accepted_spec(),
            r == Ok::<WriteAllStep, TlsError>(WriteAllStep::Done) ==> !final(self).all_accepted_spec(),
            r == Ok::<WriteAllStep, TlsError>(WriteAllStep::Send) ==> {
                &&& final(self).pending().len() > 0
                &&& final(self).all_accepted_spec()
            },
            r is Err ==> *final(self) == *old(self),
            r matches Err(e) ==> e == TlsError::PlainIo,
    {
        if !self.all_accepted {
            match engine::plain_write_all(sess, data) {
                Ok(_) => {},
                Err(e) => { return Err(e) },
            }
            match engine::plain_flush(sess) {
                Ok(_) => {},
                Err(e) => { return Err(e) },
            }
            self.all_accepted = true;
        }
        loop
            invariant
                self.wf(),
                !self.lent(),
                self.cap() == old(self).cap(),
                self.accepted_spec() == old(self).accepted_spec(),
                self.all_accepted_spec(),
            decreases (if self.flushing_spec() is Some { 1int } else { 0int }),
        {
            if self.flushing.is_none() && !engine::wants_write(sess) {
                self.all_accepted = false;
                return Ok(WriteAllStep::Done);
            }
            match self.write_io(sess) {
                Ok(WriteStep::Send) => { return Ok(WriteAllStep::Send) },
                Ok(WriteStep::Done(moved)) => {
                    if moved == 0 {
                        self.all_accepted = false;
                        return Ok(WriteAllStep::Done);
                    }
                },
                Err(e) => { return Err(e) },
            }
        }
    }
}

} // verus!
