//! The two buffer adaptors: bounded byte stores that let the synchronous
//! protocol engine read and write against plain memory while the real
//! transport I/O happens in discrete buffer-owning operations.
//!
//! A transport operation borrows storage by value: `begin_recv`/`begin_send`
//! move a `Vec<u8>` out of the adaptor and mark it lent, and only
//! `complete_recv`/`complete_send` accept it back together with the byte
//! count the transport reported.  While the storage is lent the adaptor
//! cannot grow, move or otherwise touch it, which is exactly the stability
//! the kernel-buffer-ownership contract demands.

use vstd::prelude::*;

verus! {

/// Inbound adaptor: ciphertext received from the transport that the engine
/// has not consumed yet, plus the scratch storage handed to the transport
/// for the next receive operation.
pub struct RecvBuffer {
    data: Vec<u8>,
    pos: usize,
    scratch: Vec<u8>,
    chunk: usize,
    lent: bool,
    eof: bool,
}

impl RecvBuffer {
    /// Bytes received from the transport and not yet consumed by the engine,
    /// oldest first.
    pub closed spec fn pending(self) -> Seq<u8> {
        self.data@.skip(self.pos as int)
    }

    /// A zero-length receive has been observed: the transport is at
    /// end-of-stream.
    pub closed spec fn at_eof_spec(self) -> bool {
        self.eof
    }

    /// The scratch storage is currently owned by an in-flight receive.
    pub closed spec fn is_lent(self) -> bool {
        self.lent
    }

    /// Size of the storage handed to each receive operation.
    pub closed spec fn chunk_size(self) -> int {
        self.chunk as int
    }

    pub closed spec fn wf(self) -> bool {
        &&& self.pos <= self.data@.len()
        &&& self.chunk > 0
        &&& !self.lent ==> self.scratch@.len() == self.chunk
    }

    /// A fresh adaptor: nothing pending, no end-of-stream seen, scratch
    /// storage of `chunk` bytes ready for the first receive.
    pub fn new(chunk: usize) -> (r: RecvBuffer)
        requires
            chunk > 0,
        ensures
            r.wf(),
            r.pending() == Seq::<u8>::empty(),
            !r.at_eof_spec(),
            !r.is_lent(),
            r.chunk_size() == chunk,
    {
        let mut scratch: Vec<u8> = Vec::new();
        scratch.resize(chunk, 0u8);
        let data: Vec<u8> = Vec::new();
        proof {
            assert(Seq::<u8>::empty() =~= data@.skip(0));
        }
        RecvBuffer { data, pos: 0, scratch, chunk, lent: false, eof: false }
    }

    pub fn pending_len(&self) -> (r: usize)
        requires
            self.wf(),
        ensures
            r == self.pending().len(),
    {
        self.data.len() - self.pos
    }

    pub fn is_empty(&self) -> (r: bool)
        requires
            self.wf(),
        ensures
            r == (self.pending().len() == 0),
    {
        self.data.len() == self.pos
    }

    pub fn at_eof(&self) -> (r: bool)
        ensures
            r == self.at_eof_spec(),
    {
        self.eof
    }

    pub fn recv_outstanding(&self) -> (r: bool)
        ensures
            r == self.is_lent(),
    {
        self.lent
    }

    /// The pending bytes, for the engine to read from.
    pub fn pending_slice(&self) -> (r: &[u8])
        requires
            self.wf(),
        ensures
            r@ == self.pending(),
    {
        vstd::slice::slice_subrange(self.data.as_slice(), self.pos, self.data.len())
    }

    /// The engine consumed the first `n` pending bytes.
    pub fn consume(&mut self, n: usize)
        requires
            old(self).wf(),
            n <= old(self).pending().len(),
        ensures
            final(self).wf(),
            final(self).pending() == old(self).pending().skip(n as int),
            final(self).at_eof_spec() == old(self).at_eof_spec(),
            final(self).is_lent() == old(self).is_lent(),
            final(self).chunk_size() == old(self).chunk_size(),
    {
        let len: usize = self.data.len();
        proof {
            assert(old(self).pending().len() == len - self.pos);
        }
        self.pos = self.pos + n;
        proof {
            assert(final(self).pending() =~= old(self).pending().skip(n as int));
        }
    }

    /// Hand the scratch storage to one transport receive operation.  Until
    /// `complete_recv` returns it, the adaptor holds no claim on it.
    pub fn begin_recv(&mut self) -> (r: Vec<u8>)
        requires
            old(self).wf(),
            !old(self).is_lent(),
        ensures
            final(self).wf(),
            final(self).is_lent(),
            r@.len() == old(self).chunk_size(),
            final(self).pending() == old(self).pending(),
            final(self).at_eof_spec() == old(self).at_eof_spec(),
            final(self).chunk_size() == old(self).chunk_size(),
    {
        let mut out: Vec<u8> = Vec::new();
        core::mem::swap(&mut out, &mut self.scratch);
        self.lent = true;
        out
    }

    /// Take the storage back from a finished receive that delivered the
    /// first `n` bytes of `buf`; a count of zero records end-of-stream.
    /// Consumed bytes are compacted away here, while no operation is
    /// outstanding against the storage.
    pub fn complete_recv(&mut self, buf: Vec<u8>, n: usize)
        requires
            old(self).wf(),
            old(self).is_lent(),
            n <= buf@.len(),
            buf@.len() == old(self).chunk_size(),
        ensures
            final(self).wf(),
            !final(self).is_lent(),
            final(self).pending() == old(self).pending() + buf@.take(n as int),
            final(self).at_eof_spec() == (old(self).at_eof_spec() || n == 0),
            final(self).chunk_size() == old(self).chunk_size(),
    {
        let mut kept: Vec<u8> = Vec::new();
        let mut i: usize = self.pos;
        while i < self.data.len()
            invariant
                self == old(self),
                old(self).pos <= i <= self.data@.len(),
                kept@ == self.data@.subrange(old(self).pos as int, i as int),
            decreases self.data@.len() - i,
        {
            kept.push(self.data[i]);
            i = i + 1;
        }
        let mut j: usize = 0;
        while j < n
            invariant
                n <= buf@.len(),
                j <= n,
                kept@ == old(self).pending() + buf@.take(j as int),
            decreases n - j,
        {
            proof {
                assert(buf@.take(j + 1) =~= buf@.take(j as int).push(buf@[j as int]));
            }
            kept.push(buf[j]);
            j = j + 1;
        }
        if n == 0 {
            self.eof = true;
        }
        self.data = kept;
        self.pos = 0;
        self.scratch = buf;
        self.lent = false;
        proof {
            assert(final(self).pending() =~= old(self).pending() + buf@.take(n as int));
        }
    }
}

/// Outbound adaptor: ciphertext the engine has produced that the transport
/// has not accepted yet.  The store is bounded: once `cap` bytes are
/// pending, further engine writes must wait for a send to make room, which
/// is the outbound would-block condition.
pub struct SendBuffer {
    data: Vec<u8>,
    cap: usize,
    lent: bool,
}

impl SendBuffer {
    /// Bytes produced by the engine and not yet accepted by the transport,
    /// oldest first.
    pub closed spec fn pending(self) -> Seq<u8> {
        self.data@
    }

    /// The pending bytes are currently owned by an in-flight send.
    pub closed spec fn is_lent(self) -> bool {
        self.lent
    }

    /// The bound above which engine writes signal would-block.
    pub closed spec fn cap_spec(self) -> int {
        self.cap as int
    }

    pub closed spec fn wf(self) -> bool {
        &&& self.cap > 0
        &&& self.lent ==> self.data@.len() == 0
    }

    /// A well-formed store has a positive bound.
    pub proof fn cap_positive(&self)
        requires
            self.wf(),
        ensures
            self.cap_spec() > 0,
    {
    }

    pub fn new(cap: usize) -> (r: SendBuffer)
        requires
            cap > 0,
        ensures
            r.wf(),
            r.pending() == Seq::<u8>::empty(),
            !r.is_lent(),
            r.cap_spec() == cap,
    {
        SendBuffer { data: Vec::new(), cap, lent: false }
    }

    pub fn pending_len(&self) -> (r: usize)
        ensures
            r == self.pending().len(),
    {
        self.data.len()
    }

    pub fn is_empty(&self) -> (r: bool)
        ensures
            r == (self.pending().len() == 0),
    {
        self.data.len() == 0
    }

    pub fn send_outstanding(&self) -> (r: bool)
        ensures
            r == self.is_lent(),
    {
        self.lent
    }

    /// Whether the engine may append more output without waiting for a send.
    pub fn has_room(&self) -> (r: bool)
        ensures
            r == (self.pending().len() < self.cap_spec() && !self.is_lent()),
    {
        self.data.len() < self.cap && !self.lent
    }

    /// Append engine output.  Growth happens only here, and only while no
    /// send operation is outstanding against the storage.
    pub fn append(&mut self, chunk: &[u8])
        requires
            old(self).wf(),
            !old(self).is_lent(),
        ensures
            final(self).wf(),
            final(self).pending() == old(self).pending() + chunk@,
            !final(self).is_lent(),
            final(self).cap_spec() == old(self).cap_spec(),
    {
        let mut i: usize = 0;
        while i < chunk.len()
            invariant
                i <= chunk@.len(),
                self.data@ == old(self).data@ + chunk@.take(i as int),
                self.cap == old(self).cap,
                self.lent == old(self).lent,
            decreases chunk@.len() - i,
        {
            proof {
                assert(chunk@.take(i + 1) =~= chunk@.take(i as int).push(chunk@[i as int]));
            }
            self.data.push(chunk[i]);
            i = i + 1;
        }
        proof {
            assert(chunk@.take(chunk@.len() as int) =~= chunk@);
        }
    }

    /// Hand all pending bytes to one transport send operation.  Until
    /// `complete_send` returns the storage, the adaptor holds no claim on
    /// it and accepts no engine output.
    pub fn begin_send(&mut self) -> (r: Vec<u8>)
        requires
            old(self).wf(),
            !old(self).is_lent(),
        ensures
            final(self).wf(),
            final(self).is_lent(),
            r@ == old(self).pending(),
            final(self).pending() == Seq::<u8>::empty(),
            final(self).cap_spec() == old(self).cap_spec(),
    {
        let mut out: Vec<u8> = Vec::new();
        core::mem::swap(&mut out, &mut self.data);
        self.lent = true;
        proof {
            assert(final(self).pending() =~= Seq::<u8>::empty());
        }
        out
    }

    /// Take the storage back from a finished send that accepted the first
    /// `n` bytes of `buf`.  The remainder stays pending, in order: a partial
    /// send is retried by the driver, never dropped.
    pub fn complete_send(&mut self, buf: Vec<u8>, n: usize)
        requires
            old(self).wf(),
            old(self).is_lent(),
            n <= buf@.len(),
        ensures
            final(self).wf(),
            !final(self).is_lent(),
            final(self).pending() == buf@.skip(n as int),
            final(self).cap_spec() == old(self).cap_spec(),
    {
        let mut kept: Vec<u8> = Vec::new();
        let mut i: usize = n;
        while i < buf.len()
            invariant
                n <= i <= buf@.len(),
                kept@ == buf@.subrange(n as int, i as int),
            decreases buf@.len() - i,
        {
            kept.push(buf[i]);
            i = i + 1;
        }
        self.data = kept;
        self.lent = false;
        proof {
            assert(final(self).pending() =~= buf@.skip(n as int));
        }
    }
}

} // verus!
