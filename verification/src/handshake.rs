//! The handshake driver's decision rule, as a pure state machine over the
//! engine's three flags.  The stream consults it between record-level
//! operations; because it is plain data, its guarantees hold for any engine
//! behaviour, and a test can drive it with scripted flags.

use vstd::prelude::*;

use crate::TlsError;

verus! {

/// What the handshake driver asks for next.
#[derive(Clone, Copy, Debug, PartialEq, Eq, Structural)]
pub enum HsAction {
    /// Encode and send pending engine output once.
    WriteIo,
    /// Receive and decode raw bytes once.
    ReadIo,
    /// The handshake is settled and the final output drain is finished.
    Done,
}

/// The decision rule.  While the engine is handshaking: drain output first;
/// with no output owed, an observed end-of-stream is fatal (an incomplete
/// handshake never passes as success); otherwise consume input.  Once the
/// engine settles, one final unconditional output drain runs, then the
/// driver is done.
pub open spec fn hs_decide(draining: bool, eof: bool, wants_write: bool, wants_read: bool, handshaking: bool) -> Result<
    HsAction,
    TlsError,
> {
    if draining || !handshaking {
        if wants_write {
            Ok(HsAction::WriteIo)
        } else {
            Ok(HsAction::Done)
        }
    } else if wants_write {
        Ok(HsAction::WriteIo)
    } else if eof {
        Err(TlsError::HandshakeEof)
    } else {
        // Still handshaking and nothing owed outward: whether or not the
        // engine reports wanting input, only more input can make progress.
        Ok(HsAction::ReadIo)
    }
}

/// Handshake driver state: cumulative byte counts for diagnostics, whether
/// a zero-length receive has been observed, and whether the engine has
/// settled and the driver has moved to the final output drain.
pub struct Handshaker {
    rdlen: usize,
    wrlen: usize,
    eof: bool,
    draining: bool,
}

impl Handshaker {
    /// Cumulative bytes read, saturating.
    pub closed spec fn rd(self) -> int {
        self.rdlen as int
    }

    /// Cumulative bytes written, saturating.
    pub closed spec fn wr(self) -> int {
        self.wrlen as int
    }

    /// A record-level read has reported a zero-length transport receive.
    pub closed spec fn saw_eof(self) -> bool {
        self.eof
    }

    /// The engine has been observed settled; only the final output drain
    /// remains.
    pub closed spec fn draining(self) -> bool {
        self.draining
    }

    pub fn new() -> (r: Handshaker)
        ensures
            r.rd() == 0,
            r.wr() == 0,
            !r.saw_eof(),
            !r.draining(),
    {
        Handshaker { rdlen: 0, wrlen: 0, eof: false, draining: false }
    }

    /// Decide the next action from the engine's current flags, following
    /// `hs_decide` exactly; observing a settled engine moves the driver to
    /// the final drain, and nothing else changes.
    pub fn advance(&mut self, wants_write: bool, wants_read: bool, handshaking: bool) -> (r:
        Result<HsAction, TlsError>)
        ensures
            r == hs_decide(
                old(self).draining(),
                old(self).saw_eof(),
                wants_write,
                wants_read,
                handshaking,
            ),
            final(self).draining() == (old(self).draining() || !handshaking),
            final(self).saw_eof() == old(self).saw_eof(),
            final(self).rd() == old(self).rd(),
            final(self).wr() == old(self).wr(),
    {
        if self.draining || !handshaking {
            self.draining = true;
            if wants_write {
                Ok(HsAction::WriteIo)
            } else {
                Ok(HsAction::Done)
            }
        } else if wants_write {
            Ok(HsAction::WriteIo)
        } else if self.eof {
            Err(TlsError::HandshakeEof)
        } else {
            Ok(HsAction::ReadIo)
        }
    }

    /// Record the result of one record-level read; a zero-length result is
    /// the end-of-stream observation.
    pub fn note_read(&mut self, n: usize)
        ensures
            final(self).rd() == if old(self).rd() + n <= usize::MAX {
                old(self).rd() + n
            } else {
                usize::MAX as int
            },
            final(self).saw_eof() == (old(self).saw_eof() || n == 0),
            final(self).wr() == old(self).wr(),
            final(self).draining() == old(self).draining(),
    {
        if n == 0 {
            self.eof = true;
        }
        if self.rdlen <= usize::MAX - n {
            self.rdlen = self.rdlen + n;
        } else {
            self.rdlen = usize::MAX;
        }
    }

    /// Record the result of one record-level write.
    pub fn note_write(&mut self, n: usize)
        ensures
            final(self).wr() == if old(self).wr() + n <= usize::MAX {
                old(self).wr() + n
            } else {
                usize::MAX as int
            },
            final(self).saw_eof() == old(self).saw_eof(),
            final(self).rd() == old(self).rd(),
            final(self).draining() == old(self).draining(),
    {
        if self.wrlen <= usize::MAX - n {
            self.wrlen = self.wrlen + n;
        } else {
            self.wrlen = usize::MAX;
        }
    }

    pub fn totals(&self) -> (r: (usize, usize))
        ensures
            r.0 == self.rd(),
            r.1 == self.wr(),
    {
        (self.rdlen, self.wrlen)
    }
}

/// The decision rule applied to a whole script of engine flag readings
/// `(wants_write, wants_read, handshaking)`: the i-th answer is the rule's
/// response to the i-th reading, with the drain phase latched as soon as a
/// settled engine is observed.
pub open spec fn hs_run(draining: bool, eof: bool, flags: Seq<(bool, bool, bool)>) -> Seq<
    Result<HsAction, TlsError>,
>
    decreases flags.len(),
{
    if flags.len() == 0 {
        Seq::empty()
    } else {
        seq![hs_decide(draining, eof, flags[0].0, flags[0].1, flags[0].2)] + hs_run(
            draining || !flags[0].2,
            eof,
            flags.drop_first(),
        )
    }
}

/// The flag readings of an engine that reports handshaking for exactly `n`
/// write-then-read cycles and then settles with nothing left to send.
pub open spec fn cycle_flags(n: nat) -> Seq<(bool, bool, bool)>
    decreases n,
{
    if n == 0 {
        seq![(false, false, false)]
    } else {
        seq![(true, false, true), (false, true, true)] + cycle_flags((n - 1) as nat)
    }
}

/// The driver's answers to `cycle_flags(n)`: one write and one read per
/// cycle, then completion.
pub open spec fn cycle_answers(n: nat) -> Seq<Result<HsAction, TlsError>>
    decreases n,
{
    if n == 0 {
        seq![Ok(HsAction::Done)]
    } else {
        seq![Ok(HsAction::WriteIo), Ok(HsAction::ReadIo)] + cycle_answers((n - 1) as nat)
    }
}

/// Law: against an engine that reports handshaking for exactly `n`
/// write-then-read cycles and then settles, the driver performs exactly
/// `n` record-level writes and `n` record-level reads, in that order, and
/// then reports completion — it never fails and never loops further.
pub proof fn lemma_handshake_completes_in_n_cycles(n: nat)
    ensures
        hs_run(false, false, cycle_flags(n)) == cycle_answers(n),
    decreases n,
{
    if n == 0 {
        let flags = cycle_flags(0);
        assert(flags =~= seq![(false, false, false)]);
        assert(flags.drop_first() =~= Seq::<(bool, bool, bool)>::empty());
        assert(hs_run(true, false, flags.drop_first()) =~= Seq::<
            Result<HsAction, TlsError>,
        >::empty());
        assert(hs_run(false, false, flags) =~= cycle_answers(0));
    } else {
        lemma_handshake_completes_in_n_cycles((n - 1) as nat);
        let flags = cycle_flags(n);
        let tail1 = flags.drop_first();
        let tail2 = tail1.drop_first();
        assert(flags[0] == (true, false, true));
        assert(tail1 =~= seq![(false, true, true)] + cycle_flags((n - 1) as nat));
        assert(tail1[0] == (false, true, true));
        assert(tail2 =~= cycle_flags((n - 1) as nat));
        assert(hs_run(false, false, flags) =~= seq![
            Ok::<HsAction, TlsError>(HsAction::WriteIo),
        ] + hs_run(false, false, tail1));
        assert(hs_run(false, false, tail1) =~= seq![
            Ok::<HsAction, TlsError>(HsAction::ReadIo),
        ] + hs_run(false, false, tail2));
        assert(cycle_answers(n) =~= seq![
            Ok::<HsAction, TlsError>(HsAction::WriteIo),
            Ok::<HsAction, TlsError>(HsAction::ReadIo),
        ] + cycle_answers((n - 1) as nat));
        assert(hs_run(false, false, flags) =~= cycle_answers(n));
    }
}

/// Law: an end-of-stream observed while the engine still reports
/// handshaking, once no output is owed, is the fatal incomplete-handshake
/// error — never success and never a further action.
pub proof fn lemma_handshake_eof_is_fatal(draining: bool, wants_read: bool)
    requires
        !draining,
    ensures
        hs_decide(draining, true, false, wants_read, true) == Err::<HsAction, TlsError>(
            TlsError::HandshakeEof,
        ),
{
}

/// Law: the driver never reports completion while the engine is still
/// handshaking and the driver has not yet seen it settle.
pub proof fn lemma_no_done_while_handshaking(
    draining: bool,
    eof: bool,
    wants_write: bool,
    wants_read: bool,
)
    requires
        !draining,
    ensures
        hs_decide(draining, eof, wants_write, wants_read, true) != Ok::<HsAction, TlsError>(
            HsAction::Done,
        ),
{
}

/// Law: one handshake cycle.  While the engine is handshaking and holds
/// output, the driver writes; with the output drained and no end-of-stream
/// seen, it reads; the moment the engine settles it drains any last output
/// and then, with nothing left to send, reports completion without error.
pub proof fn lemma_handshake_cycle(eof: bool, wants_read: bool)
    ensures
        hs_decide(false, eof, true, wants_read, true) == Ok::<HsAction, TlsError>(
            HsAction::WriteIo,
        ),
        !eof ==> hs_decide(false, eof, false, wants_read, true) == Ok::<HsAction, TlsError>(
            HsAction::ReadIo,
        ),
        hs_decide(false, eof, true, wants_read, false) == Ok::<HsAction, TlsError>(
            HsAction::WriteIo,
        ),
        hs_decide(false, eof, false, wants_read, false) == Ok::<HsAction, TlsError>(HsAction::Done),
        hs_decide(true, eof, false, wants_read, true) == Ok::<HsAction, TlsError>(HsAction::Done),
{
}

} // verus!
