//! The usage-quota governor: monthly read and write counts held against
//! fixed ceilings.
//!
//! The counts belong to one calendar month, the window. The first check made
//! in another month starts them again from zero. The ceilings are a gate:
//! they are tested before a call is attempted, and a count is raised only
//! after the call has succeeded.

use crate::clock::utc_now;
use crate::clock::CalendarMonth;
use vstd::prelude::*;
use vstd::string::StringExecFns;

verus! {

/// The two sides of the quota.
#[derive(Clone, Copy, Debug, PartialEq, Eq, Structural)]
pub enum QuotaKind {
    Read,
    Write,
}

/// The refusal of the governor: the named side of the quota is used up for
/// the current month.
#[derive(Clone, Copy, Debug, PartialEq, Eq, Structural)]
pub struct QuotaExceeded {
    pub kind: QuotaKind,
}

impl QuotaExceeded {
    /// The text of the refusal.
    pub open spec fn spec_message(self) -> Seq<char> {
        match self.kind {
            QuotaKind::Read => "Monthly read limit exceeded"@,
            QuotaKind::Write => "Monthly write limit exceeded"@,
        }
    }

    /// The refusal in words.
    pub fn message(&self) -> (text: String)
        ensures
            text@ == self.spec_message(),
    {
        match self.kind {
            QuotaKind::Read => String::from_str("Monthly read limit exceeded"),
            QuotaKind::Write => String::from_str("Monthly write limit exceeded"),
        }
    }
}

/// The mathematical state of the governor.
pub struct QuotaState {
    pub read_count: nat,
    pub write_count: nat,
    pub window: CalendarMonth,
    pub read_ceiling: nat,
    pub write_ceiling: nat,
}

impl QuotaState {
    /// The state after the window has been held against the month `now`:
    /// unchanged within the window, otherwise both counts at zero and the
    /// window moved to `now`.
    pub open spec fn rolled_over(self, now: CalendarMonth) -> QuotaState {
        if now == self.window {
            self
        } else {
            QuotaState { read_count: 0, write_count: 0, window: now, ..self }
        }
    }

    /// The verdict of the read-side gate on this state.
    pub open spec fn read_gate(self) -> Result<(), QuotaExceeded> {
        if self.read_count >= self.read_ceiling {
            Err(QuotaExceeded { kind: QuotaKind::Read })
        } else {
            Ok(())
        }
    }

    /// The verdict of the write-side gate on this state.
    pub open spec fn write_gate(self) -> Result<(), QuotaExceeded> {
        if self.write_count >= self.write_ceiling {
            Err(QuotaExceeded { kind: QuotaKind::Write })
        } else {
            Ok(())
        }
    }

    /// The state after `n` more successful reads.
    pub open spec fn after_reads(self, n: nat) -> QuotaState {
        QuotaState { read_count: self.read_count + n, ..self }
    }

    /// The state after `n` more successful writes.
    pub open spec fn after_writes(self, n: nat) -> QuotaState {
        QuotaState { write_count: self.write_count + n, ..self }
    }

    /// Whether counts and ceilings are numbers that the governor can hold.
    pub open spec fn fits(self) -> bool {
        &&& self.read_count <= u32::MAX
        &&& self.write_count <= u32::MAX
        &&& self.read_ceiling <= u32::MAX
        &&& self.write_ceiling <= u32::MAX
    }

    /// Whether neither count has passed its ceiling.
    pub open spec fn within_ceilings(self) -> bool {
        self.read_count <= self.read_ceiling && self.write_count <= self.write_ceiling
    }

    /// Reads left in the window; zero once the count has reached or passed
    /// the ceiling.
    pub open spec fn remaining_reads(self) -> nat {
        if self.read_count <= self.read_ceiling {
            (self.read_ceiling - self.read_count) as nat
        } else {
            0
        }
    }

    /// Writes left in the window; zero once the count has reached or passed
    /// the ceiling.
    pub open spec fn remaining_writes(self) -> nat {
        if self.write_count <= self.write_ceiling {
            (self.write_ceiling - self.write_count) as nat
        } else {
            0
        }
    }
}

/// The governor. It is a plain value: whoever shares it between tasks puts it
/// behind one lock, so that a check, with the reset it may bring, is never
/// interleaved with an increment.
#[derive(Debug)]
pub struct RateLimiter {
    read_count: u32,
    write_count: u32,
    last_reset: CalendarMonth,
    max_reads: u32,
    max_writes: u32,
}

impl View for RateLimiter {
    type V = QuotaState;

    closed spec fn view(&self) -> QuotaState {
        QuotaState {
            read_count: self.read_count as nat,
            write_count: self.write_count as nat,
            window: self.last_reset,
            read_ceiling: self.max_reads as nat,
            write_ceiling: self.max_writes as nat,
        }
    }
}

impl RateLimiter {
    /// The state of a governor holds numbers of 32 bits: a count below its
    /// ceiling can always be raised.
    pub proof fn lemma_fits(&self)
        ensures
            self@.fits(),
    {
    }

    /// A governor with the given ceilings and nothing used yet, whose window
    /// is the month that the system clock shows.
    pub fn new(max_reads: u32, max_writes: u32) -> (limiter: Self)
        ensures
            limiter@.read_count == 0,
            limiter@.write_count == 0,
            limiter@.read_ceiling == max_reads,
            limiter@.write_ceiling == max_writes,
            1 <= limiter@.window.month <= 12,
    {
        let now = utc_now();
        Self::with_window(max_reads, max_writes, now.month)
    }

    /// A governor with the given ceilings and nothing used yet, whose window
    /// is `window`.
    pub fn with_window(max_reads: u32, max_writes: u32, window: CalendarMonth) -> (limiter: Self)
        ensures
            limiter@ == (QuotaState {
                read_count: 0,
                write_count: 0,
                window,
                read_ceiling: max_reads as nat,
                write_ceiling: max_writes as nat,
            }),
    {
        RateLimiter {
            read_count: 0,
            write_count: 0,
            last_reset: window,
            max_reads,
            max_writes,
        }
    }

    /// The quota check, at the month `now`. A month other than the stored
    /// window first resets both counts and moves the window. Then the call
    /// is refused exactly when the read count has reached its ceiling. The
    /// write side is not looked at here: see `check_write_limit`.
    pub fn check_and_update_limits_at(&mut self, now: CalendarMonth) -> (verdict: Result<
        (),
        QuotaExceeded,
    >)
        ensures
            final(self)@ == old(self)@.rolled_over(now),
            verdict == final(self)@.read_gate(),
    {
        if now.month != self.last_reset.month || now.year != self.last_reset.year {
            self.read_count = 0;
            self.write_count = 0;
            self.last_reset = now;
        }
        if self.read_count >= self.max_reads {
            return Err(QuotaExceeded { kind: QuotaKind::Read });
        }
        Ok(())
    }

    /// The quota check, at the month that the system clock shows. Whatever
    /// that month is, the state is the old one rolled over to it and the
    /// verdict is the read-side gate's on the new state.
    pub fn check_and_update_limits(&mut self) -> (verdict: Result<(), QuotaExceeded>)
        ensures
            exists|now: CalendarMonth| #[trigger]
                old(self)@.rolled_over(now) == final(self)@ && 1 <= now.month <= 12,
            verdict == final(self)@.read_gate(),
    {
        let now = utc_now();
        let verdict = self.check_and_update_limits_at(now.month);
        assert(old(self)@.rolled_over(now.month) == self@);
        verdict
    }

    /// The write-side gate: refuses exactly when the write count has reached
    /// its ceiling. It changes nothing, and is asked after
    /// `check_and_update_limits` by a caller that is about to write.
    pub fn check_write_limit(&self) -> (verdict: Result<(), QuotaExceeded>)
        ensures
            verdict == self@.write_gate(),
    {
        if self.write_count >= self.max_writes {
            return Err(QuotaExceeded { kind: QuotaKind::Write });
        }
        Ok(())
    }

    /// Counts one successful read.
    pub fn increment_read(&mut self)
        requires
            old(self)@.read_count < u32::MAX,
        ensures
            final(self)@ == old(self)@.after_reads(1),
    {
        self.read_count = self.read_count + 1;
    }

    /// Counts one successful write.
    pub fn increment_write(&mut self)
        requires
            old(self)@.write_count < u32::MAX,
        ensures
            final(self)@ == old(self)@.after_writes(1),
    {
        self.write_count = self.write_count + 1;
    }

    /// Reads counted in the current window.
    pub fn read_count(&self) -> (count: u32)
        ensures
            count == self@.read_count,
    {
        self.read_count
    }

    /// Writes counted in the current window.
    pub fn write_count(&self) -> (count: u32)
        ensures
            count == self@.write_count,
    {
        self.write_count
    }

    /// The month that the counts belong to.
    pub fn window(&self) -> (window: CalendarMonth)
        ensures
            window == self@.window,
    {
        self.last_reset
    }

    /// Reads left in the current window.
    pub fn get_remaining_reads(&self) -> (left: u32)
        ensures
            left == self@.remaining_reads(),
    {
        if self.read_count <= self.max_reads {
            self.max_reads - self.read_count
        } else {
            0
        }
    }

    /// Writes left in the current window.
    pub fn get_remaining_writes(&self) -> (left: u32)
        ensures
            left == self@.remaining_writes(),
    {
        if self.write_count <= self.max_writes {
            self.max_writes - self.write_count
        } else {
            0
        }
    }
}

/// Read accounting. From any state, as long as `n` further reads stay within
/// the ceiling, what remains after them is the ceiling less the count; and
/// `n` reads counted one by one come to the same state as `n` counted at
/// once.
pub proof fn lemma_read_accounting(q: QuotaState, n: nat)
    requires
        q.read_count + n <= q.read_ceiling,
    ensures
        q.after_reads(n).remaining_reads() == q.read_ceiling - (q.read_count + n),
        q.after_reads(n).read_count == q.read_count + n,
        n > 0 ==> q.after_reads(n) == q.after_reads((n - 1) as nat).after_reads(1),
        q.after_reads(0) == q,
{
}

/// Write accounting, as `lemma_read_accounting` for the other side.
pub proof fn lemma_write_accounting(q: QuotaState, n: nat)
    requires
        q.write_count + n <= q.write_ceiling,
    ensures
        q.after_writes(n).remaining_writes() == q.write_ceiling - (q.write_count + n),
        q.after_writes(n).write_count == q.write_count + n,
        n > 0 ==> q.after_writes(n) == q.after_writes((n - 1) as nat).after_writes(1),
        q.after_writes(0) == q,
{
}

/// The gates. Whatever the state, and so after any number of reads and
/// writes, the read side refuses exactly when the read count has reached
/// its ceiling and the write side exactly when the write count has reached
/// its own; each names its side.
pub proof fn lemma_gates(q: QuotaState, reads: nat, writes: nat)
    ensures
        q.read_gate() is Err <==> q.read_count >= q.read_ceiling,
        q.read_gate() is Err ==> q.read_gate() == Err::<(), QuotaExceeded>(
            QuotaExceeded { kind: QuotaKind::Read },
        ),
        q.write_gate() is Err <==> q.write_count >= q.write_ceiling,
        q.write_gate() is Err ==> q.write_gate() == Err::<(), QuotaExceeded>(
            QuotaExceeded { kind: QuotaKind::Write },
        ),
        q.after_reads(reads).after_writes(writes).read_gate() is Err <==> q.read_count + reads
            >= q.read_ceiling,
        q.after_reads(reads).after_writes(writes).write_gate() is Err <==> q.write_count
            + writes >= q.write_ceiling,
        q.rolled_over(q.window).after_reads(reads).read_gate() is Err <==> q.read_count + reads
            >= q.read_ceiling,
{
}

/// Month rollover. A check made in any month other than the stored window,
/// whatever the counts were, sees both counts at zero and the window moved:
/// it refuses only a ceiling of zero. A check made within the window leaves
/// the state as it was.
pub proof fn lemma_rollover_resets_before_gate(q: QuotaState, now: CalendarMonth)
    ensures
        now != q.window ==> {
            &&& q.rolled_over(now).read_count == 0
            &&& q.rolled_over(now).write_count == 0
            &&& q.rolled_over(now).window == now
            &&& q.rolled_over(now).read_ceiling == q.read_ceiling
            &&& q.rolled_over(now).write_ceiling == q.write_ceiling
            &&& (q.rolled_over(now).read_gate() is Err <==> q.read_ceiling == 0)
        },
        now == q.window ==> q.rolled_over(now) == q,
{
}

} // verus!
