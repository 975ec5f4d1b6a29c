//! GPU timer: timestamps with nanosecond granularity and the decisions of the timer reads
//! and of waiting on a condition with a timeout.
use vstd::prelude::*;
use crate::error::{Error, Result};

verus! {

/// `x` reduced modulo 2^64.
pub open spec fn wrap64(x: int) -> u64 {
    (x % 0x1_0000_0000_0000_0000int) as u64
}

/// A timestamp with nanosecond granularity obtained from the GPU timer.
///
/// Timestamps wrap around: adding a duration and taking the difference of two timestamps
/// are modulo 2^64.
#[derive(Debug, Clone, Copy, PartialEq, Eq, Structural)]
pub struct Timestamp(pub u64);

impl Timestamp {
    /// What adding `nanos` nanoseconds to the timestamp `t` gives: while `nanos` exceeds
    /// `u64::MAX`, its low 64 bits are added and `u64::MAX` is taken off it; the rest is
    /// then added, all wrapping.
    pub open spec fn spec_add_nanos(t: u64, nanos: u128) -> u64
        decreases nanos,
    {
        if nanos > u64::MAX {
            Timestamp::spec_add_nanos(
                wrap64(t + (nanos as u64)),
                (nanos - u64::MAX) as u128,
            )
        } else {
            wrap64(t + nanos)
        }
    }

    /// Adds a duration of `nanos` nanoseconds to the timestamp.
    pub fn add_nanos(self, nanos: u128) -> (r: Timestamp)
        ensures
            r.0 == Timestamp::spec_add_nanos(self.0, nanos),
    {
        let ghost total = nanos;
        let mut t = self.0;
        let mut nanos = nanos;
        while nanos > u64::MAX as u128
            invariant
                Timestamp::spec_add_nanos(t, nanos) == Timestamp::spec_add_nanos(self.0, total),
            decreases nanos,
        {
            t = t.wrapping_add(nanos as u64);
            nanos = nanos - u64::MAX as u128;
        }
        Timestamp(t.wrapping_add(nanos as u64))
    }

    /// Nanoseconds from `rhs` to `self`, modulo 2^64.
    pub fn sub(self, rhs: Timestamp) -> (r: u64)
        ensures
            r == wrap64(self.0 - rhs.0),
    {
        self.0.wrapping_sub(rhs.0)
    }

    /// The timestamp made of two reads of the high word around a read of the low word:
    /// when the high word did not change in between, the timestamp is `hi:lo`; otherwise
    /// the reads must be done again.
    pub fn from_reads(hi: u32, lo: u32, hi_again: u32) -> (r: Option<Timestamp>)
        ensures
            hi == hi_again ==> r == Some(Timestamp((hi * 0x1_0000_0000int + lo) as u64)),
            hi != hi_again ==> r is None,
    {
        if hi == hi_again {
            let v = ((hi as u64) << 32) | (lo as u64);
            assert(((hi as u64) << 32) | (lo as u64) == hi * 0x1_0000_0000int + lo) by (bit_vector);
            Some(Timestamp(v))
        } else {
            None
        }
    }
}

/// The GPU timer.
pub struct Timer {}

impl Timer {
    /// Creates the timer.
    pub fn new() -> Timer {
        Timer {}
    }

    /// The values to write to the high and low timer registers to set the time to `time`.
    pub fn time(time: u64) -> (r: (u32, u32))
        ensures
            r.0 == time / 0x1_0000_0000u64,
            r.1 == time % 0x1_0000_0000u64,
    {
        let hi = (time >> 32) as u32;
        let lo = time as u32;
        assert((time >> 32) as u32 == time / 0x1_0000_0000u64) by (bit_vector);
        assert(time as u32 == time % 0x1_0000_0000u64) by (bit_vector);
        (hi, lo)
    }
}

/// Number of consecutive time reads after which the timer counts as frozen when it has not
/// moved forward.
pub const MAX_STALLED_READS: usize = 16;

/// State of a wait on a condition with a timeout, based on GPU time.
#[derive(Debug, Clone, Copy, PartialEq, Eq, Structural)]
pub struct WaitState {
    /// The last time read that differed from the one before.
    pub prev_time: Timestamp,
    /// When the wait times out.
    pub deadline: Timestamp,
    /// Number of consecutive reads that saw `prev_time` again.
    pub num_reads: usize,
}

impl WaitState {
    /// Starts a wait of `timeout_nanos` nanoseconds at time `cur_time`.
    pub fn new(cur_time: Timestamp, timeout_nanos: u128) -> (r: WaitState)
        ensures
            r.prev_time == cur_time,
            r.deadline.0 == Timestamp::spec_add_nanos(cur_time.0, timeout_nanos),
            r.num_reads == 0,
    {
        WaitState { prev_time: cur_time, deadline: cur_time.add_nanos(timeout_nanos), num_reads: 0 }
    }

    /// What a new time read `cur_time` does to the wait, after the condition was found
    /// false: a time equal to the previous one counts as a stalled read, and more than
    /// `MAX_STALLED_READS` of them in a row time out; a new time times out once it reaches
    /// the deadline, and resets the count otherwise.
    pub open spec fn spec_on_time_read(self, cur_time: Timestamp) -> Result<WaitState> {
        if cur_time == self.prev_time {
            if self.num_reads >= MAX_STALLED_READS {
                Err(Error::TimedOut)
            } else {
                Ok(WaitState { num_reads: (self.num_reads + 1) as usize, ..self })
            }
        } else if cur_time.0 >= self.deadline.0 {
            Err(Error::TimedOut)
        } else {
            Ok(WaitState { prev_time: cur_time, num_reads: 0, ..self })
        }
    }

    /// The count of stalled reads never exceeds the limit.
    pub open spec fn wf(self) -> bool {
        self.num_reads <= MAX_STALLED_READS
    }

    /// Takes a new time read into account; fails with `TimedOut` when the wait is over.
    pub fn on_time_read(&mut self, cur_time: Timestamp) -> (r: Result<()>)
        requires
            old(self).wf(),
        ensures
            final(self).wf(),
            match old(self).spec_on_time_read(cur_time) {
                Ok(s) => r == Ok::<(), Error>(()) && *final(self) == s,
                Err(e) => r == Err::<(), Error>(e) && *final(self) == *old(self),
            },
    {
        if cur_time == self.prev_time {
            if self.num_reads >= MAX_STALLED_READS {
                return Err(Error::TimedOut);
            }
            self.num_reads = self.num_reads + 1;
        } else {
            if cur_time.0 >= self.deadline.0 {
                return Err(Error::TimedOut);
            }
            self.num_reads = 0;
            self.prev_time = cur_time;
        }
        Ok(())
    }
}

/// The state of a wait after the time was read `n` more times and found equal to the
/// previous time each time.
pub open spec fn spec_stalled_reads(s: WaitState, n: nat) -> Result<WaitState>
    decreases n,
{
    if n == 0 {
        Ok(s)
    } else {
        match spec_stalled_reads(s, (n - 1) as nat) {
            Ok(s2) => s2.spec_on_time_read(s2.prev_time),
            Err(e) => Err(e),
        }
    }
}

/// A frozen timer ends the wait: `MAX_STALLED_READS + 1` reads in a row that see the
/// previous time again time out, whatever the state of the wait.
pub proof fn lemma_frozen_timer_times_out(s: WaitState)
    requires
        s.wf(),
    ensures
        spec_stalled_reads(s, (MAX_STALLED_READS + 1) as nat) == Err::<WaitState, Error>(
            Error::TimedOut,
        ),
{
    lemma_stalled_reads_count(s, (MAX_STALLED_READS + 1) as nat);
}

proof fn lemma_stalled_reads_count(s: WaitState, n: nat)
    requires
        s.wf(),
    ensures
        match spec_stalled_reads(s, n) {
            Ok(s2) => s2.num_reads == s.num_reads + n && s2.prev_time == s.prev_time
                && s2.deadline == s.deadline,
            Err(e) => e == Error::TimedOut && s.num_reads + n > MAX_STALLED_READS,
        },
    decreases n,
{
    if n > 0 {
        lemma_stalled_reads_count(s, (n - 1) as nat);
    }
}

/// Adding a duration of at most `u64::MAX` nanoseconds to a timestamp and taking the
/// difference to the timestamp gives the duration back.
pub proof fn lemma_add_then_sub(t: Timestamp, nanos: u128)
    requires
        nanos <= u64::MAX,
    ensures
        wrap64(Timestamp::spec_add_nanos(t.0, nanos) - t.0) == nanos,
{
}

} // verus!
