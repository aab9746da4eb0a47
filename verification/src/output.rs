//! The record of one run, and how a child's end is written into it.

use vstd::prelude::*;

verus! {

/// How the child ended: by leaving with an exit code, or by a signal.
#[derive(Debug, Clone, Copy, PartialEq, Eq, Structural)]
pub enum Termination {
    Exited(i32),
    Signaled(i32),
}

impl Termination {
    /// Signal numbers start at one, so a signal death never carries zero.
    pub open spec fn wf(&self) -> bool {
        match *self {
            Termination::Exited(_) => true,
            Termination::Signaled(signal) => signal != 0,
        }
    }
}

/// Resource usage and end of one run. Times are in milliseconds, memory in
/// KiB. Of `code` and `signal` one speaks for the run: `signal` where it is
/// not zero, else `code`; the other one is zero.
#[derive(Debug, Clone, Copy, PartialEq, Eq, Structural)]
pub struct SandboxOutput {
    pub code: i32,
    pub signal: i32,
    pub real_time: u64,
    pub sys_time: u64,
    pub user_time: u64,
    pub memory: u64,
}

/// Time measured for a child that was reaped, in milliseconds.
#[derive(Debug, Clone, Copy, PartialEq, Eq, Structural)]
pub struct Usage {
    pub real_time: u64,
    pub sys_time: u64,
    pub user_time: u64,
}

/// The record for a child that ended as `end`, with the given measurements.
pub open spec fn output_of(end: Termination, usage: Usage, memory: u64) -> SandboxOutput {
    SandboxOutput {
        code: match end {
            Termination::Exited(code) => code,
            Termination::Signaled(_) => 0,
        },
        signal: match end {
            Termination::Exited(_) => 0,
            Termination::Signaled(signal) => signal,
        },
        real_time: usage.real_time,
        sys_time: usage.sys_time,
        user_time: usage.user_time,
        memory,
    }
}

/// Whole KiB in `bytes`.
pub open spec fn kib_of(bytes: u64) -> u64 {
    (bytes / 1024) as u64
}

/// Milliseconds in `secs` seconds and `micros` microseconds, held at the
/// largest `u64` where the sum would pass it.
pub open spec fn millis_of(secs: u64, micros: u64) -> u64 {
    let exact = secs * 1000 + micros / 1000;
    if exact > u64::MAX {
        u64::MAX
    } else {
        exact as u64
    }
}

/// Whole KiB in a byte count, as the memory field reports a peak.
pub fn kib_from_bytes(bytes: u64) -> (kib: u64)
    ensures
        kib == kib_of(bytes),
{
    bytes / 1024
}

/// Milliseconds of a time given as seconds and microseconds.
pub fn millis_from_timeval(secs: u64, micros: u64) -> (ms: u64)
    ensures
        ms == millis_of(secs, micros),
{
    let part: u64 = micros / 1000;
    match secs.checked_mul(1000) {
        Some(whole) => match whole.checked_add(part) {
            Some(sum) => sum,
            None => u64::MAX,
        },
        None => u64::MAX,
    }
}

impl SandboxOutput {
    /// Writes the end of a child and its measurements into one record.
    pub fn from_termination(end: Termination, usage: Usage, memory: u64) -> (out: SandboxOutput)
        ensures
            out == output_of(end, usage, memory),
    {
        match end {
            Termination::Exited(code) => SandboxOutput {
                code,
                signal: 0,
                real_time: usage.real_time,
                sys_time: usage.sys_time,
                user_time: usage.user_time,
                memory,
            },
            Termination::Signaled(signal) => SandboxOutput {
                code: 0,
                signal,
                real_time: usage.real_time,
                sys_time: usage.sys_time,
                user_time: usage.user_time,
                memory,
            },
        }
    }

    /// The end of the child that the record speaks of.
    pub open spec fn spec_termination(&self) -> Termination {
        if self.signal != 0 {
            Termination::Signaled(self.signal)
        } else {
            Termination::Exited(self.code)
        }
    }

    /// Reads the end of the child back from the two fields.
    #[verifier::when_used_as_spec(spec_termination)]
    pub fn termination(&self) -> (end: Termination)
        ensures
            end == self.spec_termination(),
            end.wf(),
    {
        if self.signal != 0 {
            Termination::Signaled(self.signal)
        } else {
            Termination::Exited(self.code)
        }
    }

    /// The measured times of the record.
    pub fn usage(&self) -> (usage: Usage)
        ensures
            usage == (Usage {
                real_time: self.real_time,
                sys_time: self.sys_time,
                user_time: self.user_time,
            }),
    {
        Usage { real_time: self.real_time, sys_time: self.sys_time, user_time: self.user_time }
    }
}

/// Exactly one of `code` and `signal` speaks for a run, and it agrees with
/// how the child ended: after an exit the code is the child's and the signal
/// is zero; after a signal death the signal is the child's, it is not zero,
/// and the code is zero. The end can be read back from the record.
pub proof fn lemma_one_field_speaks(end: Termination, usage: Usage, memory: u64)
    requires
        end.wf(),
    ensures
        end matches Termination::Exited(code) ==> output_of(end, usage, memory).code == code
            && output_of(end, usage, memory).signal == 0,
        end matches Termination::Signaled(signal) ==> output_of(end, usage, memory).signal
            == signal && output_of(end, usage, memory).signal != 0 && output_of(
            end,
            usage,
            memory,
        ).code == 0,
        output_of(end, usage, memory).spec_termination() == end,
{
}

/// The memory reported never passes what was measured: a peak of at most
/// `limit` bytes is reported as at most the KiB in `limit`, and the reported
/// KiB hold no more bytes than the peak.
pub proof fn lemma_reported_memory_bounded(peak: u64, limit: u64)
    requires
        peak <= limit,
    ensures
        kib_of(peak) <= kib_of(limit),
        kib_of(peak) * 1024 <= peak,
{
}

} // verus!
