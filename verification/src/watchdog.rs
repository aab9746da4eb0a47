//! The arithmetic of the wall-clock watchdog.

use vstd::prelude::*;

verus! {

/// What the watchdog does at one moment of a run with a wall-clock limit.
#[derive(Debug, Clone, Copy, PartialEq, Eq, Structural)]
pub enum Watch {
    /// The limit is reached.
    Expired,
    /// The limit is this far away: whole seconds, and nanoseconds below one
    /// second.
    Sleep { secs: u64, nanos: u32 },
}

/// The watchdog's view of a run that has lasted `elapsed` of its `limit`
/// milliseconds.
pub open spec fn watch_of(limit: u64, elapsed: u64) -> Watch {
    if elapsed >= limit {
        Watch::Expired
    } else {
        Watch::Sleep {
            secs: ((limit - elapsed) / 1000) as u64,
            nanos: (((limit - elapsed) % 1000) * 1_000_000) as u32,
        }
    }
}

/// Says whether the limit is reached and, where it is not, how long the
/// wait for the child may still block.
pub fn watch(limit: u64, elapsed: u64) -> (w: Watch)
    ensures
        w == watch_of(limit, elapsed),
{
    if elapsed >= limit {
        Watch::Expired
    } else {
        let left: u64 = limit - elapsed;
        let millis: u32 = (left % 1000) as u32;
        Watch::Sleep { secs: left / 1000, nanos: millis * 1_000_000 }
    }
}

/// The watchdog never sleeps past the limit nor stops short of it: the time
/// it allows is exactly what is left, and it expires exactly when nothing
/// is.
pub proof fn lemma_watch_is_exact(limit: u64, elapsed: u64)
    ensures
        watch_of(limit, elapsed) is Expired <==> elapsed >= limit,
        watch_of(limit, elapsed) matches Watch::Sleep { secs, nanos } ==> nanos < 1_000_000_000
            && nanos % 1_000_000 == 0 && secs * 1000 + nanos / 1_000_000 == limit - elapsed,
{
}

} // verus!
