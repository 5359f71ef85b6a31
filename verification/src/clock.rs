//! Points in time on the host's monotonic clock, and the spans between them.
//!
//! The host reads its clock in whole milliseconds. A point in time and a span
//! are both held as whole seconds and the nanoseconds beyond them; their
//! model is the total number of nanoseconds.

use vstd::prelude::*;

verus! {

pub const NANOS_PER_SEC: u32 = 1_000_000_000;

pub const NANOS_PER_MILLI: u32 = 1_000_000;

pub const MILLIS_PER_SEC: u64 = 1_000;

/// A reading of the host's clock.
#[derive(Clone, Copy, Debug, PartialEq, Eq)]
pub struct Timestamp {
    secs: u64,
    nanos: u32,
}

/// The time between two readings.
#[derive(Clone, Copy, Debug, PartialEq, Eq)]
pub struct Elapsed {
    secs: u64,
    nanos: u32,
}

impl Timestamp {
    /// The nanoseconds stay below one second.
    #[verifier::type_invariant]
    pub closed spec fn wf(self) -> bool {
        self.nanos < NANOS_PER_SEC
    }

    /// The reading in nanoseconds since the clock's origin.
    pub closed spec fn as_nanos(self) -> nat {
        (self.secs * NANOS_PER_SEC + self.nanos) as nat
    }

    /// The whole seconds of the reading.
    pub fn secs(&self) -> (s: u64)
        ensures
            s == self.as_nanos() / (NANOS_PER_SEC as nat),
    {
        proof {
            use_type_invariant(self);
        }
        self.secs
    }

    /// The nanoseconds beyond the whole seconds.
    pub fn subsec_nanos(&self) -> (n: u32)
        ensures
            n == self.as_nanos() % (NANOS_PER_SEC as nat),
            n < NANOS_PER_SEC,
    {
        proof {
            use_type_invariant(self);
        }
        self.nanos
    }

    /// The time that has passed since `earlier`, or `None` where `earlier`
    /// is the later of the two.
    pub fn duration_since(&self, earlier: &Timestamp) -> (r: Option<Elapsed>)
        ensures
            r is Some <==> earlier.as_nanos() <= self.as_nanos(),
            r is Some ==> r == Some(elapsed_between(*earlier, *self)),
    {
        proof {
            use_type_invariant(self);
            use_type_invariant(earlier);
        }
        if self.secs < earlier.secs || (self.secs == earlier.secs && self.nanos < earlier.nanos) {
            None
        } else if self.nanos >= earlier.nanos {
            Some(Elapsed { secs: self.secs - earlier.secs, nanos: self.nanos - earlier.nanos })
        } else {
            Some(
                Elapsed {
                    secs: self.secs - earlier.secs - 1,
                    nanos: self.nanos + (NANOS_PER_SEC - earlier.nanos),
                },
            )
        }
    }
}

impl Elapsed {
    /// The nanoseconds stay below one second.
    #[verifier::type_invariant]
    pub closed spec fn wf(self) -> bool {
        self.nanos < NANOS_PER_SEC
    }

    /// The span in nanoseconds.
    pub closed spec fn as_nanos(self) -> nat {
        (self.secs * NANOS_PER_SEC + self.nanos) as nat
    }

    /// The whole seconds of the span.
    pub fn secs(&self) -> (s: u64)
        ensures
            s == self.as_nanos() / (NANOS_PER_SEC as nat),
    {
        proof {
            use_type_invariant(self);
        }
        self.secs
    }

    /// The nanoseconds beyond the whole seconds.
    pub fn subsec_nanos(&self) -> (n: u32)
        ensures
            n == self.as_nanos() % (NANOS_PER_SEC as nat),
            n < NANOS_PER_SEC,
    {
        proof {
            use_type_invariant(self);
        }
        self.nanos
    }
}

/// The span from `origin` to `now`; the empty span where `now` is the
/// earlier of the two.
pub closed spec fn elapsed_between(origin: Timestamp, now: Timestamp) -> Elapsed {
    let d: int = if origin.as_nanos() <= now.as_nanos() {
        now.as_nanos() - origin.as_nanos()
    } else {
        0
    };
    Elapsed { secs: (d / (NANOS_PER_SEC as int)) as u64, nanos: (d % (NANOS_PER_SEC as int)) as u32 }
}

/// Turns a clock reading in whole milliseconds into a point in time.
pub fn perf_to_system(millis: u64) -> (t: Timestamp)
    ensures
        t.wf(),
        t.as_nanos() == millis * NANOS_PER_MILLI,
{
    let secs: u64 = millis / MILLIS_PER_SEC;
    let nanos: u32 = ((millis % MILLIS_PER_SEC) as u32) * NANOS_PER_MILLI;
    Timestamp { secs, nanos }
}

/// A span is well formed and as long as the readings are apart.
pub proof fn lemma_elapsed_between(origin: Timestamp, now: Timestamp)
    requires
        origin.wf(),
        now.wf(),
        origin.as_nanos() <= now.as_nanos(),
    ensures
        elapsed_between(origin, now).wf(),
        elapsed_between(origin, now).as_nanos() == now.as_nanos() - origin.as_nanos(),
{
}

/// The time shown to the shader never runs backwards: of two readings taken
/// after start-up, the later one is at least as far from it.
pub proof fn lemma_elapsed_monotonic(origin: Timestamp, earlier: Timestamp, later: Timestamp)
    requires
        origin.wf(),
        earlier.wf(),
        later.wf(),
        origin.as_nanos() <= earlier.as_nanos() <= later.as_nanos(),
    ensures
        elapsed_between(origin, earlier).as_nanos() <= elapsed_between(origin, later).as_nanos(),
{
    lemma_elapsed_between(origin, earlier);
    lemma_elapsed_between(origin, later);
}

} // verus!
