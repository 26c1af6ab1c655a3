//! Points in time at or after the Unix epoch, with nanosecond resolution.

use vstd::prelude::*;

verus! {

/// Nanoseconds in one second.
pub const NANOS_PER_SEC: u32 = 1_000_000_000;

/// The last whole second, counted from the epoch, that a timestamp can hold.
pub const MAX_SECS: u64 = 0x7fff_ffff_ffff_ffff;

/// The view of the latest timestamp: `MAX_SECS` seconds and all but one
/// nanosecond of the next.
pub open spec fn max_nanos() -> nat {
    (MAX_SECS * NANOS_PER_SEC + (NANOS_PER_SEC - 1)) as nat
}

/// A point in time, held as whole seconds since the Unix epoch and the
/// nanoseconds into the following second.
///
/// Its view is the number of nanoseconds since the epoch.
#[derive(Clone, Copy, Debug, PartialEq, Eq)]
pub struct Timestamp {
    secs: u64,
    nanos: u32,
}

impl View for Timestamp {
    type V = nat;

    closed spec fn view(&self) -> nat {
        (self.secs * NANOS_PER_SEC + self.nanos) as nat
    }
}

impl Timestamp {
    #[verifier::type_invariant]
    spec fn in_range(self) -> bool {
        self.secs <= MAX_SECS && self.nanos < NANOS_PER_SEC
    }

    /// The timestamp `secs` seconds and `nanos` nanoseconds after the epoch.
    ///
    /// Whole seconds in `nanos` are carried over into the seconds. `None` when
    /// the seconds then exceed `MAX_SECS`.
    pub fn new(secs: u64, nanos: u32) -> (made: Option<Timestamp>)
        ensures
            secs * NANOS_PER_SEC + nanos <= max_nanos() ==> made.is_some(),
            made matches Some(t) ==> t@ == secs * NANOS_PER_SEC + nanos && t@ <= max_nanos(),
    {
        let carry: u64 = (nanos / NANOS_PER_SEC) as u64;
        let rest: u32 = nanos % NANOS_PER_SEC;
        if secs > MAX_SECS - carry {
            None
        } else {
            Some(Timestamp { secs: secs + carry, nanos: rest })
        }
    }

    /// Whole seconds since the epoch.
    pub fn secs_since_epoch(&self) -> (secs: u64)
        ensures
            secs == self@ / (NANOS_PER_SEC as nat),
            secs <= MAX_SECS,
    {
        proof {
            use_type_invariant(self);
        }
        self.secs
    }

    /// Nanoseconds into the second that `secs_since_epoch` starts.
    pub fn nanos_since_epoch(&self) -> (nanos: u32)
        ensures
            nanos == self@ % (NANOS_PER_SEC as nat),
            nanos < NANOS_PER_SEC,
    {
        proof {
            use_type_invariant(self);
        }
        self.nanos
    }
}

/// The Unix epoch: the timestamp of a record that was never written.
pub fn unix_epoch() -> (epoch: Timestamp)
    ensures
        epoch@ == 0,
{
    Timestamp { secs: 0, nanos: 0 }
}

} // verus!
