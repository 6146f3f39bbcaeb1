//! Spans of time, counted in whole seconds and nanoseconds.

use vstd::prelude::*;

verus! {

/// Nanoseconds in one second.
pub const NANOS_PER_SEC: u32 = 1_000_000_000;

/// A span of time: whole seconds plus a part of a second in nanoseconds.
///
/// Its view is the span in nanoseconds.
#[derive(Clone, Copy, PartialEq, Eq, Debug, Structural)]
pub struct Duration {
    secs: u64,
    nanos: u32,
}

impl View for Duration {
    type V = nat;

    closed spec fn view(&self) -> nat {
        (self.secs as nat) * 1_000_000_000 + self.nanos as nat
    }
}

impl Duration {
    #[verifier::type_invariant]
    spec fn subsecond(&self) -> bool {
        self.nanos < 1_000_000_000
    }

    /// The span in whole microseconds, rounded down.
    pub open spec fn micros(&self) -> nat {
        self@ / 1000
    }

    /// The empty span.
    pub fn zero() -> (d: Duration)
        ensures
            d@ == 0,
    {
        Duration { secs: 0, nanos: 0 }
    }

    /// The span of `secs` seconds and `nanos` nanoseconds, where `nanos` is less than a second.
    pub fn from_parts(secs: u64, nanos: u32) -> (d: Option<Duration>)
        ensures
            nanos < NANOS_PER_SEC ==> d.is_some() && d.unwrap()@ == secs as nat * 1_000_000_000
                + nanos as nat,
            nanos >= NANOS_PER_SEC ==> d.is_none(),
    {
        if nanos < NANOS_PER_SEC {
            Some(Duration { secs, nanos })
        } else {
            None
        }
    }

    /// The span of `micros` microseconds.
    pub fn from_micros(micros: u64) -> (d: Duration)
        ensures
            d@ == micros as nat * 1000,
            d.micros() == micros,
    {
        let secs: u64 = micros / 1_000_000;
        let rest: u64 = micros % 1_000_000;
        let nanos: u32 = (rest * 1000) as u32;
        Duration { secs, nanos }
    }

    /// The whole seconds of the span.
    pub fn as_secs(&self) -> (secs: u64)
        ensures
            secs as nat == self@ / 1_000_000_000,
    {
        proof {
            use_type_invariant(self);
        }
        self.secs
    }

    /// What the span holds beyond its whole seconds, in nanoseconds.
    pub fn subsec_nanos(&self) -> (nanos: u32)
        ensures
            nanos as nat == self@ % 1_000_000_000,
            nanos < NANOS_PER_SEC,
    {
        proof {
            use_type_invariant(self);
        }
        self.nanos
    }

    /// The span in whole microseconds, rounded down.
    pub fn as_micros(&self) -> (micros: u128)
        ensures
            micros as nat == self.micros(),
    {
        proof {
            use_type_invariant(self);
        }
        let secs: u128 = self.secs as u128;
        let rest: u128 = (self.nanos / 1000) as u128;
        secs * 1_000_000 + rest
    }
}

} // verus!
