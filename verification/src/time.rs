use vstd::prelude::*;

verus! {

/// A point in time, held as whole seconds since the Unix epoch together
/// with a sub-second part in nanoseconds.
///
/// The remote API writes timestamps as calendar dates; what only a
/// calendar library can compute stays outside this crate, which holds
/// the instant itself as plain values.
#[derive(Debug, Clone, Copy, PartialEq, Eq, Structural)]
pub struct Timestamp {
    pub secs: i64,
    pub nanos: u32,
}

impl Timestamp {
    /// The sub-second part names a nanosecond, so it stays below 10^9.
    pub open spec fn valid(&self) -> bool {
        self.nanos < 1_000_000_000
    }

    /// A timestamp from seconds since the Unix epoch and a sub-second
    /// part in nanoseconds; `None` when the sub-second part does not
    /// name a nanosecond.
    pub fn new(secs: i64, nanos: u32) -> (r: Option<Timestamp>)
        ensures
            r is Some <==> nanos < 1_000_000_000,
            r matches Some(t) ==> t.secs == secs && t.nanos == nanos && t.valid(),
    {
        if nanos < 1_000_000_000 {
            Some(Timestamp { secs, nanos })
        } else {
            None
        }
    }

    /// A timestamp on the whole second.
    pub fn from_secs(secs: i64) -> (r: Timestamp)
        ensures
            r.secs == secs,
            r.nanos == 0,
            r.valid(),
    {
        Timestamp { secs, nanos: 0 }
    }
}

} // verus!
