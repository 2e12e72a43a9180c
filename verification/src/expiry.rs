//! Logical time: block heights, timestamps, voting-period durations and
//! proposal expirations.
//!
//! The host chain supplies a monotonic logical clock (current height and
//! current time in nanoseconds); expiration is only ever a comparison
//! against that clock, never wall-clock blocking. A height-based point and
//! a time-based point do not order against each other.
use vstd::prelude::*;

verus! {

/// Nanoseconds per second, for turning a seconds delta into a timestamp delta.
pub const NANOS_PER_SECOND: u64 = 1_000_000_000;

/// The host clock at the moment an operation runs.
#[derive(Clone, Copy, Debug, PartialEq, Eq, Structural)]
pub struct BlockTime {
    /// Current chain height.
    pub height: u64,
    /// Current chain time, in nanoseconds.
    pub time_nanos: u64,
}

/// A delta of logical time, counted in blocks or in seconds.
#[derive(Clone, Copy, Debug, PartialEq, Eq, Structural)]
pub enum Duration {
    Height(u64),
    /// Time in seconds.
    Time(u64),
}

/// A point at which some event happens: a height, a timestamp in
/// nanoseconds, or never.
#[derive(Clone, Copy, Debug, PartialEq, Eq, Structural)]
pub enum Expiration {
    /// Expired once `block.height >= height`.
    AtHeight(u64),
    /// Expired once `block.time_nanos >= time_nanos`.
    AtTime(u64),
    /// Never expires.
    Never,
}

/// How two expirations order, if they do.
#[derive(Clone, Copy, Debug, PartialEq, Eq, Structural)]
pub enum ExpirationOrder {
    Before,
    Same,
    After,
    /// Mismatched finite ends (one height, one time) do not compare.
    Incomparable,
}

/// Whether an expiration point has been reached at the given block.
pub open spec fn spec_is_expired(e: Expiration, block: BlockTime) -> bool {
    match e {
        Expiration::AtHeight(height) => block.height >= height,
        Expiration::AtTime(time) => block.time_nanos >= time,
        Expiration::Never => false,
    }
}

/// The point a duration reaches, counted from the given block.
pub open spec fn spec_after(d: Duration, block: BlockTime) -> Expiration {
    match d {
        Duration::Height(h) => Expiration::AtHeight((block.height + h) as u64),
        Duration::Time(t) => Expiration::AtTime(
            (block.time_nanos + t * NANOS_PER_SECOND) as u64,
        ),
    }
}

/// True when `spec_after(d, block)` does not overflow a `u64`.
pub open spec fn spec_after_fits(d: Duration, block: BlockTime) -> bool {
    match d {
        Duration::Height(h) => block.height + h <= u64::MAX,
        Duration::Time(t) => block.time_nanos + t * NANOS_PER_SECOND <= u64::MAX,
    }
}

/// How `a` orders against `b`. `Never` lies after every finite point;
/// mismatched finite variants are incomparable.
pub open spec fn spec_compare(a: Expiration, b: Expiration) -> ExpirationOrder {
    match (a, b) {
        (Expiration::AtHeight(h1), Expiration::AtHeight(h2)) => if h1 < h2 {
            ExpirationOrder::Before
        } else if h1 == h2 {
            ExpirationOrder::Same
        } else {
            ExpirationOrder::After
        },
        (Expiration::AtTime(t1), Expiration::AtTime(t2)) => if t1 < t2 {
            ExpirationOrder::Before
        } else if t1 == t2 {
            ExpirationOrder::Same
        } else {
            ExpirationOrder::After
        },
        (Expiration::Never, Expiration::Never) => ExpirationOrder::Same,
        (Expiration::Never, _) => ExpirationOrder::After,
        (_, Expiration::Never) => ExpirationOrder::Before,
        _ => ExpirationOrder::Incomparable,
    }
}

impl Expiration {
    /// Whether this point has been reached at the given block.
    pub fn is_expired(&self, block: &BlockTime) -> (r: bool)
        ensures
            r == spec_is_expired(*self, *block),
    {
        match self {
            Expiration::AtHeight(height) => block.height >= *height,
            Expiration::AtTime(time) => block.time_nanos >= *time,
            Expiration::Never => false,
        }
    }

    /// Order this point against another, where the two compare at all.
    pub fn compare(&self, other: &Expiration) -> (r: ExpirationOrder)
        ensures
            r == spec_compare(*self, *other),
    {
        match (self, other) {
            (Expiration::AtHeight(h1), Expiration::AtHeight(h2)) => if h1 < h2 {
                ExpirationOrder::Before
            } else if h1 == h2 {
                ExpirationOrder::Same
            } else {
                ExpirationOrder::After
            },
            (Expiration::AtTime(t1), Expiration::AtTime(t2)) => if t1 < t2 {
                ExpirationOrder::Before
            } else if t1 == t2 {
                ExpirationOrder::Same
            } else {
                ExpirationOrder::After
            },
            (Expiration::Never, Expiration::Never) => ExpirationOrder::Same,
            (Expiration::Never, _) => ExpirationOrder::After,
            (_, Expiration::Never) => ExpirationOrder::Before,
            _ => ExpirationOrder::Incomparable,
        }
    }
}

impl Duration {
    /// The expiration a voting period of this length reaches, counted from
    /// the current block.
    pub fn after(&self, block: &BlockTime) -> (r: Expiration)
        requires
            spec_after_fits(*self, *block),
        ensures
            r == spec_after(*self, *block),
    {
        match self {
            Duration::Height(h) => Expiration::AtHeight(block.height + *h),
            Duration::Time(t) => Expiration::AtTime(
                block.time_nanos + *t * NANOS_PER_SECOND,
            ),
        }
    }
}

} // verus!
