//! Block time, voting periods and the moment at which voting ends.

use vstd::prelude::*;

verus! {

/// Nanoseconds in one second.
pub const NANOS_PER_SECOND: u64 = 1_000_000_000;

/// A point in time, in nanoseconds since the epoch.
#[derive(Clone, Copy, Debug, PartialEq, Eq, Structural)]
pub struct Timestamp {
    pub nanos: u64,
}

impl Timestamp {
    pub fn from_nanos(nanos: u64) -> (t: Timestamp)
        ensures
            t.nanos == nanos,
    {
        Timestamp { nanos }
    }

    /// The timestamp that many whole seconds after the epoch.
    pub fn from_seconds(seconds: u64) -> (t: Timestamp)
        requires
            seconds * NANOS_PER_SECOND <= u64::MAX,
        ensures
            t.nanos == seconds * NANOS_PER_SECOND,
    {
        Timestamp { nanos: seconds * NANOS_PER_SECOND }
    }
}

/// The block in which an operation runs.
#[derive(Clone, Copy, Debug, PartialEq, Eq, Structural)]
pub struct BlockInfo {
    pub height: u64,
    pub time: Timestamp,
}

/// A length of time, counted in blocks or in seconds.
#[derive(Clone, Copy, Debug, PartialEq, Eq, Structural)]
pub enum Duration {
    Height(u64),
    /// Time in seconds.
    Time(u64),
}

/// The moment at which something ends.
#[derive(Clone, Copy, Debug, PartialEq, Eq, Structural)]
pub enum Expiration {
    /// Expired once the block height is at least this.
    AtHeight(u64),
    /// Expired once the block time is at least this.
    AtTime(Timestamp),
    /// Never expires.
    Never {},
}

impl Expiration {
    pub open spec fn expired_at(self, block: BlockInfo) -> bool {
        match self {
            Expiration::AtHeight(height) => block.height >= height,
            Expiration::AtTime(time) => block.time.nanos >= time.nanos,
            Expiration::Never {} => false,
        }
    }

    pub fn is_expired(&self, block: &BlockInfo) -> (r: bool)
        ensures
            r == self.expired_at(*block),
    {
        match self {
            Expiration::AtHeight(height) => block.height >= *height,
            Expiration::AtTime(time) => block.time.nanos >= time.nanos,
            Expiration::Never {} => false,
        }
    }
}

impl Duration {
    /// Whether the end of this duration, counted from `block`, can be
    /// represented.
    pub open spec fn fits_after(self, block: BlockInfo) -> bool {
        match self {
            Duration::Height(h) => block.height + h <= u64::MAX,
            Duration::Time(t) => block.time.nanos + t * NANOS_PER_SECOND <= u64::MAX,
        }
    }

    /// The end of this duration, counted from `block`.
    pub open spec fn end_after(self, block: BlockInfo) -> Expiration {
        match self {
            Duration::Height(h) => Expiration::AtHeight((block.height + h) as u64),
            Duration::Time(t) => Expiration::AtTime(
                Timestamp { nanos: (block.time.nanos + t * NANOS_PER_SECOND) as u64 },
            ),
        }
    }

    /// The expiration that lies this duration after `block`, or `None` where
    /// it is beyond what a height or a timestamp can hold.
    pub fn checked_after(&self, block: &BlockInfo) -> (r: Option<Expiration>)
        ensures
            r == if self.fits_after(*block) {
                Some(self.end_after(*block))
            } else {
                None::<Expiration>
            },
    {
        match self {
            Duration::Height(h) => {
                if *h > u64::MAX - block.height {
                    None
                } else {
                    Some(Expiration::AtHeight(block.height + *h))
                }
            },
            Duration::Time(t) => {
                if *t > (u64::MAX - block.time.nanos) / NANOS_PER_SECOND {
                    None
                } else {
                    Some(
                        Expiration::AtTime(
                            Timestamp { nanos: block.time.nanos + *t * NANOS_PER_SECOND },
                        ),
                    )
                }
            },
        }
    }

    /// The expiration that lies this duration after `block`.
    pub fn after(&self, block: &BlockInfo) -> (r: Expiration)
        requires
            self.fits_after(*block),
        ensures
            r == self.end_after(*block),
    {
        match self {
            Duration::Height(h) => Expiration::AtHeight(block.height + *h),
            Duration::Time(t) => Expiration::AtTime(
                Timestamp { nanos: block.time.nanos + *t * NANOS_PER_SECOND },
            ),
        }
    }
}

} // verus!
