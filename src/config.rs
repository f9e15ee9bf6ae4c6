//! Protocol constants shared by the codec, the message and the estimator.

use vstd::prelude::*;

verus! {

/// Length of an NTP packet in bytes.
pub const NTP_MESSAGE_LENGTH: usize = 48;

/// Seconds from the NTP epoch (1900-01-01T00:00:00Z) to the Unix epoch.
pub const NTP_TD_UNIX_SECONDS: i64 = 2_208_988_800;

/// Well-known NTP port.
pub const NTP_PORT: u16 = 123;

/// How long one exchange waits for a reply, in seconds.
pub const REPLY_TIMEOUT_SECS: u64 = 1;

/// Nanoseconds in one second.
pub const NANOS_PER_SEC: u32 = 1_000_000_000;

/// Largest distance, in seconds, of an instant from the Unix epoch
/// (2^40 s, about 34,800 years either way).
pub const MAX_UNIX_SECONDS: i64 = 1_099_511_627_776;

/// Largest clock correction considered, in milliseconds, before scaling.
pub const MAX_ADJUST_MS: i64 = 200;

/// A correction is scaled down by this factor before it is applied.
pub const ADJUST_DIVISOR: i64 = 5;

} // verus!
