//! The NTP 32.32 fixed-point timestamp and its conversions to UTC instants.

use vstd::prelude::*;

use crate::config::{MAX_UNIX_SECONDS, NANOS_PER_SEC, NTP_TD_UNIX_SECONDS};

verus! {

/// 2^32: one second in units of the NTP fraction.
pub const FRACTION_PER_SEC: u64 = 4_294_967_296;

/// An absolute UTC instant with nanosecond resolution.
#[derive(Clone, Copy, Debug, PartialEq, Eq, Structural)]
pub struct UtcInstant {
    /// Whole seconds since 1970-01-01T00:00:00Z.
    pub unix_seconds: i64,
    /// Nanoseconds within that second.
    pub nanos: u32,
}

/// An NTP timestamp: seconds since 1900-01-01T00:00:00Z and a binary
/// fraction of a second (2^32 is one second).
#[derive(Clone, Copy, Debug, Default, PartialEq, Eq, Structural)]
pub struct NTPTimeStamp {
    pub seconds: u32,
    pub fraction: u32,
}

/// Why a timestamp could not be decoded or converted.
#[derive(Clone, Copy, Debug, PartialEq, Eq, Structural)]
pub enum CodecError {
    /// Fewer than eight bytes were available.
    ShortBuffer,
    /// The instant lies outside the seconds that an NTP timestamp can carry.
    OutOfRange,
}

/// The unsigned integer that four big-endian bytes spell.
pub open spec fn be_u32(b0: u8, b1: u8, b2: u8, b3: u8) -> int {
    b0 * 16_777_216 + b1 * 65_536 + b2 * 256 + b3
}

/// Nanoseconds that an NTP fraction stands for, rounded to nearest (half up).
pub open spec fn nanos_of_fraction(fraction: u32) -> int {
    (fraction * 1_000_000_000 + 2_147_483_648) / 4_294_967_296
}

/// NTP fraction that a count of nanoseconds stands for, rounded to nearest (half up).
pub open spec fn fraction_of_nanos(nanos: u32) -> int {
    (nanos * 4_294_967_296 + 500_000_000) / 1_000_000_000
}

/// Whether an NTP timestamp can carry the given Unix second.
pub open spec fn in_ntp_range(unix_seconds: int) -> bool {
    0 <= unix_seconds + NTP_TD_UNIX_SECONDS <= u32::MAX
}

impl UtcInstant {
    /// Nanoseconds below one second, and seconds within the supported span.
    pub open spec fn wf(self) -> bool {
        &&& self.nanos < NANOS_PER_SEC
        &&& -MAX_UNIX_SECONDS <= self.unix_seconds <= MAX_UNIX_SECONDS
    }

    /// Nanoseconds since the Unix epoch.
    pub open spec fn total_nanos(self) -> int {
        self.unix_seconds * 1_000_000_000 + self.nanos
    }

    /// The instant `unix_seconds` s and `nanos` ns after the Unix epoch, if
    /// `nanos` is below one second and the second within the supported span.
    pub fn new(unix_seconds: i64, nanos: u32) -> (r: Option<UtcInstant>)
        ensures
            r is Some <==> (UtcInstant { unix_seconds, nanos }).wf(),
            r is Some ==> r->0 == (UtcInstant { unix_seconds, nanos }),
    {
        if nanos < NANOS_PER_SEC && -MAX_UNIX_SECONDS <= unix_seconds
            && unix_seconds <= MAX_UNIX_SECONDS {
            Some(UtcInstant { unix_seconds, nanos })
        } else {
            None
        }
    }
}

/// The instant an NTP timestamp denotes; a fraction that rounds up to a whole
/// second carries into the next second.
pub open spec fn instant_of_ntp(ts: NTPTimeStamp) -> UtcInstant {
    let secs = ts.seconds - NTP_TD_UNIX_SECONDS;
    let n = nanos_of_fraction(ts.fraction);
    if n < 1_000_000_000 {
        UtcInstant { unix_seconds: secs as i64, nanos: n as u32 }
    } else {
        UtcInstant { unix_seconds: (secs + 1) as i64, nanos: (n - 1_000_000_000) as u32 }
    }
}

/// The NTP timestamp of an instant, when its second is in range.
pub open spec fn ntp_of_instant(t: UtcInstant) -> Option<NTPTimeStamp> {
    if in_ntp_range(t.unix_seconds as int) {
        Some(
            NTPTimeStamp {
                seconds: (t.unix_seconds + NTP_TD_UNIX_SECONDS) as u32,
                fraction: fraction_of_nanos(t.nanos) as u32,
            },
        )
    } else {
        None
    }
}

proof fn lemma_nanos_of_fraction_bound(fraction: u32)
    ensures
        0 <= nanos_of_fraction(fraction) <= 1_000_000_000,
        nanos_of_fraction(fraction) == 1_000_000_000 ==> fraction * 1_000_000_000
            + 2_147_483_648 >= 1_000_000_000 * 4_294_967_296,
{
    let num = fraction * 1_000_000_000 + 2_147_483_648;
    assert(0 <= num < 1_000_000_001 * 4_294_967_296);
    vstd::arithmetic::div_mod::lemma_div_pos_is_pos(num, 4_294_967_296);
    vstd::arithmetic::div_mod::lemma_div_is_ordered(num, 1_000_000_001 * 4_294_967_296 - 1, 4_294_967_296);
    vstd::arithmetic::div_mod::lemma_div_multiples_vanish_fancy(1_000_000_001, 4_294_967_295, 4_294_967_296);
}

proof fn lemma_fraction_of_nanos_bound(nanos: u32)
    requires
        nanos < 1_000_000_000,
    ensures
        0 <= fraction_of_nanos(nanos) <= u32::MAX,
{
    let num = nanos * 4_294_967_296 + 500_000_000;
    assert(0 <= num < 4_294_967_296 * 1_000_000_000);
    vstd::arithmetic::div_mod::lemma_div_pos_is_pos(num, 1_000_000_000);
    vstd::arithmetic::div_mod::lemma_div_is_ordered(num, 4_294_967_296 * 1_000_000_000 - 1, 1_000_000_000);
    vstd::arithmetic::div_mod::lemma_div_multiples_vanish_fancy(4_294_967_295, 999_999_999, 1_000_000_000);
}

/// Every NTP timestamp denotes a well-formed instant.
pub proof fn lemma_instant_of_ntp_wf(ts: NTPTimeStamp)
    ensures
        instant_of_ntp(ts).wf(),
        instant_of_ntp(ts).total_nanos() == (ts.seconds - NTP_TD_UNIX_SECONDS) * 1_000_000_000
            + nanos_of_fraction(ts.fraction),
{
    lemma_nanos_of_fraction_bound(ts.fraction);
}

/// Round trip: an instant whose second an NTP timestamp can carry converts to
/// a timestamp and back to the very same instant, whole second and nanoseconds.
pub proof fn lemma_round_trip(t: UtcInstant)
    requires
        t.wf(),
        in_ntp_range(t.unix_seconds as int),
    ensures
        ntp_of_instant(t) is Some,
        instant_of_ntp(ntp_of_instant(t)->0) == t,
{
    let n = t.nanos as int;
    lemma_fraction_of_nanos_bound(t.nanos);
    let ts = ntp_of_instant(t)->0;
    let f = fraction_of_nanos(t.nanos);
    assert(ts.fraction == f);
    let num = n * 4_294_967_296 + 500_000_000;
    let r = num % 1_000_000_000;
    vstd::arithmetic::div_mod::lemma_fundamental_div_mod(num, 1_000_000_000);
    vstd::arithmetic::div_mod::lemma_mod_bound(num, 1_000_000_000);
    assert(f * 1_000_000_000 == num - r);
    let back = f * 1_000_000_000 + 2_147_483_648;
    assert(back == n * 4_294_967_296 + (500_000_000 - r + 2_147_483_648));
    let rest = 500_000_000 - r + 2_147_483_648;
    assert(0 <= rest < 4_294_967_296);
    vstd::arithmetic::div_mod::lemma_div_multiples_vanish_fancy(n, rest, 4_294_967_296);
    assert(nanos_of_fraction(ts.fraction) == n);
}

/// Decoding depends on the eight bytes read alone: two buffers that agree on
/// them decode to the same timestamp, and a buffer with fewer than eight bytes
/// from the start position never decodes.
pub proof fn lemma_decode_determined_by_window(a: Seq<u8>, i: int, b: Seq<u8>, j: int)
    requires
        0 <= i,
        0 <= j,
        i + 8 <= a.len(),
        j + 8 <= b.len(),
        a.subrange(i, i + 8) == b.subrange(j, j + 8),
    ensures
        decode_spec(a, i) == decode_spec(b, j),
        decode_spec(a, i) is Some,
        forall|s: Seq<u8>, k: int| 0 <= k && k + 8 > s.len() ==> #[trigger] decode_spec(s, k) is None,
{
    let wa = a.subrange(i, i + 8);
    let wb = b.subrange(j, j + 8);
    assert(wa[0] == wb[0]);
    assert(wa[1] == wb[1]);
    assert(wa[2] == wb[2]);
    assert(wa[3] == wb[3]);
    assert(wa[4] == wb[4]);
    assert(wa[5] == wb[5]);
    assert(wa[6] == wb[6]);
    assert(wa[7] == wb[7]);
}

/// The timestamp at `s[at..at + 8]`, or `None` when fewer than eight bytes follow.
pub open spec fn decode_spec(s: Seq<u8>, at: int) -> Option<NTPTimeStamp> {
    if at + 8 <= s.len() {
        Some(
            NTPTimeStamp {
                seconds: be_u32(s[at], s[at + 1], s[at + 2], s[at + 3]) as u32,
                fraction: be_u32(s[at + 4], s[at + 5], s[at + 6], s[at + 7]) as u32,
            },
        )
    } else {
        None
    }
}

impl NTPTimeStamp {
    /// Reads a timestamp from `bytes[at..at + 8]`: seconds, then fraction,
    /// each a big-endian `u32`. Fails when fewer than eight bytes follow `at`.
    pub fn decode(bytes: &[u8], at: usize) -> (r: Result<NTPTimeStamp, CodecError>)
        ensures
            r is Err <==> at + 8 > bytes@.len(),
            r is Err ==> r->Err_0 == CodecError::ShortBuffer,
            r is Ok ==> decode_spec(bytes@, at as int) == Some(r->Ok_0),
            r is Ok ==> r->Ok_0.seconds == be_u32(
                bytes@[at as int],
                bytes@[at + 1],
                bytes@[at + 2],
                bytes@[at + 3],
            ),
            r is Ok ==> r->Ok_0.fraction == be_u32(
                bytes@[at + 4],
                bytes@[at + 5],
                bytes@[at + 6],
                bytes@[at + 7],
            ),
    {
        if at > bytes.len() || bytes.len() - at < 8 {
            return Err(CodecError::ShortBuffer);
        }
        let seconds = read_be_u32(bytes, at);
        let fraction = read_be_u32(bytes, at + 4);
        Ok(NTPTimeStamp { seconds, fraction })
    }

    /// The UTC instant this timestamp denotes (NTP seconds less the epoch
    /// delta, fraction rounded to the nearest nanosecond with carry).
    pub fn to_instant(self) -> (r: UtcInstant)
        ensures
            r == instant_of_ntp(self),
            r.wf(),
            r.total_nanos() == (self.seconds - NTP_TD_UNIX_SECONDS) * 1_000_000_000
                + nanos_of_fraction(self.fraction),
    {
        proof {
            lemma_instant_of_ntp_wf(self);
        }
        let n: u64 = ((self.fraction as u64) * 1_000_000_000 + 2_147_483_648) / FRACTION_PER_SEC;
        let secs: i64 = self.seconds as i64 - NTP_TD_UNIX_SECONDS;
        if n < 1_000_000_000 {
            UtcInstant { unix_seconds: secs, nanos: n as u32 }
        } else {
            UtcInstant { unix_seconds: secs + 1, nanos: 0 }
        }
    }

    /// The NTP timestamp of `t` (Unix seconds plus the epoch delta, nanoseconds
    /// rounded to the nearest fraction unit); fails when the second does not
    /// fit in 32 unsigned bits.
    pub fn from_instant(t: UtcInstant) -> (r: Result<NTPTimeStamp, CodecError>)
        requires
            t.wf(),
        ensures
            r is Ok <==> in_ntp_range(t.unix_seconds as int),
            r is Ok ==> ntp_of_instant(t) == Some(r->Ok_0),
            r is Ok ==> r->Ok_0.seconds == t.unix_seconds + NTP_TD_UNIX_SECONDS,
            r is Ok ==> r->Ok_0.fraction == fraction_of_nanos(t.nanos),
            r is Err ==> r->Err_0 == CodecError::OutOfRange,
    {
        let s: i64 = t.unix_seconds + NTP_TD_UNIX_SECONDS;
        if s < 0 || s > 4_294_967_295 {
            return Err(CodecError::OutOfRange);
        }
        proof {
            lemma_fraction_of_nanos_bound(t.nanos);
        }
        let f: u64 = ((t.nanos as u64) * FRACTION_PER_SEC + 500_000_000) / 1_000_000_000;
        Ok(NTPTimeStamp { seconds: s as u32, fraction: f as u32 })
    }
}

/// The big-endian `u32` at `bytes[at..at + 4]`.
fn read_be_u32(bytes: &[u8], at: usize) -> (r: u32)
    requires
        at + 4 <= bytes@.len(),
    ensures
        r == be_u32(bytes@[at as int], bytes@[at + 1], bytes@[at + 2], bytes@[at + 3]),
{
    let b0 = bytes[at] as u32;
    let b1 = bytes[at + 1] as u32;
    let b2 = bytes[at + 2] as u32;
    let b3 = bytes[at + 3] as u32;
    b0 * 16_777_216 + b1 * 65_536 + b2 * 256 + b3
}

} // verus!
