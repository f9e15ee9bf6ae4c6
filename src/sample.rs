//! One round trip with one server: the four instants and what they yield.

use vstd::prelude::*;

use crate::message::NTPMessage;
use crate::timestamp::{decode_spec, instant_of_ntp, UtcInstant};

verus! {

/// Why one exchange with one server gave no sample.
#[derive(Clone, Copy, Debug, PartialEq, Eq, Structural)]
pub enum ExchangeError {
    /// The socket could not be bound or connected, or the request not sent.
    Network,
    /// No reply arrived in time.
    Timeout,
    /// The reply was too short or its timestamps could not be read.
    Protocol,
}

/// The four instants of one exchange: local send (`t1`), server receive
/// (`t2`), server transmit (`t3`) and local receive (`t4`).
#[derive(Clone, Copy, Debug, PartialEq, Eq, Structural)]
pub struct NTPResult {
    pub t1: UtcInstant,
    pub t2: UtcInstant,
    pub t3: UtcInstant,
    pub t4: UtcInstant,
}

/// `a / b` rounded toward zero, for `b > 0`.
pub open spec fn trunc_div(a: int, b: int) -> int {
    if a >= 0 {
        a / b
    } else {
        -((-a) / b)
    }
}

/// Absolute value.
pub open spec fn abs(a: int) -> int {
    if a >= 0 {
        a
    } else {
        -a
    }
}

impl NTPResult {
    pub open spec fn wf(self) -> bool {
        &&& self.t1.wf()
        &&& self.t2.wf()
        &&& self.t3.wf()
        &&& self.t4.wf()
    }

    /// Local elapsed time less server processing time, in nanoseconds.
    pub open spec fn delay_ns(self) -> int {
        (self.t4.total_nanos() - self.t1.total_nanos()) - (self.t3.total_nanos()
            - self.t2.total_nanos())
    }

    /// The round-trip delay in whole milliseconds, rounded toward zero.
    pub open spec fn delay_ms(self) -> int {
        trunc_div(self.delay_ns(), 1_000_000)
    }

    /// The offset estimate: half the magnitude of the delay, rounded down.
    pub open spec fn offset_ms(self) -> int {
        abs(self.delay_ms()) / 2
    }

    /// `((t4 - t1) - (t3 - t2))` in whole milliseconds, rounded toward zero.
    pub fn delay(&self) -> (r: i64)
        requires
            self.wf(),
        ensures
            r == self.delay_ms(),
    {
        let n1 = instant_nanos(self.t1);
        let n2 = instant_nanos(self.t2);
        let n3 = instant_nanos(self.t3);
        let n4 = instant_nanos(self.t4);
        let d: i128 = (n4 - n1) - (n3 - n2);
        let ghost bound: int = 4 * 1_099_511_627_777 * 1_000_000_000int;
        let mag: u128 = if d >= 0 {
            d as u128
        } else {
            (-d) as u128
        };
        let m: u128 = mag / 1_000_000;
        proof {
            vstd::arithmetic::div_mod::lemma_div_is_ordered(mag as int, bound, 1_000_000);
            assert(bound / 1_000_000 == 4 * 1_099_511_627_777 * 1_000);
        }
        if d >= 0 {
            m as i64
        } else {
            -(m as i64)
        }
    }

    /// `|delay| / 2`, in milliseconds.
    pub fn offset(&self) -> (r: i64)
        requires
            self.wf(),
        ensures
            r == self.offset_ms(),
            r >= 0,
    {
        let delta = self.delay();
        if delta >= 0 {
            delta / 2
        } else {
            (-delta) / 2
        }
    }

    /// The sample of one exchange: `t1` and `t4` as stamped locally, `t2` and
    /// `t3` decoded from the reply's receive and transmit timestamps. A reply
    /// shorter than a whole packet is a protocol error.
    pub fn from_exchange(t1: UtcInstant, reply: &[u8], t4: UtcInstant) -> (r: Result<
        NTPResult,
        ExchangeError,
    >)
        requires
            t1.wf(),
            t4.wf(),
        ensures
            r is Err <==> reply@.len() < 48,
            r is Err ==> r->Err_0 == ExchangeError::Protocol,
            r is Ok ==> r->Ok_0.wf(),
            r is Ok ==> r->Ok_0 == (NTPResult {
                t1,
                t2: instant_of_ntp(decode_spec(reply@, 32)->0),
                t3: instant_of_ntp(decode_spec(reply@, 40)->0),
                t4,
            }),
    {
        let msg = match NTPMessage::from_reply(reply) {
            Ok(m) => m,
            Err(_) => return Err(ExchangeError::Protocol),
        };
        let rx = match msg.rx_time() {
            Ok(ts) => ts,
            Err(_) => return Err(ExchangeError::Protocol),
        };
        let tx = match msg.tx_time() {
            Ok(ts) => ts,
            Err(_) => return Err(ExchangeError::Protocol),
        };
        proof {
            assert(msg.data@ == reply@.subrange(0, 48));
            assert(decode_spec(msg.data@, 32) == decode_spec(reply@, 32));
            assert(decode_spec(msg.data@, 40) == decode_spec(reply@, 40));
        }
        Ok(NTPResult { t1, t2: rx.to_instant(), t3: tx.to_instant(), t4 })
    }
}

/// The delay of a well-formed sample fits in an `i64` with a wide margin.
pub proof fn lemma_delay_bounds(r: NTPResult)
    requires
        r.wf(),
    ensures
        -4_398_046_511_108_000 <= r.delay_ms() <= 4_398_046_511_108_000,
        0 <= r.offset_ms() <= 2_199_023_255_554_000,
{
    let d = r.delay_ns();
    let bound = 4 * 1_099_511_627_777 * 1_000_000_000int;
    let mag = abs(d);
    vstd::arithmetic::div_mod::lemma_div_is_ordered(mag, bound, 1_000_000);
    vstd::arithmetic::div_mod::lemma_div_pos_is_pos(mag, 1_000_000);
    assert(bound / 1_000_000 == 4_398_046_511_108_000);
}

/// Nanoseconds since the Unix epoch of a well-formed instant.
fn instant_nanos(t: UtcInstant) -> (r: i128)
    requires
        t.wf(),
    ensures
        r == t.total_nanos(),
        -1_099_511_627_777 * 1_000_000_000 < r < 1_099_511_627_777 * 1_000_000_000,
{
    (t.unix_seconds as i128) * 1_000_000_000 + (t.nanos as i128)
}

} // verus!
