//! Combining samples into one estimate, and the correction applied to the clock.

use vstd::prelude::*;

use crate::config::{ADJUST_DIVISOR, MAX_ADJUST_MS, MAX_UNIX_SECONDS};
use crate::sample::{abs, lemma_delay_bounds, trunc_div, NTPResult};
use crate::timestamp::UtcInstant;

verus! {

/// Why no offset could be estimated.
#[derive(Clone, Copy, Debug, PartialEq, Eq, Structural)]
pub enum AggregationError {
    /// No sample had a finite weight (every delay was zero, or none arrived).
    NoUsableSamples,
}

/// The `(offset_ms, delay_ms)` pairs that enter the weighted mean, in order:
/// one per sample whose delay is not zero. A zero delay would give the
/// weight `1_000_000 / delay^2` no finite value, so such a sample is left out.
pub open spec fn usable_pairs(s: Seq<NTPResult>) -> Seq<(i64, i64)>
    decreases s.len(),
{
    if s.len() == 0 {
        Seq::empty()
    } else {
        let prev = usable_pairs(s.drop_last());
        let r = s.last();
        if r.delay_ms() != 0 {
            prev.push((r.offset_ms() as i64, r.delay_ms() as i64))
        } else {
            prev
        }
    }
}

/// Whether some sample has a delay other than zero.
pub open spec fn has_usable(s: Seq<NTPResult>) -> bool {
    exists|i: int| 0 <= i < s.len() && #[trigger] s[i].delay_ms() != 0
}

proof fn lemma_usable_pairs_empty(s: Seq<NTPResult>)
    ensures
        usable_pairs(s).len() == 0 <==> !has_usable(s),
    decreases s.len(),
{
    if s.len() > 0 {
        let p = s.drop_last();
        lemma_usable_pairs_empty(p);
        if has_usable(p) {
            let i = choose|i: int| 0 <= i < p.len() && #[trigger] p[i].delay_ms() != 0;
            assert(s[i] == p[i]);
        }
        if has_usable(s) && s.last().delay_ms() == 0 {
            let i = choose|i: int| 0 <= i < s.len() && #[trigger] s[i].delay_ms() != 0;
            assert(p[i] == s[i]);
        }
    }
}

/// Every pair kept has a non-zero delay, so every weight is finite.
pub proof fn lemma_usable_delays_nonzero(s: Seq<NTPResult>)
    requires
        forall|i: int| 0 <= i < s.len() ==> (#[trigger] s[i]).wf(),
    ensures
        forall|k: int| 0 <= k < usable_pairs(s).len() ==> (#[trigger] usable_pairs(s)[k]).1 != 0,
    decreases s.len(),
{
    if s.len() > 0 {
        let p = s.drop_last();
        assert forall|i: int| 0 <= i < p.len() implies (#[trigger] p[i]).wf() by {
            assert(p[i] == s[i]);
        }
        lemma_usable_delays_nonzero(p);
        lemma_delay_bounds(s.last());
        let prev = usable_pairs(p);
        assert forall|k: int| 0 <= k < usable_pairs(s).len() implies (#[trigger] usable_pairs(
            s,
        )[k]).1 != 0 by {
            if k < prev.len() {
                assert(usable_pairs(s)[k] == prev[k]);
            }
        }
    }
}

/// A sample with zero delay is excluded: adding it changes nothing, and no
/// kept pair carries a zero delay.
pub proof fn lemma_zero_delay_excluded(s: Seq<NTPResult>, r: NTPResult)
    requires
        forall|i: int| 0 <= i < s.len() ==> (#[trigger] s[i]).wf(),
        r.wf(),
        r.delay_ms() == 0,
    ensures
        usable_pairs(s.push(r)) == usable_pairs(s),
        forall|k: int|
            0 <= k < usable_pairs(s.push(r)).len() ==> (#[trigger] usable_pairs(s.push(r))[k]).1
                != 0,
{
    assert(s.push(r).drop_last() =~= s);
    assert forall|i: int| 0 <= i < s.push(r).len() implies (#[trigger] s.push(r)[i]).wf() by {
        if i < s.len() {
            assert(s.push(r)[i] == s[i]);
        }
    }
    lemma_usable_delays_nonzero(s.push(r));
}

/// With no server processing time (`t2 == t3`) the delay is the local round
/// trip `t4 - t1` in milliseconds, and when `t1` precedes `t4` the offset is
/// half of it.
pub proof fn lemma_delay_symmetry(r: NTPResult)
    requires
        r.wf(),
        r.t2 == r.t3,
    ensures
        r.delay_ms() == trunc_div(r.t4.total_nanos() - r.t1.total_nanos(), 1_000_000),
        r.t1.total_nanos() <= r.t4.total_nanos() ==> r.delay_ms() >= 0 && r.offset_ms()
            == r.delay_ms() / 2,
{
    let d = r.t4.total_nanos() - r.t1.total_nanos();
    if d >= 0 {
        vstd::arithmetic::div_mod::lemma_div_pos_is_pos(d, 1_000_000);
    }
}

/// The `(offset_ms, delay_ms)` pairs of the samples whose delay is not zero,
/// in the order given; fails when there is none, so that no estimate is made
/// from nothing.
pub fn select_samples(results: &[NTPResult]) -> (r: Result<Vec<(i64, i64)>, AggregationError>)
    requires
        forall|i: int| 0 <= i < results@.len() ==> (#[trigger] results@[i]).wf(),
    ensures
        r is Err <==> !has_usable(results@),
        r is Err ==> r->Err_0 == AggregationError::NoUsableSamples,
        r is Ok ==> r->Ok_0@ == usable_pairs(results@),
{
    let mut out: Vec<(i64, i64)> = Vec::new();
    let mut i: usize = 0;
    while i < results.len()
        invariant
            i <= results@.len(),
            forall|j: int| 0 <= j < results@.len() ==> (#[trigger] results@[j]).wf(),
            out@ == usable_pairs(results@.subrange(0, i as int)),
        decreases results@.len() - i,
    {
        let res = &results[i];
        let delay = res.delay();
        proof {
            assert(results@.subrange(0, i + 1).drop_last() =~= results@.subrange(0, i as int));
        }
        if delay != 0 {
            out.push((res.offset(), delay));
        }
        i = i + 1;
    }
    proof {
        assert(results@.subrange(0, results@.len() as int) =~= results@);
        lemma_usable_pairs_empty(results@);
    }
    if out.len() == 0 {
        Err(AggregationError::NoUsableSamples)
    } else {
        Ok(out)
    }
}

/// The correction for an offset: `sign(offset) * min(|offset|, 200) / 5`,
/// rounded toward zero; at most 40 ms either way.
pub open spec fn correction_of(offset_ms: int) -> int {
    let capped = if abs(offset_ms) < MAX_ADJUST_MS {
        abs(offset_ms)
    } else {
        MAX_ADJUST_MS as int
    };
    if offset_ms >= 0 {
        capped / ADJUST_DIVISOR as int
    } else {
        -(capped / ADJUST_DIVISOR as int)
    }
}

/// The step, in milliseconds, applied to the clock for an estimated offset.
pub fn correction_ms(offset_ms: i64) -> (r: i64)
    ensures
        r == correction_of(offset_ms as int),
        -40 <= r <= 40,
{
    let capped: i64 = if offset_ms >= MAX_ADJUST_MS || offset_ms <= -MAX_ADJUST_MS {
        MAX_ADJUST_MS
    } else if offset_ms >= 0 {
        offset_ms
    } else {
        -offset_ms
    };
    if offset_ms >= 0 {
        capped / ADJUST_DIVISOR
    } else {
        -(capped / ADJUST_DIVISOR)
    }
}

/// Nanoseconds since the Unix epoch of `now` moved by the correction for
/// `offset_ms`.
pub open spec fn corrected_nanos(now: UtcInstant, offset_ms: int) -> int {
    now.total_nanos() + correction_of(offset_ms) * 1_000_000
}

/// `now` moved by the correction for `offset_ms`; fails only when the result
/// leaves the supported span of instants.
pub fn corrected_time(now: UtcInstant, offset_ms: i64) -> (r: Option<UtcInstant>)
    requires
        now.wf(),
    ensures
        r is Some <==> -MAX_UNIX_SECONDS <= corrected_nanos(now, offset_ms as int) / 1_000_000_000
            <= MAX_UNIX_SECONDS,
        r is Some ==> r->0 == (UtcInstant {
            unix_seconds: (corrected_nanos(now, offset_ms as int) / 1_000_000_000) as i64,
            nanos: (corrected_nanos(now, offset_ms as int) % 1_000_000_000) as u32,
        }),
        r is Some ==> r->0.wf() && r->0.total_nanos() == corrected_nanos(now, offset_ms as int),
{
    let step = correction_ms(offset_ms);
    let n: i64 = now.nanos as i64 + step * 1_000_000;
    let (secs, nanos): (i64, i64) = if n < 0 {
        (now.unix_seconds - 1, n + 1_000_000_000)
    } else if n >= 1_000_000_000 {
        (now.unix_seconds + 1, n - 1_000_000_000)
    } else {
        (now.unix_seconds, n)
    };
    proof {
        let total = corrected_nanos(now, offset_ms as int);
        assert(secs * 1_000_000_000 + nanos == total);
        vstd::arithmetic::div_mod::lemma_fundamental_div_mod(total, 1_000_000_000);
        vstd::arithmetic::div_mod::lemma_mod_bound(total, 1_000_000_000);
        lemma_unique_split(
            secs as int,
            nanos as int,
            total / 1_000_000_000,
            total % 1_000_000_000,
        );
    }
    if secs < -MAX_UNIX_SECONDS || secs > MAX_UNIX_SECONDS {
        None
    } else {
        Some(UtcInstant { unix_seconds: secs, nanos: nanos as u32 })
    }
}

/// A count of nanoseconds splits into seconds and nanoseconds below one
/// second in one way only.
proof fn lemma_unique_split(s1: int, n1: int, s2: int, n2: int)
    requires
        0 <= n1 < 1_000_000_000,
        0 <= n2 < 1_000_000_000,
        s1 * 1_000_000_000 + n1 == s2 * 1_000_000_000 + n2,
    ensures
        s1 == s2,
        n1 == n2,
{
    assert(s1 == s2) by (nonlinear_arith)
        requires
            0 <= n1 < 1_000_000_000,
            0 <= n2 < 1_000_000_000,
            s1 * 1_000_000_000 + n1 == s2 * 1_000_000_000 + n2,
    ;
}

} // verus!
