use vstd::arithmetic::div_mod::lemma_div_is_ordered;
use vstd::prelude::*;

verus! {

/// The percentage reported for a download: `floor(done * 100 / total)` while
/// the total byte count is known, clamped to 100 should more bytes arrive
/// than announced, and held at 0 while the remote reports no total.
pub open spec fn percent_of(done: u64, total: u64) -> int {
    if total == 0 {
        0
    } else if done >= total {
        100
    } else {
        (done * 100) / (total as int)
    }
}

/// Compute the progress percentage for `done` received bytes of `total`.
pub fn progress_percent(done: u64, total: u64) -> (r: usize)
    ensures
        r == percent_of(done, total),
        r <= 100,
{
    if total == 0 {
        0
    } else if done >= total {
        100
    } else {
        let p = (((done as u128) * 100) / (total as u128)) as usize;
        proof {
            assert((done * 100) / (total as int) < 100) by (nonlinear_arith)
                requires
                    done < total,
                    0 < total,
            ;
            assert((done * 100) / (total as int) >= 0) by (nonlinear_arith)
                requires
                    0 < total,
            ;
        }
        p
    }
}

/// Progress can never regress: a later byte count never maps to a smaller
/// percentage, and a download that reaches its full total reports exactly
/// 100.
pub proof fn lemma_percent_monotone(d1: u64, d2: u64, total: u64)
    requires
        d1 <= d2,
    ensures
        percent_of(d1, total) <= percent_of(d2, total),
        percent_of(total, total) == (if total == 0 { 0int } else { 100int }),
{
    if total > 0 {
        if d2 < total {
            assert(d1 * 100 <= d2 * 100) by (nonlinear_arith)
                requires
                    d1 <= d2,
            ;
            lemma_div_is_ordered(d1 * 100, d2 * 100, total as int);
        } else if d1 < total {
            assert((d1 * 100) / (total as int) < 100) by (nonlinear_arith)
                requires
                    d1 < total,
                    0 < total,
            ;
        }
    }
}

} // verus!
