//! Averaging of raw ADC reads (mV) into one measurement.
use vstd::prelude::*;
use vstd::arithmetic::div_mod::{lemma_div_is_ordered, lemma_div_multiples_vanish};

verus! {

/// Sum of a run of millivolt reads.
pub open spec fn sum_mv(reads: Seq<u16>) -> int
    decreases reads.len(),
{
    if reads.len() == 0 {
        0
    } else {
        sum_mv(reads.drop_last()) + reads.last()
    }
}

/// Sum of the reads that succeeded.
pub open spec fn valid_sum_mv(reads: Seq<Option<u16>>) -> int
    decreases reads.len(),
{
    if reads.len() == 0 {
        0
    } else {
        valid_sum_mv(reads.drop_last()) + match reads.last() {
            Some(mv) => mv as int,
            None => 0,
        }
    }
}

/// Number of the reads that succeeded.
pub open spec fn valid_count(reads: Seq<Option<u16>>) -> int
    decreases reads.len(),
{
    if reads.len() == 0 {
        0
    } else {
        valid_count(reads.drop_last()) + if reads.last() is Some {
            1int
        } else {
            0int
        }
    }
}

/// The mean of the successful reads, rounded down; `None` when no read
/// succeeded.
pub open spec fn spec_average_valid_mv(reads: Seq<Option<u16>>) -> Option<u32> {
    if valid_count(reads) == 0 {
        None
    } else {
        Some((valid_sum_mv(reads) / valid_count(reads)) as u32)
    }
}

proof fn lemma_mean_fits(sum: int, count: int, hi: int)
    requires
        count > 0,
        0 <= sum <= count * hi,
        hi >= 0,
    ensures
        0 <= sum / count <= hi,
{
    lemma_div_is_ordered(0, sum, count);
    lemma_div_is_ordered(sum, count * hi, count);
    lemma_div_multiples_vanish(hi, count);
    assert(count * hi == hi * count) by (nonlinear_arith);
}

/// The resting cell voltage: the mean of `reads`, rounded down.
pub fn average_mv(reads: &[u16]) -> (mv: u32)
    requires
        0 < reads@.len() <= u32::MAX,
    ensures
        mv == sum_mv(reads@) / (reads@.len() as int),
        mv <= u16::MAX,
{
    let n = reads.len();
    let mut sum: u64 = 0;
    let mut i: usize = 0;
    while i < n
        invariant
            n == reads@.len(),
            n <= u32::MAX,
            i <= n,
            sum == sum_mv(reads@.take(i as int)),
            sum <= i * 65535,
        decreases n - i,
    {
        assert(reads@.take(i as int + 1).drop_last() == reads@.take(i as int));
        sum = sum + reads[i] as u64;
        i = i + 1;
    }
    assert(reads@.take(n as int) == reads@);
    proof {
        lemma_mean_fits(sum as int, n as int, 65535);
    }
    (sum / (n as u64)) as u32
}

/// One soil measurement: the mean of the successful reads, rounded down, or
/// `None` when every read failed.
pub fn average_valid_mv(reads: &[Option<u16>]) -> (mv: Option<u32>)
    requires
        reads@.len() <= u32::MAX,
    ensures
        mv == spec_average_valid_mv(reads@),
        mv matches Some(v) ==> v <= u16::MAX,
{
    let n = reads.len();
    let mut sum: u64 = 0;
    let mut valid: u64 = 0;
    let mut i: usize = 0;
    while i < n
        invariant
            n == reads@.len(),
            n <= u32::MAX,
            i <= n,
            sum == valid_sum_mv(reads@.take(i as int)),
            valid == valid_count(reads@.take(i as int)),
            valid <= i,
            sum <= valid * 65535,
        decreases n - i,
    {
        assert(reads@.take(i as int + 1).drop_last() == reads@.take(i as int));
        match reads[i] {
            Some(mv) => {
                sum = sum + mv as u64;
                valid = valid + 1;
            },
            None => {},
        }
        i = i + 1;
    }
    assert(reads@.take(n as int) == reads@);
    if valid == 0 {
        None
    } else {
        proof {
            lemma_mean_fits(sum as int, valid as int, 65535);
        }
        Some((sum / valid) as u32)
    }
}

proof fn lemma_sum_bounds(reads: Seq<u16>, lo: int, hi: int)
    requires
        forall|i: int| 0 <= i < reads.len() ==> lo <= #[trigger] reads[i] <= hi,
    ensures
        reads.len() * lo <= sum_mv(reads) <= reads.len() * hi,
    decreases reads.len(),
{
    if reads.len() > 0 {
        let init = reads.drop_last();
        assert forall|i: int| 0 <= i < init.len() implies lo <= #[trigger] init[i] <= hi by {
            assert(init[i] == reads[i]);
        }
        lemma_sum_bounds(init, lo, hi);
        assert(reads.len() * lo == init.len() * lo + lo) by (nonlinear_arith)
            requires
                reads.len() == init.len() + 1,
        ;
        assert(reads.len() * hi == init.len() * hi + hi) by (nonlinear_arith)
            requires
                reads.len() == init.len() + 1,
        ;
    }
}

/// The mean of a run of reads lies between its smallest and largest read.
pub proof fn law_average_within_reads(reads: Seq<u16>, lo: int, hi: int)
    requires
        reads.len() > 0,
        forall|i: int| 0 <= i < reads.len() ==> lo <= #[trigger] reads[i] <= hi,
    ensures
        lo <= sum_mv(reads) / (reads.len() as int) <= hi,
{
    let n = reads.len() as int;
    lemma_sum_bounds(reads, lo, hi);
    lemma_div_is_ordered(n * lo, sum_mv(reads), n);
    lemma_div_is_ordered(sum_mv(reads), n * hi, n);
    lemma_div_multiples_vanish(lo, n);
    lemma_div_multiples_vanish(hi, n);
    assert(n * lo == lo * n && n * hi == hi * n) by (nonlinear_arith);
}

proof fn lemma_valid_count_positive(reads: Seq<Option<u16>>)
    ensures
        valid_count(reads) >= 0,
        valid_count(reads) > 0 <==> exists|i: int| 0 <= i < reads.len() && #[trigger] reads[i] is Some,
    decreases reads.len(),
{
    if reads.len() > 0 {
        let init = reads.drop_last();
        lemma_valid_count_positive(init);
        if exists|i: int| 0 <= i < reads.len() && #[trigger] reads[i] is Some {
            let i = choose|i: int| 0 <= i < reads.len() && #[trigger] reads[i] is Some;
            if i < reads.len() - 1 {
                assert(init[i] == reads[i]);
            }
        }
        if exists|i: int| 0 <= i < init.len() && #[trigger] init[i] is Some {
            let i = choose|i: int| 0 <= i < init.len() && #[trigger] init[i] is Some;
            assert(reads[i] == init[i]);
        }
    }
}

/// A soil measurement is `None` exactly when every read failed: a single
/// successful read makes it `Some`. When every read succeeded with the same
/// value, the measurement is that value.
pub proof fn law_valid_average_defined(reads: Seq<Option<u16>>, mv: u16)
    ensures
        spec_average_valid_mv(reads) is Some <==> exists|i: int|
            0 <= i < reads.len() && #[trigger] reads[i] is Some,
        reads.len() > 0 && (forall|i: int| 0 <= i < reads.len() ==> #[trigger] reads[i] == Some(mv))
            ==> spec_average_valid_mv(reads) == Some(mv as u32),
{
    lemma_valid_count_positive(reads);
    if reads.len() > 0 && (forall|i: int| 0 <= i < reads.len() ==> #[trigger] reads[i] == Some(mv)) {
        assert(reads[0] is Some);
        lemma_valid_sum_bounds(reads, mv as int, mv as int);
        let n = valid_count(reads);
        let s = valid_sum_mv(reads);
        assert(s == n * mv);
        lemma_div_multiples_vanish(mv as int, n);
        assert(n * mv == mv * n) by (nonlinear_arith);
    }
}

/// The battery measurement of identical reads is that read.
pub proof fn law_average_of_equal_reads(reads: Seq<u16>, mv: u16)
    requires
        reads.len() > 0,
        forall|i: int| 0 <= i < reads.len() ==> #[trigger] reads[i] == mv,
    ensures
        sum_mv(reads) / (reads.len() as int) == mv,
{
    law_average_within_reads(reads, mv as int, mv as int);
}

proof fn lemma_valid_sum_bounds(reads: Seq<Option<u16>>, lo: int, hi: int)
    requires
        forall|i: int| 0 <= i < reads.len() ==> (#[trigger] reads[i] matches Some(mv) ==> lo <= mv
            <= hi),
    ensures
        valid_count(reads) >= 0,
        valid_count(reads) * lo <= valid_sum_mv(reads) <= valid_count(reads) * hi,
    decreases reads.len(),
{
    if reads.len() > 0 {
        let init = reads.drop_last();
        assert forall|i: int| 0 <= i < init.len() implies (#[trigger] init[i] matches Some(mv) ==> lo
            <= mv <= hi) by {
            assert(init[i] == reads[i]);
        }
        lemma_valid_sum_bounds(init, lo, hi);
        let c = valid_count(init);
        if reads.last() is Some {
            assert((c + 1) * lo == c * lo + lo && (c + 1) * hi == c * hi + hi) by (nonlinear_arith);
        }
    }
}

/// A soil measurement ignores the reads that failed: it lies between the
/// smallest and the largest successful read.
pub proof fn law_valid_average_within_reads(reads: Seq<Option<u16>>, lo: int, hi: int)
    requires
        forall|i: int| 0 <= i < reads.len() ==> (#[trigger] reads[i] matches Some(mv) ==> lo <= mv
            <= hi),
    ensures
        spec_average_valid_mv(reads) matches Some(mv) ==> lo <= mv <= hi,
{
    lemma_valid_sum_bounds(reads, lo, hi);
    let n = valid_count(reads);
    if n > 0 {
        let s = valid_sum_mv(reads);
        lemma_div_is_ordered(n * lo, s, n);
        lemma_div_is_ordered(s, n * hi, n);
        lemma_div_multiples_vanish(lo, n);
        lemma_div_multiples_vanish(hi, n);
        assert(n * lo == lo * n && n * hi == hi * n) by (nonlinear_arith);
        lemma_valid_sum_bounds(reads, 0, 65535);
        assert(n * 0 == 0) by (nonlinear_arith);
        lemma_mean_fits(s, n, 65535);
    }
}

} // verus!
