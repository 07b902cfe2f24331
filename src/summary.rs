use vstd::prelude::*;

use crate::response::PingResponse;

verus! {

/// Number of successful results in a sequence.
pub open spec fn returned(s: Seq<PingResponse>) -> nat
    decreases s.len(),
{
    if s.len() == 0 {
        0
    } else {
        returned(s.drop_last()) + if s.last().succeeded() {
            1nat
        } else {
            0nat
        }
    }
}

/// Number of unsuccessful results in a sequence.
pub open spec fn lost(s: Seq<PingResponse>) -> nat
    decreases s.len(),
{
    if s.len() == 0 {
        0
    } else {
        lost(s.drop_last()) + if s.last().succeeded() {
            0nat
        } else {
            1nat
        }
    }
}

/// Round-trip times of the successful results, in order.
pub open spec fn rtts(s: Seq<PingResponse>) -> Seq<u64>
    decreases s.len(),
{
    if s.len() == 0 {
        Seq::empty()
    } else if s.last().succeeded() {
        rtts(s.drop_last()).push(s.last().rtt.unwrap())
    } else {
        rtts(s.drop_last())
    }
}

pub open spec fn sum_of(v: Seq<u64>) -> int
    decreases v.len(),
{
    if v.len() == 0 {
        0
    } else {
        sum_of(v.drop_last()) + v.last()
    }
}

/// Smallest element of a non-empty sequence.
pub open spec fn min_of(v: Seq<u64>) -> u64
    decreases v.len(),
{
    if v.len() <= 1 {
        v[0]
    } else if v.last() < min_of(v.drop_last()) {
        v.last()
    } else {
        min_of(v.drop_last())
    }
}

/// Largest element of a non-empty sequence.
pub open spec fn max_of(v: Seq<u64>) -> u64
    decreases v.len(),
{
    if v.len() <= 1 {
        v[0]
    } else if v.last() > max_of(v.drop_last()) {
        v.last()
    } else {
        max_of(v.drop_last())
    }
}

/// Arithmetic mean of a non-empty sequence, rounded down.
pub open spec fn mean_of(v: Seq<u64>) -> int {
    sum_of(v) / (v.len() as int)
}

pub open spec fn abs_diff(x: int, y: int) -> int {
    if x >= y {
        x - y
    } else {
        y - x
    }
}

/// Sum of the distances of the elements from `m`.
pub open spec fn deviation_sum(v: Seq<u64>, m: int) -> int
    decreases v.len(),
{
    if v.len() == 0 {
        0
    } else {
        deviation_sum(v.drop_last(), m) + abs_diff(v.last() as int, m)
    }
}

/// Mean absolute deviation of a non-empty sequence from its (rounded down)
/// mean, rounded down.
pub open spec fn mdev_of(v: Seq<u64>) -> int {
    deviation_sum(v, mean_of(v)) / (v.len() as int)
}

/// Statistics over the results of a finished series. RTT figures are in
/// microseconds and only cover the successful results.
#[derive(Clone, Debug)]
pub struct PingSummary {
    series: Vec<PingResponse>,
}

impl View for PingSummary {
    type V = Seq<PingResponse>;

    closed spec fn view(&self) -> Seq<PingResponse> {
        self.series@
    }
}

proof fn lemma_sum_bounds(v: Seq<u64>)
    requires
        v.len() > 0,
    ensures
        v.len() * min_of(v) <= sum_of(v) <= v.len() * max_of(v),
    decreases v.len(),
{
    let p = v.drop_last();
    if v.len() == 1 {
        assert(sum_of(p) == 0);
        assert(v.last() == v[0]);
    } else {
        lemma_sum_bounds(p);
        assert(min_of(v) <= v.last() && min_of(v) <= min_of(p));
        assert(max_of(v) >= v.last() && max_of(v) >= max_of(p));
        let n = p.len() as int;
        assert(n * min_of(v) <= n * min_of(p)) by (nonlinear_arith)
            requires
                min_of(v) <= min_of(p),
                n >= 0,
        ;
        assert(n * max_of(p) <= n * max_of(v)) by (nonlinear_arith)
            requires
                max_of(p) <= max_of(v),
                n >= 0,
        ;
        assert((n + 1) * min_of(v) == n * min_of(v) + min_of(v)) by (nonlinear_arith);
        assert((n + 1) * max_of(v) == n * max_of(v) + max_of(v)) by (nonlinear_arith);
    }
}

proof fn lemma_deviation_bound(v: Seq<u64>, m: int)
    requires
        0 <= m <= u64::MAX,
    ensures
        0 <= deviation_sum(v, m) <= v.len() * u64::MAX,
    decreases v.len(),
{
    if v.len() > 0 {
        lemma_deviation_bound(v.drop_last(), m);
    }
}

/// The mean lies between the smallest and the largest element.
proof fn lemma_mean_between(v: Seq<u64>)
    requires
        v.len() > 0,
    ensures
        min_of(v) <= mean_of(v) <= max_of(v),
{
    let n = v.len() as int;
    lemma_sum_bounds(v);
    vstd::arithmetic::div_mod::lemma_div_is_ordered(n * min_of(v), sum_of(v), n);
    vstd::arithmetic::div_mod::lemma_div_is_ordered(sum_of(v), n * max_of(v), n);
    vstd::arithmetic::div_mod::lemma_div_multiples_vanish(min_of(v) as int, n);
    vstd::arithmetic::div_mod::lemma_div_multiples_vanish(max_of(v) as int, n);
}

/// Every result is counted exactly once, either as returned or as lost.
pub proof fn lemma_sent_is_returned_plus_lost(s: Seq<PingResponse>)
    ensures
        s.len() == returned(s) + lost(s),
    decreases s.len(),
{
    if s.len() > 0 {
        lemma_sent_is_returned_plus_lost(s.drop_last());
    }
}

/// No packet is lost exactly when every result succeeded, and every packet is
/// lost exactly when no result succeeded: the loss rate `lost / sent` is 0 or 1
/// in just these cases.
pub proof fn lemma_loss_extremes(s: Seq<PingResponse>)
    ensures
        lost(s) == 0 <==> (forall|i: int| 0 <= i < s.len() ==> #[trigger] s[i].succeeded()),
        lost(s) == s.len() <==> (forall|i: int| 0 <= i < s.len() ==> !#[trigger] s[i].succeeded()),
    decreases s.len(),
{
    lemma_sent_is_returned_plus_lost(s);
    if s.len() > 0 {
        let p = s.drop_last();
        lemma_loss_extremes(p);
        lemma_sent_is_returned_plus_lost(p);
        assert(forall|i: int| 0 <= i < p.len() ==> p[i] == s[i]);
        if lost(s) == 0 {
            assert forall|i: int| 0 <= i < s.len() implies #[trigger] s[i].succeeded() by {
                if i < p.len() {
                    assert(p[i].succeeded());
                }
            }
        }
        if lost(s) == s.len() {
            assert forall|i: int| 0 <= i < s.len() implies !#[trigger] s[i].succeeded() by {
                if i < p.len() {
                    assert(!p[i].succeeded());
                }
            }
        }
        if forall|i: int| 0 <= i < s.len() ==> #[trigger] s[i].succeeded() {
            assert(s[s.len() - 1].succeeded());
            assert forall|i: int| 0 <= i < p.len() implies #[trigger] p[i].succeeded() by {
                assert(s[i].succeeded());
            }
        }
        if forall|i: int| 0 <= i < s.len() ==> !#[trigger] s[i].succeeded() {
            assert(!s[s.len() - 1].succeeded());
            assert forall|i: int| 0 <= i < p.len() implies !#[trigger] p[i].succeeded() by {
                assert(!s[i].succeeded());
            }
        }
    }
}

/// There is one round-trip time for each successful result.
pub proof fn lemma_rtts_len(s: Seq<PingResponse>)
    ensures
        rtts(s).len() == returned(s),
    decreases s.len(),
{
    if s.len() > 0 {
        lemma_rtts_len(s.drop_last());
    }
}

/// Whenever a packet returned, the minimum round-trip time is at most the mean,
/// and the mean at most the maximum.
pub proof fn lemma_rtt_order(s: Seq<PingResponse>)
    requires
        returned(s) > 0,
    ensures
        min_of(rtts(s)) <= mean_of(rtts(s)) <= max_of(rtts(s)),
{
    lemma_rtts_len(s);
    lemma_mean_between(rtts(s));
}

/// Summaries of equal result sequences report identical statistics.
pub proof fn lemma_summary_deterministic(a: PingSummary, b: PingSummary)
    requires
        a@ == b@,
    ensures
        a@.len() == b@.len(),
        returned(a@) == returned(b@),
        lost(a@) == lost(b@),
        rtts(a@) == rtts(b@),
        returned(a@) > 0 ==> min_of(rtts(a@)) == min_of(rtts(b@)) && max_of(rtts(a@)) == max_of(
            rtts(b@),
        ) && mean_of(rtts(a@)) == mean_of(rtts(b@)) && mdev_of(rtts(a@)) == mdev_of(rtts(b@)),
{
}

impl PingSummary {
    /// Sum of the round-trip times of the successful results.
    pub open spec fn rtt_sum_spec(&self) -> int {
        sum_of(rtts(self@))
    }

    /// Summarises the results of a series; a summary of no results is not
    /// defined.
    pub fn new(s: Vec<PingResponse>) -> (r: PingSummary)
        requires
            s@.len() > 0,
        ensures
            r@ == s@,
    {
        PingSummary { series: s }
    }

    pub fn packets_sent(&self) -> (r: usize)
        ensures
            r == self@.len(),
    {
        self.series.len()
    }

    pub fn packets_returned(&self) -> (r: usize)
        ensures
            r == returned(self@),
    {
        let mut n: usize = 0;
        let mut i: usize = 0;
        while i < self.series.len()
            invariant
                i <= self.series@.len(),
                n == returned(self.series@.subrange(0, i as int)),
                n <= i,
            decreases self.series@.len() - i,
        {
            let ghost s = self.series@;
            assert(s.subrange(0, i + 1).drop_last() =~= s.subrange(0, i as int));
            if self.series[i].is_success() {
                n = n + 1;
            }
            i = i + 1;
        }
        assert(self.series@.subrange(0, i as int) =~= self.series@);
        n
    }

    pub fn packets_lost(&self) -> (r: usize)
        ensures
            r == lost(self@),
            r == self@.len() - returned(self@),
    {
        proof {
            lemma_sent_is_returned_plus_lost(self@);
        }
        let mut n: usize = 0;
        let mut i: usize = 0;
        while i < self.series.len()
            invariant
                i <= self.series@.len(),
                n == lost(self.series@.subrange(0, i as int)),
                n <= i,
            decreases self.series@.len() - i,
        {
            let ghost s = self.series@;
            assert(s.subrange(0, i + 1).drop_last() =~= s.subrange(0, i as int));
            if !self.series[i].is_success() {
                n = n + 1;
            }
            i = i + 1;
        }
        assert(self.series@.subrange(0, i as int) =~= self.series@);
        n
    }

    /// Round-trip times of the successful results, in order.
    fn success_rtts(&self) -> (r: Vec<u64>)
        ensures
            r@ == rtts(self@),
            r@.len() == returned(self@),
    {
        proof {
            lemma_rtts_len(self@);
        }
        let mut v: Vec<u64> = Vec::new();
        let mut i: usize = 0;
        while i < self.series.len()
            invariant
                i <= self.series@.len(),
                v@ == rtts(self.series@.subrange(0, i as int)),
            decreases self.series@.len() - i,
        {
            let ghost s = self.series@;
            assert(s.subrange(0, i + 1).drop_last() =~= s.subrange(0, i as int));
            let r = self.series[i];
            if r.is_success() {
                match r.rtt {
                    Some(t) => v.push(t),
                    None => {},
                }
            }
            i = i + 1;
        }
        assert(self.series@.subrange(0, i as int) =~= self.series@);
        v
    }

    /// Smallest round-trip time of a successful result.
    pub fn min_rtt(&self) -> (r: u64)
        requires
            returned(self@) > 0,
        ensures
            r == min_of(rtts(self@)),
    {
        let v = self.success_rtts();
        let mut m: u64 = v[0];
        let mut i: usize = 1;
        while i < v.len()
            invariant
                1 <= i <= v@.len(),
                m == min_of(v@.subrange(0, i as int)),
            decreases v@.len() - i,
        {
            assert(v@.subrange(0, i + 1).drop_last() =~= v@.subrange(0, i as int));
            if v[i] < m {
                m = v[i];
            }
            i = i + 1;
        }
        assert(v@.subrange(0, i as int) =~= v@);
        m
    }

    /// Largest round-trip time of a successful result.
    pub fn max_rtt(&self) -> (r: u64)
        requires
            returned(self@) > 0,
        ensures
            r == max_of(rtts(self@)),
    {
        let v = self.success_rtts();
        let mut m: u64 = v[0];
        let mut i: usize = 1;
        while i < v.len()
            invariant
                1 <= i <= v@.len(),
                m == max_of(v@.subrange(0, i as int)),
            decreases v@.len() - i,
        {
            assert(v@.subrange(0, i + 1).drop_last() =~= v@.subrange(0, i as int));
            if v[i] > m {
                m = v[i];
            }
            i = i + 1;
        }
        assert(v@.subrange(0, i as int) =~= v@);
        m
    }

    /// Sum of the round-trip times of the successful results. The exact
    /// arithmetic mean is this sum divided by `packets_returned`.
    pub fn rtt_sum(&self) -> (r: u128)
        ensures
            r == sum_of(rtts(self@)),
            r <= returned(self@) * (u64::MAX as int),
    {
        let v = self.success_rtts();
        let mut sum: u128 = 0;
        let mut i: usize = 0;
        while i < v.len()
            invariant
                i <= v@.len(),
                sum == sum_of(v@.subrange(0, i as int)),
                sum <= i * (u64::MAX as int),
            decreases v@.len() - i,
        {
            assert(v@.subrange(0, i + 1).drop_last() =~= v@.subrange(0, i as int));
            sum = sum + v[i] as u128;
            i = i + 1;
        }
        assert(v@.subrange(0, i as int) =~= v@);
        sum
    }

    /// Mean round-trip time of the successful results in whole microseconds,
    /// rounded down: the sum of `rtt_sum` divided by `packets_returned`,
    /// without its fractional part.
    pub fn mean_rtt(&self) -> (r: u64)
        requires
            returned(self@) > 0,
        ensures
            r == mean_of(rtts(self@)),
            r == self.rtt_sum_spec() / (returned(self@) as int),
    {
        let sum = self.rtt_sum();
        let n = self.packets_returned();
        proof {
            lemma_rtts_len(self@);
            lemma_mean_between(rtts(self@));
        }
        (sum / (n as u128)) as u64
    }

    /// Mean absolute deviation of the successful round-trip times from
    /// `mean_rtt` (the rounded-down mean), itself rounded down to whole
    /// microseconds.
    pub fn mdev_rtt(&self) -> (r: u64)
        requires
            returned(self@) > 0,
        ensures
            r == mdev_of(rtts(self@)),
    {
        let mean = self.mean_rtt();
        let v = self.success_rtts();
        let mut sum: u128 = 0;
        let mut i: usize = 0;
        while i < v.len()
            invariant
                i <= v@.len(),
                v@ == rtts(self@),
                mean == mean_of(v@),
                sum == deviation_sum(v@.subrange(0, i as int), mean as int),
                sum <= i * (u64::MAX as int),
            decreases v@.len() - i,
        {
            assert(v@.subrange(0, i + 1).drop_last() =~= v@.subrange(0, i as int));
            let x = v[i];
            let d: u64 = if x >= mean {
                x - mean
            } else {
                mean - x
            };
            sum = sum + d as u128;
            i = i + 1;
        }
        assert(v@.subrange(0, i as int) =~= v@);
        proof {
            lemma_deviation_bound(v@, mean as int);
            vstd::arithmetic::div_mod::lemma_div_is_ordered(
                sum as int,
                v@.len() * (u64::MAX as int),
                v@.len() as int,
            );
            vstd::arithmetic::div_mod::lemma_div_multiples_vanish(
                u64::MAX as int,
                v@.len() as int,
            );
        }
        (sum / (v.len() as u128)) as u64
    }
}

} // verus!
