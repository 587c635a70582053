use vstd::prelude::*;

verus! {

/// The kind of load a process is under.
#[derive(Debug, Clone, Copy, PartialEq, Eq, Structural)]
pub enum WorkloadType {
    CpuBound,
    IoBound,
    MemoryIntensive,
    Balanced,
}

/// The sum of the samples.
pub open spec fn sample_sum(s: Seq<i32>) -> int
    decreases s.len(),
{
    if s.len() == 0 {
        0
    } else {
        sample_sum(s.drop_last()) + s.last()
    }
}

/// The sum of the squared samples.
pub open spec fn sample_square_sum(s: Seq<i32>) -> int
    decreases s.len(),
{
    if s.len() == 0 {
        0
    } else {
        sample_square_sum(s.drop_last()) + s.last() * s.last()
    }
}

/// The population variance of the samples times the squared sample count:
/// `n * sum(x^2) - sum(x)^2`.
pub open spec fn scaled_variance(s: Seq<i32>) -> int {
    s.len() * sample_square_sum(s) - sample_sum(s) * sample_sum(s)
}

/// Whether the population variance of the samples (in thousandths of a
/// percent) exceeds 15 square percent.
pub open spec fn variance_exceeds_limit(s: Seq<i32>) -> bool {
    scaled_variance(s) > 15_000_000 * (s.len() * s.len())
}

/// Whether the last sample differs from the first by more than 20 %.
pub open spec fn trend_exceeds_limit(s: Seq<i32>) -> bool {
    let d = s.last() - s[0];
    (if d < 0 { -d } else { d }) > 20_000
}

/// The workload implied by the two observations: CPU variance alone means
/// CPU-bound, memory drift alone memory-intensive, both I/O-bound, neither
/// balanced.
pub open spec fn classify(cpu_variance_high: bool, memory_trend_high: bool) -> WorkloadType {
    if cpu_variance_high && !memory_trend_high {
        WorkloadType::CpuBound
    } else if !cpu_variance_high && memory_trend_high {
        WorkloadType::MemoryIntensive
    } else if cpu_variance_high && memory_trend_high {
        WorkloadType::IoBound
    } else {
        WorkloadType::Balanced
    }
}

/// Classifies workloads from histories of CPU and memory load.
///
/// The analyzer remembers its last observations: a history of fewer than
/// two samples leaves the corresponding observation as it was.
pub struct WorkloadAnalyzer {
    cpu_variance_high: bool,
    memory_trend_high: bool,
}

proof fn lemma_square_bound(x: i32)
    ensures
        0 <= x * x <= 0x4000_0000_0000_0000,
{
    assert(0 <= x * x <= 0x4000_0000_0000_0000) by (nonlinear_arith)
        requires
            -0x8000_0000 <= x < 0x8000_0000,
    ;
}

proof fn lemma_product_bound(a: int, b: int, bound_a: int, bound_b: int)
    requires
        0 <= a <= bound_a,
        0 <= b <= bound_b,
    ensures
        0 <= a * b <= bound_a * bound_b,
{
    assert(0 <= a * b <= bound_a * bound_b) by (nonlinear_arith)
        requires
            0 <= a <= bound_a,
            0 <= b <= bound_b,
    ;
}

/// Computes `sample_sum` and `sample_square_sum` of `samples`.
fn sums(samples: &[i32]) -> (r: (i128, i128))
    ensures
        r.0 == sample_sum(samples@),
        r.1 == sample_square_sum(samples@),
        -samples@.len() * 0x8000_0000 <= r.0 <= samples@.len() * 0x8000_0000,
        0 <= r.1 <= samples@.len() * 0x4000_0000_0000_0000,
{
    let mut sum: i128 = 0;
    let mut square_sum: i128 = 0;
    let mut i: usize = 0;
    let count: usize = samples.len();
    while i < count
        invariant
            count == samples@.len(),
            i <= count,
            sum == sample_sum(samples@.take(i as int)),
            square_sum == sample_square_sum(samples@.take(i as int)),
            -i * 0x8000_0000 <= sum <= i * 0x8000_0000,
            0 <= square_sum <= i * 0x4000_0000_0000_0000,
        decreases samples@.len() - i,
    {
        let x = samples[i];
        proof {
            lemma_square_bound(x);
            assert(samples@.take(i + 1).drop_last() =~= samples@.take(i as int));
        }
        sum = sum + x as i128;
        square_sum = square_sum + (x as i128) * (x as i128);
        i = i + 1;
    }
    proof {
        assert(samples@.take(i as int) =~= samples@);
    }
    (sum, square_sum)
}

/// `a * a / n` (rounded down) computed without forming `a * a`, from
/// `a == q * n + r`: it is `q * q * n + 2 * (q * r) + r * r / n`.
proof fn lemma_square_quotient(a: int, n: int, q: int, r: int)
    requires
        n > 0,
        a >= 0,
        q == a / n,
        r == a % n,
    ensures
        a * a / n == q * q * n + 2 * (q * r) + (r * r) / n,
        0 <= r < n,
{
    vstd::arithmetic::div_mod::lemma_fundamental_div_mod(a, n);
    vstd::arithmetic::div_mod::lemma_fundamental_div_mod(r * r, n);
    let rq = (r * r) / n;
    let rr = (r * r) % n;
    assert(a * a == (q * q * n + 2 * (q * r) + rq) * n + rr) by (nonlinear_arith)
        requires
            a == n * q + r,
            r * r == n * rq + rr,
    ;
    vstd::arithmetic::div_mod::lemma_fundamental_div_mod_converse_div(
        a * a,
        n,
        q * q * n + 2 * (q * r) + rq,
        rr,
    );
}

/// The variance test `n * s2 - s1^2 > 15e6 * n^2` holds exactly when
/// `s2 - 15e6 * n` exceeds `s1^2 / n` rounded down.
proof fn lemma_variance_test(n: int, s1: int, s2: int, f: int)
    requires
        n > 0,
        f == s1 * s1 / n,
    ensures
        (n * s2 - s1 * s1 > 15_000_000 * (n * n)) == (s2 - 15_000_000 * n > f),
{
    vstd::arithmetic::div_mod::lemma_fundamental_div_mod(s1 * s1, n);
    let rest = (s1 * s1) % n;
    let t = s2 - 15_000_000 * n;
    assert(n * s2 - s1 * s1 - 15_000_000 * (n * n) == n * (t - f) - rest) by (nonlinear_arith)
        requires
            s1 * s1 == n * f + rest,
            t == s2 - 15_000_000 * n,
    ;
    if t > f {
        assert(n * (t - f) >= n) by (nonlinear_arith)
            requires
                t - f >= 1,
                n > 0,
        ;
    } else {
        assert(n * (t - f) <= 0) by (nonlinear_arith)
            requires
                t - f <= 0,
                n > 0,
        ;
    }
}

/// Decides `variance_exceeds_limit` for a non-empty history.
fn variance_high(samples: &[i32]) -> (high: bool)
    requires
        samples@.len() >= 1,
    ensures
        high == variance_exceeds_limit(samples@),
{
    let (sum, square_sum) = sums(samples);
    let count: usize = samples.len();
    let n: i128 = count as i128;
    let magnitude: i128 = if sum < 0 { -sum } else { sum };
    let q: i128 = magnitude / n;
    let r: i128 = magnitude % n;
    proof {
        assert(n <= 0xffff_ffff_ffff_ffff);
        assert(q <= 0x8000_0000) by (nonlinear_arith)
            requires
                q == magnitude / n,
                0 <= magnitude <= n * 0x8000_0000,
                n > 0,
        ;
        assert(0 <= q);
        lemma_square_quotient(magnitude as int, n as int, q as int, r as int);
        lemma_product_bound(q as int, q as int, 0x8000_0000, 0x8000_0000);
        lemma_product_bound(q * q, n as int, 0x4000_0000_0000_0000, 0xffff_ffff_ffff_ffff);
        lemma_product_bound(q as int, r as int, 0x8000_0000, 0xffff_ffff_ffff_ffff);
        lemma_product_bound(r as int, r as int, 0xffff_ffff_ffff_ffff, 0xffff_ffff_ffff_ffff);
        let ri = r as int;
        let ni = n as int;
        assert((ri * ri) / ni < ni) by (nonlinear_arith)
            requires
                ni >= 1,
                0 <= ri < ni,
        ;
    }
    let square_q: i128 = q * q;
    let leading: i128 = square_q * n;
    let cross: i128 = q * r;
    let ru: u128 = r as u128;
    let tail: i128 = ((ru * ru) / (n as u128)) as i128;
    let floor_square: i128 = leading + 2 * cross + tail;
    proof {
        assert(sum * sum == magnitude * magnitude) by (nonlinear_arith)
            requires
                magnitude == (if sum < 0 { -sum } else { sum as int }),
        ;
        assert(ru * ru == r * r);
        assert(tail == (r * r) / (n as int));
        assert(leading == q * q * n);
        assert(cross == q * r);
        assert(floor_square == q * q * n + 2 * (q * r) + (r * r) / (n as int));
        assert((magnitude * magnitude) / (n as int) == q * q * n + 2 * (q * r) + (r * r) / (n as int));
        assert(floor_square == (magnitude * magnitude) / (n as int));
        assert((sum * sum) / (n as int) == (magnitude * magnitude) / (n as int));
        lemma_variance_test(n as int, sum as int, square_sum as int, floor_square as int);
    }
    square_sum - 15_000_000 * n > floor_square
}

impl WorkloadAnalyzer {
    /// Whether the last CPU history showed a variance above 15 square percent.
    pub closed spec fn cpu_variance_high(&self) -> bool {
        self.cpu_variance_high
    }

    /// Whether the last memory history drifted by more than 20 %.
    pub closed spec fn memory_trend_high(&self) -> bool {
        self.memory_trend_high
    }

    /// An analyzer that has observed nothing.
    pub fn new() -> (a: Self)
        ensures
            !a.cpu_variance_high(),
            !a.memory_trend_high(),
    {
        WorkloadAnalyzer { cpu_variance_high: false, memory_trend_high: false }
    }

    /// Observes a CPU and a memory history (loads in thousandths of a
    /// percent) and classifies the workload.
    pub fn analyze(&mut self, cpu_history: &[i32], memory_history: &[i32]) -> (w: WorkloadType)
        ensures
            final(self).cpu_variance_high() == if cpu_history@.len() > 1 {
                variance_exceeds_limit(cpu_history@)
            } else {
                old(self).cpu_variance_high()
            },
            final(self).memory_trend_high() == if memory_history@.len() > 1 {
                trend_exceeds_limit(memory_history@)
            } else {
                old(self).memory_trend_high()
            },
            w == classify(final(self).cpu_variance_high(), final(self).memory_trend_high()),
            memory_history@.len() > 1 && memory_history@.last() == memory_history@[0]
                ==> !final(self).memory_trend_high(),
    {
        if cpu_history.len() > 1 {
            self.cpu_variance_high = variance_high(cpu_history);
        }
        if memory_history.len() > 1 {
            let first = memory_history[0] as i64;
            let last = memory_history[memory_history.len() - 1] as i64;
            let drift = if last >= first { last - first } else { first - last };
            self.memory_trend_high = drift > 20_000;
        }
        match (self.cpu_variance_high, self.memory_trend_high) {
            (true, false) => WorkloadType::CpuBound,
            (false, true) => WorkloadType::MemoryIntensive,
            (true, true) => WorkloadType::IoBound,
            _ => WorkloadType::Balanced,
        }
    }
}

} // verus!
