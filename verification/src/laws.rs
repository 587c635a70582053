use vstd::prelude::*;
use crate::memory::MemoryPool;
use crate::chunks::chunk_count;
use crate::gpu::{lod_index, lod_search};
use crate::workload::{
    sample_square_sum, sample_sum, scaled_variance, trend_exceeds_limit, variance_exceeds_limit,
};
use crate::advanced::{fps_gain, safety_score_of};
use crate::apply::{
    aggressive_status, auto_status, error_status, mode_priority, reason_code_for, set_priority_status,
};
use crate::controller::{smoothed, OptimizerController};
use crate::profiler::last_frame_ms;
use crate::priority::{
    aggressive_safe_config, default_config, normalized, selected_priority,
    ultra_performance_config, OptimizationConfig, ProcessPriority, FULL_LOAD,
};

verus! {

/// Normalizing a normalized configuration changes nothing.
pub proof fn lemma_normalize_idempotent(config: OptimizationConfig)
    ensures
        normalized(normalized(config)) == normalized(config),
{
}

/// A normalized configuration has every threshold within 0..=100 %, each
/// realtime threshold at or above its high threshold, a sample interval of
/// at least 1 ms and a priority limit within 0..=2.
pub proof fn lemma_normalized_is_within_bounds(config: OptimizationConfig)
    ensures
        0 <= normalized(config).cpu_high_threshold <= FULL_LOAD,
        0 <= normalized(config).cpu_realtime_threshold <= FULL_LOAD,
        0 <= normalized(config).memory_high_threshold <= FULL_LOAD,
        0 <= normalized(config).memory_realtime_threshold <= FULL_LOAD,
        normalized(config).cpu_high_threshold <= normalized(config).cpu_realtime_threshold,
        normalized(config).memory_high_threshold <= normalized(config).memory_realtime_threshold,
        normalized(config).sample_interval_ms >= 1,
        0 <= normalized(config).max_priority_level <= 2,
{
}

/// Selecting under a configuration or under its normalized form gives the
/// same priority.
pub proof fn lemma_selection_ignores_normalization(cpu_load: i32, memory_load: i32, config: OptimizationConfig)
    ensures
        selected_priority(cpu_load, memory_load, normalized(config))
            == selected_priority(cpu_load, memory_load, config),
{
}

/// The selected priority never exceeds the configuration's priority limit
/// (after normalization); in particular Realtime needs a limit of 2.
pub proof fn lemma_priority_within_limit(cpu_load: i32, memory_load: i32, config: OptimizationConfig)
    ensures
        selected_priority(cpu_load, memory_load, config).spec_level()
            <= normalized(config).max_priority_level,
        selected_priority(cpu_load, memory_load, config) == ProcessPriority::Realtime
            ==> normalized(config).max_priority_level == 2,
{
}

/// Higher loads never select a lower priority.
pub proof fn lemma_priority_monotone_in_load(
    cpu_low: i32,
    memory_low: i32,
    cpu_high: i32,
    memory_high: i32,
    config: OptimizationConfig,
)
    requires
        cpu_low <= cpu_high,
        memory_low <= memory_high,
    ensures
        selected_priority(cpu_low, memory_low, config).spec_level()
            <= selected_priority(cpu_high, memory_high, config).spec_level(),
{
}

/// The default preset selects High exactly when CPU load reaches 82 % or
/// memory load reaches 75 %, and never selects Realtime.
pub proof fn lemma_default_preset(cpu_load: i32, memory_load: i32)
    ensures
        selected_priority(cpu_load, memory_load, default_config()) != ProcessPriority::Realtime,
        (selected_priority(cpu_load, memory_load, default_config()) == ProcessPriority::High)
            == (cpu_load >= 82_000 || memory_load >= 75_000),
{
}

/// The aggressive-safe preset selects High exactly when CPU load reaches
/// 71 % or memory load reaches 66 % (its thresholds lowered by the
/// aggressive margin), and never selects Realtime.
pub proof fn lemma_aggressive_safe_preset(cpu_load: i32, memory_load: i32)
    ensures
        selected_priority(cpu_load, memory_load, aggressive_safe_config())
            != ProcessPriority::Realtime,
        (selected_priority(cpu_load, memory_load, aggressive_safe_config())
            == ProcessPriority::High) == (cpu_load >= 71_000 || memory_load >= 66_000),
{
}

/// The ultra-performance preset selects Realtime exactly when CPU load
/// reaches 83 % or memory load reaches 78 %, and High when it is below
/// those but CPU load reaches 66 % or memory load reaches 61 %.
pub proof fn lemma_ultra_performance_preset(cpu_load: i32, memory_load: i32)
    ensures
        (selected_priority(cpu_load, memory_load, ultra_performance_config())
            == ProcessPriority::Realtime) == (cpu_load >= 83_000 || memory_load >= 78_000),
        (selected_priority(cpu_load, memory_load, ultra_performance_config())
            == ProcessPriority::High) == (!(cpu_load >= 83_000 || memory_load >= 78_000) && (
        cpu_load >= 66_000 || memory_load >= 61_000)),
{
}

/// Under the same loads the aggressive-safe preset selects a priority at
/// least as high as the default preset.
pub proof fn lemma_aggressive_safe_reacts_no_later_than_default(cpu_load: i32, memory_load: i32)
    ensures
        selected_priority(cpu_load, memory_load, aggressive_safe_config()).spec_level()
            >= selected_priority(cpu_load, memory_load, default_config()).spec_level(),
{
}

/// Under the same loads the ultra-performance preset selects a priority at
/// least as high as the aggressive-safe preset.
pub proof fn lemma_ultra_reacts_no_later_than_aggressive_safe(cpu_load: i32, memory_load: i32)
    ensures
        selected_priority(cpu_load, memory_load, ultra_performance_config()).spec_level()
            >= selected_priority(cpu_load, memory_load, aggressive_safe_config()).spec_level(),
{
}

/// The safety score always lies within 0.1..=1.0.
pub proof fn lemma_safety_score_bounds(p: ProcessPriority, cpu_load: i32, memory_load: i32, aggressive: bool)
    ensures
        100_000 <= safety_score_of(p, cpu_load, memory_load, aggressive) <= 1_000_000,
{
}

/// A higher priority never raises the safety score.
pub proof fn lemma_safety_score_falls_with_priority(
    lower: ProcessPriority,
    higher: ProcessPriority,
    cpu_load: i32,
    memory_load: i32,
    aggressive: bool,
)
    requires
        lower.spec_level() <= higher.spec_level(),
    ensures
        safety_score_of(higher, cpu_load, memory_load, aggressive) <= safety_score_of(
            lower,
            cpu_load,
            memory_load,
            aggressive,
        ),
{
}

/// A higher combined load never raises the safety score.
pub proof fn lemma_safety_score_falls_with_load(
    p: ProcessPriority,
    cpu_low: i32,
    memory_low: i32,
    cpu_high: i32,
    memory_high: i32,
    aggressive: bool,
)
    requires
        cpu_low + memory_low <= cpu_high + memory_high,
    ensures
        safety_score_of(p, cpu_high, memory_high, aggressive) <= safety_score_of(
            p,
            cpu_low,
            memory_low,
            aggressive,
        ),
{
    let a = crate::advanced::priority_safety(p) + crate::advanced::load_safety(cpu_high, memory_high);
    let b = crate::advanced::priority_safety(p) + crate::advanced::load_safety(cpu_low, memory_low);
    assert(a <= b);
    assert(a * 85 / 100 <= b * 85 / 100) by (nonlinear_arith)
        requires
            a <= b,
    ;
}

/// Aggressive mode never raises the safety score.
pub proof fn lemma_aggressive_mode_lowers_safety(p: ProcessPriority, cpu_load: i32, memory_load: i32)
    ensures
        safety_score_of(p, cpu_load, memory_load, true) <= safety_score_of(p, cpu_load, memory_load, false),
{
}

/// The expected frame-rate gain grows with the priority, and aggressive
/// mode expects at least as much as the default mode.
pub proof fn lemma_fps_gain_ordering(lower: ProcessPriority, higher: ProcessPriority, aggressive: bool)
    requires
        lower.spec_level() <= higher.spec_level(),
    ensures
        fps_gain(aggressive, lower) <= fps_gain(aggressive, higher),
        fps_gain(false, higher) <= fps_gain(true, higher),
{
}

/// Taking the front chunk from a pool and giving it back leaves the pool
/// with the same chunks, the returned one now at the end.
pub proof fn lemma_allocate_then_deallocate_restores_pool(
    before: MemoryPool,
    taken: MemoryPool,
    returned: MemoryPool,
)
    requires
        before@.len() <= before.capacity(),
        before@.len() > 0,
        taken@ == before@.drop_first(),
        taken.capacity() == before.capacity(),
        returned@ == (if taken@.len() < taken.capacity() {
            taken@.push(before@[0])
        } else {
            taken@
        }),
    ensures
        returned@ == before@.drop_first().push(before@[0]),
        returned@.len() == before@.len(),
        returned@.to_multiset() == before@.to_multiset(),
{
    let s = before@;
    assert(s =~= seq![s[0]] + s.drop_first());
    assert(s.drop_first().push(s[0]) =~= s.drop_first() + seq![s[0]]);
    vstd::seq_lib::lemma_seq_union_to_multiset_commutative(seq![s[0]], s.drop_first());
}

/// The frame count of a collector after `calls` calls of
/// `should_collect`, starting from a fresh collector.
pub open spec fn frames_after(calls: nat, interval: u32) -> nat
    decreases calls,
{
    if calls == 0 {
        0
    } else {
        let previous = frames_after((calls - 1) as nat, interval);
        if previous + 1 >= interval {
            0
        } else {
            previous + 1
        }
    }
}

/// Whether the `call`-th call (counting from 1) of `should_collect` on a
/// fresh collector signals a collection.
pub open spec fn collects_at(call: nat, interval: u32) -> bool {
    call >= 1 && frames_after((call - 1) as nat, interval) + 1 >= interval
}

/// A fresh collector with interval `n` signals on calls n, 2n, 3n, ...
/// (on every call when `n` is 0 or 1), and in between counts the frames
/// since the last signal.
pub proof fn lemma_collector_is_periodic(calls: nat, interval: u32)
    requires
        calls >= 1,
    ensures
        frames_after(calls, interval) == calls % (if interval == 0 { 1 } else { interval as nat }),
        collects_at(calls, interval) == (calls % (if interval == 0 { 1 } else { interval as nat }) == 0),
    decreases calls,
{
    let m: nat = if interval == 0 { 1 } else { interval as nat };
    if calls == 1 {
        assert(frames_after(0, interval) == 0);
        if m == 1 {
            assert(1nat % 1 == 0);
        } else {
            assert(1nat % m == 1) by (nonlinear_arith)
                requires
                    m > 1,
            ;
        }
    } else {
        lemma_collector_is_periodic((calls - 1) as nat, interval);
        let p = (calls - 1) as nat;
        assert(frames_after(p, interval) == p % m);
        assert(p % m < m) by (nonlinear_arith)
            requires
                m > 0,
        ;
        if p % m + 1 >= m {
            assert(p % m + 1 == m);
            assert(calls % m == 0) by (nonlinear_arith)
                requires
                    p % m + 1 == m,
                    calls == p + 1,
                    m > 0,
            ;
        } else {
            assert(calls % m == p % m + 1) by (nonlinear_arith)
                requires
                    p % m + 1 < m,
                    calls == p + 1,
                    m > 0,
            ;
        }
    }
}

proof fn lemma_lod_search_monotone(levels: Seq<i64>, near: i64, far: i64, i: int)
    requires
        0 <= i < levels.len(),
        near <= far,
    ensures
        i <= lod_search(levels, near, i) <= lod_search(levels, far, i) <= levels.len() - 1,
    decreases levels.len() - i,
{
    if i + 1 < levels.len() {
        lemma_lod_search_monotone(levels, near, far, i + 1);
    }
}

/// The detail level is a valid index, and a farther object never gets a
/// finer level than a nearer one.
pub proof fn lemma_lod_monotone_in_distance(levels: Seq<i64>, near: i64, far: i64)
    requires
        levels.len() >= 1,
        near <= far,
    ensures
        0 <= lod_index(levels, near) <= lod_index(levels, far) < levels.len(),
{
    lemma_lod_search_monotone(levels, near, far, 0);
}

proof fn lemma_steady_sums(s: Seq<i32>, v: i32)
    requires
        forall|i: int| 0 <= i < s.len() ==> s[i] == v,
    ensures
        sample_sum(s) == s.len() * v,
        sample_square_sum(s) == s.len() * (v * v),
    decreases s.len(),
{
    if s.len() > 0 {
        lemma_steady_sums(s.drop_last(), v);
        assert(sample_sum(s) == (s.len() - 1) * v + v);
        assert((s.len() - 1) * v + v == s.len() * v) by (nonlinear_arith);
        assert((s.len() - 1) * (v * v) + v * v == s.len() * (v * v)) by (nonlinear_arith);
    }
}

/// A history whose samples are all equal shows neither CPU variance nor
/// memory drift.
pub proof fn lemma_steady_history_is_calm(s: Seq<i32>)
    requires
        s.len() >= 1,
        forall|i: int| 0 <= i < s.len() ==> #[trigger] s[i] == s[0],
    ensures
        scaled_variance(s) == 0,
        !variance_exceeds_limit(s),
        !trend_exceeds_limit(s),
{
    let v = s[0];
    let n = s.len() as int;
    lemma_steady_sums(s, v);
    assert(n * (n * (v * v)) - (n * v) * (n * v) == 0) by (nonlinear_arith);
    assert(n * n >= 0) by (nonlinear_arith);
    assert(s.last() == s[s.len() - 1]);
}

/// The `calls`-th call of `should_collect` on a collector made with
/// `GarbageCollector::new(interval)`: when the collector's count before the
/// call is the model's count after `calls - 1` calls (0 for a new
/// collector), the call's answer and new count, as its contract gives
/// them, are the model's, so the call signals exactly when `calls` is a
/// multiple of the interval (of 1 when the interval is 0).
pub proof fn lemma_should_collect_follows_model(
    calls: nat,
    interval: u32,
    frames_before: u32,
    collect: bool,
    frames_after_call: u32,
)
    requires
        calls >= 1,
        frames_before == frames_after((calls - 1) as nat, interval),
        collect == (frames_before + 1 >= interval),
        frames_after_call == (if collect { 0 } else { frames_before + 1 }),
    ensures
        collect == collects_at(calls, interval),
        frames_after_call == frames_after(calls, interval),
        collect == (calls % (if interval == 0 { 1 } else { interval as nat }) == 0),
{
    lemma_collector_is_periodic(calls, interval);
}

/// Consecutive chunks of `start..end` meet: every chunk but the last is
/// followed by one that starts where it ends, and the last chunk is the
/// one that reaches `end`.
pub proof fn lemma_chunks_tile_the_range(start: usize, end: usize, chunk_size: usize, k: int)
    requires
        chunk_size > 0,
        start < end,
        0 <= k < chunk_count(start, end, chunk_size),
    ensures
        k + 1 < chunk_count(start, end, chunk_size) <==> start + (k + 1) * chunk_size < end,
        chunk_count(start, end, chunk_size) >= 1,
{
    let c = chunk_size as int;
    let n = (end - start) as int;
    let count = (n + c - 1) / c;
    assert(count * c >= n && (count - 1) * c < n) by (nonlinear_arith)
        requires
            c > 0,
            n > 0,
            count == (n + c - 1) / c,
    ;
    if k + 1 < count {
        assert((k + 1) * c <= (count - 1) * c) by (nonlinear_arith)
            requires
                k + 1 <= count - 1,
                c > 0,
        ;
    } else {
        assert((k + 1) * c >= count * c) by (nonlinear_arith)
            requires
                k + 1 >= count,
                c > 0,
        ;
    }
}

/// In the single-step optimizer, higher loads never select a lower
/// priority.
pub proof fn lemma_basic_priority_monotone_in_load(
    cpu_low: i32,
    memory_low: i32,
    cpu_high: i32,
    memory_high: i32,
    config: crate::basic::OptimizationConfig,
)
    requires
        cpu_low <= cpu_high,
        memory_low <= memory_high,
    ensures
        crate::basic::selected_priority(cpu_low, memory_low, config).spec_level()
            <= crate::basic::selected_priority(cpu_high, memory_high, config).spec_level(),
{
}

/// In the stateful optimizer, higher loads never select a lower priority.
pub proof fn lemma_controller_priority_monotone_in_load(
    cpu_low: i32,
    memory_low: i32,
    cpu_high: i32,
    memory_high: i32,
    config: crate::controller::OptimizationConfig,
)
    requires
        cpu_low <= cpu_high,
        memory_low <= memory_high,
    ensures
        crate::controller::selected_priority(cpu_low, memory_low, config).spec_level()
            <= crate::controller::selected_priority(cpu_high, memory_high, config).spec_level(),
{
}

/// A smoothed load lies between the previous value and the newest sample
/// (for a smoothing factor within 0..=1 and loads within 0..=100 %).
pub proof fn lemma_smoothing_stays_between(factor: i32, sample: i32, previous: i32)
    requires
        0 <= factor <= 1_000_000,
        0 <= sample <= FULL_LOAD,
        0 <= previous <= FULL_LOAD,
    ensures
        crate::controller::smoothed(factor, sample, previous) >= (if sample < previous {
            sample as int
        } else {
            previous as int
        }),
        crate::controller::smoothed(factor, sample, previous) <= (if sample < previous {
            previous as int
        } else {
            sample as int
        }),
{
    let f = factor as int;
    let w = f * sample + (1_000_000 - f) * previous;
    let lo: int = if sample < previous { sample as int } else { previous as int };
    let hi: int = if sample < previous { previous as int } else { sample as int };
    assert(lo * 1_000_000 <= w <= hi * 1_000_000) by (nonlinear_arith)
        requires
            0 <= f <= 1_000_000,
            w == f * sample + (1_000_000 - f) * previous,
            lo <= sample <= hi,
            lo <= previous <= hi,
    ;
    assert(lo <= w / 1_000_000 <= hi) by (nonlinear_arith)
        requires
            lo * 1_000_000 <= w <= hi * 1_000_000,
    ;
}

/// The priority that `opal_set_priority` requests for a mode 0, 1 or 2 is
/// the priority of that level (Normal, High, Realtime); every other mode
/// requests Normal.
pub proof fn lemma_mode_requests_its_level(mode: i32)
    ensures
        0 <= mode <= 2 ==> mode_priority(mode).spec_level() == mode,
        !(0 <= mode <= 2) ==> mode_priority(mode) == ProcessPriority::Normal,
        mode == 1 ==> mode_priority(mode) == ProcessPriority::High,
{
}

/// A report's code is positive exactly when its priority was applied, and
/// its size is 100 times one more than the priority's level: 100, 200 and
/// 300 for Normal, High and Realtime.
pub proof fn lemma_reason_code_sign_and_size(p: ProcessPriority, applied: bool)
    ensures
        (reason_code_for(p, applied) > 0) == applied,
        (if applied {
            reason_code_for(p, applied)
        } else {
            -reason_code_for(p, applied)
        }) == 100 * (p.spec_level() + 1),
{
}

proof fn lemma_blend_of_equal_values(factor: i32, value: i32)
    requires
        0 <= value <= FULL_LOAD,
    ensures
        smoothed(factor, value, value) == value,
{
    let f = factor as int;
    let v = value as int;
    assert(f * v + (1_000_000 - f) * v == 1_000_000 * v) by (nonlinear_arith);
    assert((1_000_000 * v) / 1_000_000 == v) by (nonlinear_arith);
}

/// After the first sample, repeating the last smoothed memory load as the
/// new memory sample keeps the memory load where it is, whatever the CPU
/// load and the smoothing factor; the same holds for the CPU load.
pub proof fn lemma_steady_samples_keep_smoothed_loads(c: OptimizerController, cpu_load: i32, memory_load: i32)
    requires
        c.last_timestamp_ms() != 0,
    ensures
        memory_load == c.last_memory() && 0 <= memory_load <= FULL_LOAD ==> c.next_memory(memory_load)
            == memory_load,
        cpu_load == c.last_cpu() && 0 <= cpu_load <= FULL_LOAD ==> c.next_cpu(cpu_load) == cpu_load,
{
    if memory_load == c.last_memory() && 0 <= memory_load <= FULL_LOAD {
        lemma_blend_of_equal_values(c.config().smoothing_factor, memory_load);
    }
    if cpu_load == c.last_cpu() && 0 <= cpu_load <= FULL_LOAD {
        lemma_blend_of_equal_values(c.config().smoothing_factor, cpu_load);
    }
}

/// After the first sample, the smoothed memory load lies between the new
/// memory sample and the previous smoothed memory load (for a smoothing
/// factor within 0..=1 and loads within 0..=100 %); likewise for CPU.
pub proof fn lemma_smoothed_loads_between_sample_and_previous(
    c: OptimizerController,
    cpu_load: i32,
    memory_load: i32,
)
    requires
        c.last_timestamp_ms() != 0,
        0 <= c.config().smoothing_factor <= 1_000_000,
        0 <= memory_load <= FULL_LOAD,
        0 <= c.last_memory() <= FULL_LOAD,
        0 <= cpu_load <= FULL_LOAD,
        0 <= c.last_cpu() <= FULL_LOAD,
    ensures
        memory_load <= c.last_memory() ==> memory_load <= c.next_memory(memory_load)
            <= c.last_memory(),
        memory_load >= c.last_memory() ==> c.last_memory() <= c.next_memory(memory_load)
            <= memory_load,
        cpu_load <= c.last_cpu() ==> cpu_load <= c.next_cpu(cpu_load) <= c.last_cpu(),
        cpu_load >= c.last_cpu() ==> c.last_cpu() <= c.next_cpu(cpu_load) <= cpu_load,
{
    lemma_smoothing_stays_between(c.config().smoothing_factor, memory_load, c.last_memory());
    lemma_smoothing_stays_between(c.config().smoothing_factor, cpu_load, c.last_cpu());
}

/// The bottleneck is measured against the newest recorded frame: once a
/// frame of `t` nanoseconds is recorded, whether or not the oldest record
/// is dropped, the frame length used is `t` in whole milliseconds.
pub proof fn lemma_newest_frame_is_measured(times: Seq<u128>, t: u128)
    ensures
        last_frame_ms(times.push(t)) == (t / 1_000_000) as u32,
        times.len() >= 1 ==> last_frame_ms(times.push(t).drop_first()) == (t / 1_000_000) as u32,
{
}

/// The memory trend looks only at the first and the last sample: two
/// histories with the same first and last samples agree.
pub proof fn lemma_trend_depends_only_on_the_ends(a: Seq<i32>, b: Seq<i32>)
    requires
        a.len() >= 1,
        b.len() >= 1,
        a[0] == b[0],
        a.last() == b.last(),
    ensures
        trend_exceeds_limit(a) == trend_exceeds_limit(b),
{
}

/// A history that ends where it began shows no trend, whatever lies
/// between; one whose ends differ by more than 20 % shows one.
pub proof fn lemma_trend_is_the_drift_between_the_ends(s: Seq<i32>)
    requires
        s.len() >= 1,
    ensures
        s.last() == s[0] ==> !trend_exceeds_limit(s),
        s.last() - s[0] > 20_000 || s[0] - s.last() > 20_000 ==> trend_exceeds_limit(s),
        -20_000 <= s.last() - s[0] <= 20_000 ==> !trend_exceeds_limit(s),
{
}

/// A failed application reports 403 exactly for an access denial (error
/// 5), 400 exactly for an invalid parameter (error 87), and 500 for every
/// other error or none; `opal_set_priority` reports 200 exactly on success.
pub proof fn lemma_error_statuses(outcome: (bool, Option<u32>))
    ensures
        (error_status(outcome.1) == 403) == (outcome.1 == Some(5u32)),
        (error_status(outcome.1) == 400) == (outcome.1 == Some(87u32)),
        outcome.1 != Some(5u32) && outcome.1 != Some(87u32) ==> error_status(outcome.1) == 500,
        (set_priority_status(outcome) == 200) == outcome.0,
{
}

/// `opal_auto_optimize` answers 100 for an applied Normal, 200 for an
/// applied High or Realtime; `opal_aggressive_optimize` answers 100 times
/// one more than the applied priority's level; both answer an error status
/// (400, 403 or 500) otherwise.
pub proof fn lemma_applied_statuses(p: ProcessPriority, outcome: (bool, Option<u32>))
    ensures
        outcome.0 ==> auto_status(p, outcome) == (if p.spec_level() == 0 { 100int } else { 200int }),
        outcome.0 ==> aggressive_status(p, outcome) == 100 * (p.spec_level() + 1),
        !outcome.0 ==> auto_status(p, outcome) >= 400 && aggressive_status(p, outcome) >= 400,
{
}

proof fn lemma_lod_search_is_first_reached(levels: Seq<i64>, distance: i64, i: int)
    requires
        0 <= i < levels.len(),
    ensures
        i <= lod_search(levels, distance, i) < levels.len(),
        forall|j: int| i <= j < lod_search(levels, distance, i) ==> distance > levels[j],
        lod_search(levels, distance, i) < levels.len() - 1 ==> distance <= levels[lod_search(
            levels,
            distance,
            i,
        )],
    decreases levels.len() - i,
{
    if i + 1 < levels.len() && !(distance <= levels[i]) {
        lemma_lod_search_is_first_reached(levels, distance, i + 1);
    }
}

/// The detail level is the first level whose limit the distance does not
/// exceed: every finer level's limit is exceeded, and unless it is the
/// coarsest level its own limit is not.
pub proof fn lemma_lod_is_first_level_reached(levels: Seq<i64>, distance: i64)
    requires
        levels.len() >= 1,
    ensures
        0 <= lod_index(levels, distance) < levels.len(),
        forall|j: int| 0 <= j < lod_index(levels, distance) ==> distance > levels[j],
        lod_index(levels, distance) < levels.len() - 1 ==> distance <= levels[lod_index(
            levels,
            distance,
        )],
{
    lemma_lod_search_is_first_reached(levels, distance, 0);
}

} // verus!
