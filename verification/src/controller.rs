//! The stateful optimizer: loads are smoothed over time, and a new
//! priority is applied only after a cool-down since the last change.

use vstd::prelude::*;
use crate::apply::{priority_code, OptimizationReport};
use crate::priority::{clamp_int, ProcessPriority, FULL_LOAD};

/// Requests a priority by mode; the same rule as the single-step optimizer.
pub use crate::basic::opal_set_priority;

verus! {

/// 1.0 expressed in smoothing-factor units (millionths).
pub const FULL_WEIGHT: i32 = 1_000_000;

/// Thresholds (thousandths of a percent), smoothing and cool-down of the
/// stateful optimizer. `smoothing_factor` is in millionths: the weight of
/// the newest sample.
#[derive(Debug, Clone, Copy)]
pub struct OptimizationConfig {
    pub cpu_high_threshold: i32,
    pub cpu_realtime_threshold: i32,
    pub memory_high_threshold: i32,
    pub memory_realtime_threshold: i32,
    pub enable_thread_boost: bool,
    pub sample_interval_ms: u32,
    pub smoothing_factor: i32,
    pub cooldown_ms: u32,
}

/// The preset: thresholds 85/95 % CPU and 75/90 % memory, smoothing 0.35,
/// a 1.5 s cool-down.
pub open spec fn default_config() -> OptimizationConfig {
    OptimizationConfig {
        cpu_high_threshold: 85_000,
        cpu_realtime_threshold: 95_000,
        memory_high_threshold: 75_000,
        memory_realtime_threshold: 90_000,
        enable_thread_boost: true,
        sample_interval_ms: 250,
        smoothing_factor: 350_000,
        cooldown_ms: 1500,
    }
}

impl Default for OptimizationConfig {
    fn default() -> (c: Self)
        ensures
            c == default_config(),
    {
        OptimizationConfig {
            cpu_high_threshold: 85_000,
            cpu_realtime_threshold: 95_000,
            memory_high_threshold: 75_000,
            memory_realtime_threshold: 90_000,
            enable_thread_boost: true,
            sample_interval_ms: 250,
            smoothing_factor: 350_000,
            cooldown_ms: 1500,
        }
    }
}

/// The priority for the given loads: Realtime when either load reaches its
/// realtime threshold, High when either reaches its high threshold, else
/// Normal.
pub open spec fn selected_priority(cpu_load: i32, memory_load: i32, config: OptimizationConfig) -> ProcessPriority {
    if cpu_load >= config.cpu_realtime_threshold || memory_load >= config.memory_realtime_threshold {
        ProcessPriority::Realtime
    } else if cpu_load >= config.cpu_high_threshold || memory_load >= config.memory_high_threshold {
        ProcessPriority::High
    } else {
        ProcessPriority::Normal
    }
}

/// Chooses the priority for the given loads (thousandths of a percent).
pub fn select_priority_for_load(cpu_load: i32, memory_load: i32, config: &OptimizationConfig) -> (p: ProcessPriority)
    ensures
        p == selected_priority(cpu_load, memory_load, *config),
{
    if cpu_load >= config.cpu_realtime_threshold || memory_load >= config.memory_realtime_threshold {
        ProcessPriority::Realtime
    } else if cpu_load >= config.cpu_high_threshold || memory_load >= config.memory_high_threshold {
        ProcessPriority::High
    } else {
        ProcessPriority::Normal
    }
}

/// The newest sample blended with the previous value: `factor * sample +
/// (1 - factor) * previous`, rounded down to a thousandth of a percent and
/// limited to 0..=100 %.
pub open spec fn smoothed(factor: i32, sample: i32, previous: i32) -> int {
    clamp_int(
        (factor * sample + (FULL_WEIGHT - factor) * previous) / (FULL_WEIGHT as int),
        0,
        FULL_LOAD as int,
    )
}

/// The time from `earlier` to `later`, or 0 when `later` comes first.
pub open spec fn time_since(earlier: u64, later: u64) -> int {
    if later >= earlier {
        later - earlier
    } else {
        0
    }
}

fn smooth(factor: i32, sample: i32, previous: i32) -> (v: i32)
    ensures
        v == smoothed(factor, sample, previous),
{
    proof {
        let f = factor as int;
        let x = sample as int;
        let p = previous as int;
        let g = 1_000_000 - f;
        assert(-0x4000_0000_0000_0000 <= f * x <= 0x4000_0000_0000_0000) by (nonlinear_arith)
            requires
                -0x8000_0000 <= f < 0x8000_0000,
                -0x8000_0000 <= x < 0x8000_0000,
        ;
        assert(-0x8000_0000_0000_0000 <= g * p <= 0x8000_0000_0000_0000) by (nonlinear_arith)
            requires
                -0x1_0000_0000 <= g < 0x1_0000_0000,
                -0x8000_0000 <= p < 0x8000_0000,
        ;
    }
    let weighted: i128 = (factor as i128) * (sample as i128) + ((FULL_WEIGHT as i128) - (factor as i128)) * (
    previous as i128);
    let scale: i128 = FULL_WEIGHT as i128;
    // Shift to a non-negative numerator so that division rounds down.
    let shift: i128 = 0x1_0000_0000_0000_0000;
    let shifted: i128 = weighted + shift * scale;
    let quotient: i128 = shifted / scale - shift;
    proof {
        let q = shifted / scale;
        let r = shifted % scale;
        vstd::arithmetic::div_mod::lemma_fundamental_div_mod(shifted as int, scale as int);
        assert(weighted == (q - shift) * scale + r) by (nonlinear_arith)
            requires
                shifted == q * scale + r,
                shifted == weighted + shift * scale,
        ;
        vstd::arithmetic::div_mod::lemma_fundamental_div_mod_converse_div(
            weighted as int,
            scale as int,
            q - shift,
            r as int,
        );
    }
    if quotient < 0 {
        0
    } else if quotient > FULL_LOAD as i128 {
        FULL_LOAD
    } else {
        quotient as i32
    }
}

fn priority_reason(p: ProcessPriority) -> (code: i32)
    ensures
        code == priority_code(p),
{
    match p {
        ProcessPriority::Realtime => 300,
        ProcessPriority::High => 200,
        ProcessPriority::Normal => 100,
    }
}

/// Keeps the smoothed loads and the last applied priority between samples.
pub struct OptimizerController {
    config: OptimizationConfig,
    last_priority: ProcessPriority,
    last_change_ms: u64,
    last_cpu: i32,
    last_memory: i32,
    last_timestamp_ms: u64,
}

impl OptimizerController {
    /// The configuration the controller was made with.
    pub closed spec fn config(&self) -> OptimizationConfig {
        self.config
    }

    /// The priority most recently applied (Normal at first).
    pub closed spec fn last_priority(&self) -> ProcessPriority {
        self.last_priority
    }

    /// The time of the last applied change (0 before any change).
    pub closed spec fn last_change_ms(&self) -> u64 {
        self.last_change_ms
    }

    /// The smoothed CPU load of the last sample.
    pub closed spec fn last_cpu(&self) -> i32 {
        self.last_cpu
    }

    /// The smoothed memory load of the last sample.
    pub closed spec fn last_memory(&self) -> i32 {
        self.last_memory
    }

    /// The time of the last sample (0 before any sample).
    pub closed spec fn last_timestamp_ms(&self) -> u64 {
        self.last_timestamp_ms
    }

    /// The smoothed CPU load that a sample of `cpu_load` gives: the sample
    /// itself when it is the first one.
    pub open spec fn next_cpu(&self, cpu_load: i32) -> int {
        if self.last_timestamp_ms() == 0 {
            cpu_load as int
        } else {
            smoothed(self.config().smoothing_factor, cpu_load, self.last_cpu())
        }
    }

    /// The smoothed memory load that a sample of `memory_load` gives: the
    /// sample itself when it is the first one.
    pub open spec fn next_memory(&self, memory_load: i32) -> int {
        if self.last_timestamp_ms() == 0 {
            memory_load as int
        } else {
            smoothed(self.config().smoothing_factor, memory_load, self.last_memory())
        }
    }

    /// The priority selected for the smoothed loads of a sample.
    pub open spec fn target(&self, cpu_load: i32, memory_load: i32) -> ProcessPriority {
        selected_priority(
            self.next_cpu(cpu_load) as i32,
            self.next_memory(memory_load) as i32,
            self.config(),
        )
    }

    /// Whether a sample calls for a change: its target differs from the
    /// last applied priority, and either nothing was changed yet or the
    /// cool-down since the last change has passed.
    pub open spec fn change_due(&self, cpu_load: i32, memory_load: i32, timestamp_ms: u64) -> bool {
        &&& self.target(cpu_load, memory_load) != self.last_priority()
        &&& (self.last_change_ms() == 0 || time_since(self.last_change_ms(), timestamp_ms)
            >= self.config().cooldown_ms)
    }

    /// A controller that has seen no sample and applied nothing.
    pub fn new(config: OptimizationConfig) -> (c: Self)
        ensures
            c.config() == config,
            c.last_priority() == ProcessPriority::Normal,
            c.last_change_ms() == 0,
            c.last_cpu() == 0,
            c.last_memory() == 0,
            c.last_timestamp_ms() == 0,
    {
        OptimizerController {
            config,
            last_priority: ProcessPriority::Normal,
            last_change_ms: 0,
            last_cpu: 0,
            last_memory: 0,
            last_timestamp_ms: 0,
        }
    }

    /// Takes a sample taken at `timestamp_ms`: smooths the loads (the first
    /// sample is taken as it is), selects a priority for them, and hands it
    /// to `apply` only when it differs from the last applied priority and
    /// the cool-down since the last change has passed (or nothing was
    /// changed yet); otherwise `apply` is not called. A successful change
    /// becomes the last applied priority.
    pub fn update<F>(&mut self, cpu_load: i32, memory_load: i32, timestamp_ms: u64, apply: F) -> (report: OptimizationReport) where
        F: FnOnce(ProcessPriority, bool) -> bool,

        requires
            old(self).change_due(cpu_load, memory_load, timestamp_ms) ==> call_requires(
                apply,
                (old(self).target(cpu_load, memory_load), old(self).config().enable_thread_boost),
            ),
        ensures
            report.cpu_load == old(self).next_cpu(cpu_load),
            report.memory_load == old(self).next_memory(memory_load),
            report.selected_priority == old(self).target(cpu_load, memory_load),
            report.reason_code == priority_code(report.selected_priority),
            old(self).change_due(cpu_load, memory_load, timestamp_ms) ==> call_ensures(
                apply,
                (report.selected_priority, old(self).config().enable_thread_boost),
                report.applied,
            ),
            !old(self).change_due(cpu_load, memory_load, timestamp_ms) ==> !report.applied,
            old(self).last_timestamp_ms() != 0 && memory_load == old(self).last_memory() && 0
                <= memory_load <= FULL_LOAD ==> report.memory_load == memory_load,
            report.applied ==> final(self).last_priority() == report.selected_priority
                && final(self).last_change_ms() == timestamp_ms,
            !report.applied ==> final(self).last_priority() == old(self).last_priority()
                && final(self).last_change_ms() == old(self).last_change_ms(),
            final(self).last_priority() != old(self).last_priority() ==> old(self).last_change_ms()
                == 0 || time_since(old(self).last_change_ms(), timestamp_ms) >= old(
                self,
            ).config().cooldown_ms,
            old(self).last_timestamp_ms() != 0 ==> 0 <= report.cpu_load <= FULL_LOAD && 0
                <= report.memory_load <= FULL_LOAD,
            final(self).config() == old(self).config(),
            final(self).last_cpu() == report.cpu_load,
            final(self).last_memory() == report.memory_load,
            final(self).last_timestamp_ms() == timestamp_ms,
    {
        proof {
            if old(self).last_timestamp_ms() != 0 {
                crate::laws::lemma_steady_samples_keep_smoothed_loads(*old(self), cpu_load, memory_load);
            }
        }
        let first = self.last_timestamp_ms == 0;
        let smoothed_cpu = if first {
            cpu_load
        } else {
            smooth(self.config.smoothing_factor, cpu_load, self.last_cpu)
        };
        let smoothed_memory = if first {
            memory_load
        } else {
            smooth(self.config.smoothing_factor, memory_load, self.last_memory)
        };
        let target = select_priority_for_load(smoothed_cpu, smoothed_memory, &self.config);
        let since_change = if timestamp_ms >= self.last_change_ms {
            timestamp_ms - self.last_change_ms
        } else {
            0
        };
        let can_change = self.last_priority != target && (self.last_change_ms == 0 || since_change
            >= self.config.cooldown_ms as u64);
        let applied = if can_change {
            let result = apply(target, self.config.enable_thread_boost);
            if result {
                self.last_priority = target;
                self.last_change_ms = timestamp_ms;
            }
            result
        } else {
            false
        };
        self.last_cpu = smoothed_cpu;
        self.last_memory = smoothed_memory;
        self.last_timestamp_ms = timestamp_ms;
        OptimizationReport {
            selected_priority: target,
            applied,
            cpu_load: smoothed_cpu,
            memory_load: smoothed_memory,
            reason_code: priority_reason(target),
        }
    }
}

/// Selects a priority, hands it to `apply` with the thread-boost switch,
/// and reports it with the priority's code whether or not it was applied.
pub fn apply_optimization<F>(
    cpu_load: i32,
    memory_load: i32,
    config: &OptimizationConfig,
    apply: F,
) -> (report: OptimizationReport) where F: FnOnce(ProcessPriority, bool) -> bool
    requires
        forall|p: ProcessPriority, boost: bool| call_requires(apply, (p, boost)),
    ensures
        report.selected_priority == selected_priority(cpu_load, memory_load, *config),
        call_ensures(apply, (report.selected_priority, config.enable_thread_boost), report.applied),
        report.cpu_load == cpu_load,
        report.memory_load == memory_load,
        report.reason_code == priority_code(report.selected_priority),
{
    let priority = select_priority_for_load(cpu_load, memory_load, config);
    let applied = apply(priority, config.enable_thread_boost);
    OptimizationReport {
        selected_priority: priority,
        applied,
        cpu_load,
        memory_load,
        reason_code: priority_reason(priority),
    }
}

/// Selects a priority for a CPU load alone under the preset (memory load
/// 0), requests it, and answers 100 when Normal was applied, 200 when an
/// elevated priority was applied, 500 otherwise.
pub fn opal_auto_optimize<F>(cpu_load: i32, apply: F) -> (status: i32) where
    F: FnOnce(ProcessPriority, bool) -> bool,

    requires
        forall|p: ProcessPriority, boost: bool| call_requires(apply, (p, boost)),
    ensures
        exists|applied: bool|
            call_ensures(apply, (selected_priority(cpu_load, 0, default_config()), true), applied)
                && status == (if !applied {
                500int
            } else if selected_priority(cpu_load, 0, default_config()) == ProcessPriority::Normal {
                100int
            } else {
                200int
            }),
{
    let config = OptimizationConfig::default();
    let priority = select_priority_for_load(cpu_load, 0, &config);
    let applied = apply(priority, config.enable_thread_boost);
    let status = if applied {
        match priority {
            ProcessPriority::Realtime => 200,
            ProcessPriority::High => 200,
            ProcessPriority::Normal => 100,
        }
    } else {
        500
    };
    assert(call_ensures(apply, (priority, true), applied));
    status
}

} // verus!
