//! The single-step optimizer without normalization: thresholds are used
//! as given, and a critical load selects Realtime whenever the priority
//! limit allows it.

use vstd::prelude::*;
use crate::apply::{priority_code, OptimizationReport};
use crate::priority::ProcessPriority;

verus! {

/// Thresholds and switches of the single-step optimizer (thresholds in
/// thousandths of a percent).
#[derive(Debug, Clone, Copy)]
pub struct OptimizationConfig {
    pub cpu_high_threshold: i32,
    pub cpu_realtime_threshold: i32,
    pub memory_high_threshold: i32,
    pub memory_realtime_threshold: i32,
    pub enable_thread_boost: bool,
    pub sample_interval_ms: u32,
    pub aggressive_mode: bool,
    pub max_priority_level: i32,
}

/// The preset: thresholds 82/96 % CPU and 75/90 % memory, aggressive mode,
/// Realtime allowed.
pub open spec fn default_config() -> OptimizationConfig {
    OptimizationConfig {
        cpu_high_threshold: 82_000,
        cpu_realtime_threshold: 96_000,
        memory_high_threshold: 75_000,
        memory_realtime_threshold: 90_000,
        enable_thread_boost: true,
        sample_interval_ms: 120,
        aggressive_mode: true,
        max_priority_level: 2,
    }
}

impl Default for OptimizationConfig {
    fn default() -> (c: Self)
        ensures
            c == default_config(),
    {
        OptimizationConfig {
            cpu_high_threshold: 82_000,
            cpu_realtime_threshold: 96_000,
            memory_high_threshold: 75_000,
            memory_realtime_threshold: 90_000,
            enable_thread_boost: true,
            sample_interval_ms: 120,
            aggressive_mode: true,
            max_priority_level: 2,
        }
    }
}

/// The priority selected for the given loads: with thresholds lowered by
/// 4 % (high) and 2 % (realtime) in aggressive mode, a load at a realtime
/// threshold selects Realtime when the limit is at least 2 and High
/// otherwise, a load at a high threshold selects High, anything else Normal.
pub open spec fn selected_priority(cpu_load: i32, memory_load: i32, config: OptimizationConfig) -> ProcessPriority {
    let high_margin: int = if config.aggressive_mode { 4_000 } else { 0 };
    let realtime_margin: int = if config.aggressive_mode { 2_000 } else { 0 };
    if cpu_load >= config.cpu_realtime_threshold - realtime_margin || memory_load
        >= config.memory_realtime_threshold - realtime_margin {
        if config.max_priority_level >= 2 {
            ProcessPriority::Realtime
        } else {
            ProcessPriority::High
        }
    } else if cpu_load >= config.cpu_high_threshold - high_margin || memory_load
        >= config.memory_high_threshold - high_margin {
        ProcessPriority::High
    } else {
        ProcessPriority::Normal
    }
}

/// Chooses the process priority for the given loads (thousandths of a
/// percent).
pub fn select_priority_for_load(cpu_load: i32, memory_load: i32, config: &OptimizationConfig) -> (p: ProcessPriority)
    ensures
        p == selected_priority(cpu_load, memory_load, *config),
{
    let high_margin: i64 = if config.aggressive_mode { 4_000 } else { 0 };
    let realtime_margin: i64 = if config.aggressive_mode { 2_000 } else { 0 };
    let high_threshold = config.cpu_high_threshold as i64 - high_margin;
    let realtime_threshold = config.cpu_realtime_threshold as i64 - realtime_margin;
    let mem_high_threshold = config.memory_high_threshold as i64 - high_margin;
    let mem_realtime_threshold = config.memory_realtime_threshold as i64 - realtime_margin;
    let cpu = cpu_load as i64;
    let memory = memory_load as i64;
    if cpu >= realtime_threshold || memory >= mem_realtime_threshold {
        if config.max_priority_level >= 2 {
            ProcessPriority::Realtime
        } else {
            ProcessPriority::High
        }
    } else if cpu >= high_threshold || memory >= mem_high_threshold {
        ProcessPriority::High
    } else {
        ProcessPriority::Normal
    }
}

fn priority_reason(p: ProcessPriority) -> (code: i32)
    ensures
        code == priority_code(p),
{
    match p {
        ProcessPriority::Realtime => 300,
        ProcessPriority::High => 200,
        ProcessPriority::Normal => 100,
    }
}

/// Selects a priority, hands it to `apply` with the thread-boost switch,
/// and reports it with the priority's code whether or not it was applied.
pub fn apply_optimization<F>(
    cpu_load: i32,
    memory_load: i32,
    config: &OptimizationConfig,
    apply: F,
) -> (report: OptimizationReport) where F: FnOnce(ProcessPriority, bool) -> bool
    requires
        forall|p: ProcessPriority, boost: bool| call_requires(apply, (p, boost)),
    ensures
        report.selected_priority == selected_priority(cpu_load, memory_load, *config),
        call_ensures(apply, (report.selected_priority, config.enable_thread_boost), report.applied),
        report.cpu_load == cpu_load,
        report.memory_load == memory_load,
        report.reason_code == priority_code(report.selected_priority),
{
    let priority = select_priority_for_load(cpu_load, memory_load, config);
    let applied = apply(priority, config.enable_thread_boost);
    OptimizationReport {
        selected_priority: priority,
        applied,
        cpu_load,
        memory_load,
        reason_code: priority_reason(priority),
    }
}

/// The priority requested for a mode: 2 Realtime, 1 High, else Normal.
pub open spec fn mode_priority(mode: i32) -> ProcessPriority {
    if mode == 2 {
        ProcessPriority::Realtime
    } else if mode == 1 {
        ProcessPriority::High
    } else {
        ProcessPriority::Normal
    }
}

/// Requests the priority named by `mode` with thread boost; answers 200
/// when `apply` succeeded and 500 otherwise.
pub fn opal_set_priority<F>(mode: i32, apply: F) -> (status: i32) where
    F: FnOnce(ProcessPriority, bool) -> bool,

    requires
        forall|p: ProcessPriority, boost: bool| call_requires(apply, (p, boost)),
    ensures
        exists|applied: bool|
            call_ensures(apply, (mode_priority(mode), true), applied) && status == (if applied {
                200int
            } else {
                500int
            }),
{
    let priority = match mode {
        2 => ProcessPriority::Realtime,
        1 => ProcessPriority::High,
        _ => ProcessPriority::Normal,
    };
    let applied = apply(priority, true);
    let status = if applied {
        200
    } else {
        500
    };
    assert(call_ensures(apply, (mode_priority(mode), true), applied));
    status
}

/// Selects a priority for a CPU load alone under the preset (memory load
/// 0), requests it, and answers 100 when Normal was applied, 200 when an
/// elevated priority was applied, 500 otherwise.
pub fn opal_auto_optimize<F>(cpu_load: i32, apply: F) -> (status: i32) where
    F: FnOnce(ProcessPriority, bool) -> bool,

    requires
        forall|p: ProcessPriority, boost: bool| call_requires(apply, (p, boost)),
    ensures
        exists|applied: bool|
            call_ensures(apply, (selected_priority(cpu_load, 0, default_config()), true), applied)
                && status == (if !applied {
                500int
            } else if selected_priority(cpu_load, 0, default_config()) == ProcessPriority::Normal {
                100int
            } else {
                200int
            }),
{
    let config = OptimizationConfig::default();
    let priority = select_priority_for_load(cpu_load, 0, &config);
    let applied = apply(priority, config.enable_thread_boost);
    let status = if applied {
        match priority {
            ProcessPriority::Realtime => 200,
            ProcessPriority::High => 200,
            ProcessPriority::Normal => 100,
        }
    } else {
        500
    };
    assert(call_ensures(apply, (priority, true), applied));
    status
}

} // verus!
