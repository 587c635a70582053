use vstd::prelude::*;
use crate::apply::{apply_optimization, OptimizationReport};
use crate::priority::{OptimizationConfig, ProcessPriority};

verus! {

/// 1.0 expressed in fraction units (millionths).
pub const FULL_FRACTION: i32 = 1_000_000;

/// An optimization report extended with frame-level estimates.
///
/// `memory_pool_pressure` and `safety_score` are in millionths;
/// `estimated_fps_gain` is in frames per second.
#[derive(Debug, Clone, Copy, PartialEq, Eq, Structural)]
pub struct AdvancedOptimizationReport {
    pub base_report: OptimizationReport,
    pub thread_pool_workers: u32,
    pub memory_pool_pressure: i32,
    pub lod_culling_enabled: bool,
    pub estimated_fps_gain: u32,
    pub safety_score: i64,
}

/// The frame-rate gain expected from a priority: 30/20/5 FPS in aggressive
/// mode, 15/8/2 FPS otherwise (Realtime/High/Normal).
pub open spec fn fps_gain(aggressive: bool, p: ProcessPriority) -> int {
    if aggressive {
        match p {
            ProcessPriority::Realtime => 30,
            ProcessPriority::High => 20,
            ProcessPriority::Normal => 5,
        }
    } else {
        match p {
            ProcessPriority::Realtime => 15,
            ProcessPriority::High => 8,
            ProcessPriority::Normal => 2,
        }
    }
}

/// The weight a priority contributes to the safety score (40 % of
/// 1.0, 0.8 or 0.6 for Normal, High, Realtime), in millionths.
pub open spec fn priority_safety(p: ProcessPriority) -> int {
    match p {
        ProcessPriority::Normal => 400_000,
        ProcessPriority::High => 320_000,
        ProcessPriority::Realtime => 240_000,
    }
}

/// The weight the loads contribute to the safety score: 60 % of
/// `1 - min((cpu + memory) / 200 %, 1)`, in millionths.
pub open spec fn load_safety(cpu_load: i32, memory_load: i32) -> int {
    let combined = 3 * (cpu_load + memory_load);
    600_000 - (if combined < 600_000 { combined } else { 600_000 })
}

/// The safety score in millionths: the two weights summed, scaled by 0.85
/// in aggressive mode (rounded down), and kept within 0.1..=1.0.
pub open spec fn safety_score_of(p: ProcessPriority, cpu_load: i32, memory_load: i32, aggressive: bool) -> int {
    let raw = priority_safety(p) + load_safety(cpu_load, memory_load);
    let scaled = if aggressive { raw * 85 / 100 } else { raw };
    if scaled < 100_000 {
        100_000
    } else if scaled > 1_000_000 {
        1_000_000
    } else {
        scaled
    }
}

/// `pressure` limited to 0..=1 (in millionths).
pub open spec fn clamped_pressure(pressure: i32) -> int {
    if pressure < 0 {
        0
    } else if pressure > FULL_FRACTION {
        FULL_FRACTION as int
    } else {
        pressure as int
    }
}

fn fps_gain_for(aggressive: bool, p: ProcessPriority) -> (gain: u32)
    ensures
        gain == fps_gain(aggressive, p),
{
    if aggressive {
        match p {
            ProcessPriority::Realtime => 30,
            ProcessPriority::High => 20,
            ProcessPriority::Normal => 5,
        }
    } else {
        match p {
            ProcessPriority::Realtime => 15,
            ProcessPriority::High => 8,
            ProcessPriority::Normal => 2,
        }
    }
}

fn safety_score_for(p: ProcessPriority, cpu_load: i32, memory_load: i32, aggressive: bool) -> (score: i64)
    ensures
        score == safety_score_of(p, cpu_load, memory_load, aggressive),
{
    let priority_part: i64 = match p {
        ProcessPriority::Normal => 400_000,
        ProcessPriority::High => 320_000,
        ProcessPriority::Realtime => 240_000,
    };
    let combined: i64 = 3 * (cpu_load as i64 + memory_load as i64);
    let load_part: i64 = 600_000 - (if combined < 600_000 { combined } else { 600_000 });
    let raw: i64 = priority_part + load_part;
    let scaled: i64 = if aggressive { raw * 85 / 100 } else { raw };
    if scaled < 100_000 {
        100_000
    } else if scaled > 1_000_000 {
        1_000_000
    } else {
        scaled
    }
}

/// Runs `apply_optimization` and adds the frame-level estimates: level-of-
/// detail culling above 70 % CPU load, the expected frame-rate gain, the
/// safety score, and the memory pressure limited to 0..=1.
pub fn calculate_advanced_optimization<F>(
    cpu_load: i32,
    memory_load: i32,
    num_workers: u32,
    memory_pressure: i32,
    config: &OptimizationConfig,
    apply: F,
) -> (report: AdvancedOptimizationReport) where F: FnOnce(ProcessPriority, bool) -> bool
    requires
        forall|p: ProcessPriority, boost: bool| call_requires(apply, (p, boost)),
    ensures
        report.base_report.selected_priority == crate::priority::selected_priority(
            cpu_load,
            memory_load,
            *config,
        ),
        call_ensures(
            apply,
            (report.base_report.selected_priority, config.enable_thread_boost),
            report.base_report.applied,
        ),
        report.base_report.cpu_load == cpu_load,
        report.base_report.memory_load == memory_load,
        report.base_report.reason_code == crate::apply::reason_code_for(
            report.base_report.selected_priority,
            report.base_report.applied,
        ),
        report.thread_pool_workers == num_workers,
        report.memory_pool_pressure == clamped_pressure(memory_pressure),
        report.lod_culling_enabled == (cpu_load > 70_000),
        report.estimated_fps_gain == fps_gain(config.aggressive_mode, report.base_report.selected_priority),
        report.safety_score == safety_score_of(
            report.base_report.selected_priority,
            cpu_load,
            memory_load,
            config.aggressive_mode,
        ),
        100_000 <= report.safety_score <= 1_000_000,
{
    let base_report = apply_optimization(cpu_load, memory_load, config, apply);
    let lod_culling_enabled = cpu_load > 70_000;
    let estimated_fps_gain = fps_gain_for(config.aggressive_mode, base_report.selected_priority);
    let safety_score = safety_score_for(
        base_report.selected_priority,
        cpu_load,
        memory_load,
        config.aggressive_mode,
    );
    let pressure = if memory_pressure < 0 {
        0
    } else if memory_pressure > FULL_FRACTION {
        FULL_FRACTION
    } else {
        memory_pressure
    };
    AdvancedOptimizationReport {
        base_report,
        thread_pool_workers: num_workers,
        memory_pool_pressure: pressure,
        lod_culling_enabled,
        estimated_fps_gain,
        safety_score,
    }
}

} // verus!
