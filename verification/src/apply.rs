use vstd::prelude::*;
use crate::laws::lemma_normalize_idempotent;
use crate::priority::{
    select_priority_for_load, aggressive_safe_config, default_config, normalize_config, selected_priority,
    ultra_performance_config, OptimizationConfig, ProcessPriority,
};

verus! {

/// What one optimization step chose and whether applying it succeeded.
#[derive(Debug, Clone, Copy, PartialEq, Eq, Structural)]
pub struct OptimizationReport {
    pub selected_priority: ProcessPriority,
    pub applied: bool,
    pub cpu_load: i32,
    pub memory_load: i32,
    pub reason_code: i32,
}

/// The reason code of a priority: Normal 100, High 200, Realtime 300.
pub open spec fn priority_code(p: ProcessPriority) -> int {
    match p {
        ProcessPriority::Normal => 100,
        ProcessPriority::High => 200,
        ProcessPriority::Realtime => 300,
    }
}

/// The reason code of a report: the priority's code, negated when the
/// priority could not be applied.
pub open spec fn reason_code_for(p: ProcessPriority, applied: bool) -> int {
    if applied {
        priority_code(p)
    } else {
        -priority_code(p)
    }
}

/// The status reported for a failed application: 403 for an access
/// denial (error 5), 400 for an invalid parameter (error 87), 500 otherwise.
pub open spec fn error_status(error: Option<u32>) -> int {
    match error {
        Some(code) => if code == 5 {
            403
        } else if code == 87 {
            400
        } else {
            500
        },
        None => 500,
    }
}

/// The priority that `opal_set_priority` requests for a mode:
/// 2 Realtime, 1 High, anything else Normal.
pub open spec fn mode_priority(mode: i32) -> ProcessPriority {
    if mode == 2 {
        ProcessPriority::Realtime
    } else if mode == 1 {
        ProcessPriority::High
    } else {
        ProcessPriority::Normal
    }
}

/// Status of `opal_set_priority` for an outcome of the applier.
pub open spec fn set_priority_status(outcome: (bool, Option<u32>)) -> int {
    if outcome.0 {
        200
    } else {
        error_status(outcome.1)
    }
}

/// Status of `opal_auto_optimize`: 100 when Normal was applied, 200 when an
/// elevated priority was applied, the error status otherwise.
pub open spec fn auto_status(p: ProcessPriority, outcome: (bool, Option<u32>)) -> int {
    if outcome.0 {
        if p == ProcessPriority::Normal {
            100
        } else {
            200
        }
    } else {
        error_status(outcome.1)
    }
}

/// Status of `opal_aggressive_optimize`: the priority's code when it was
/// applied, the error status otherwise.
pub open spec fn aggressive_status(p: ProcessPriority, outcome: (bool, Option<u32>)) -> int {
    if outcome.0 {
        priority_code(p)
    } else {
        error_status(outcome.1)
    }
}

/// The preset that `opal_aggressive_optimize` uses.
pub open spec fn aggressive_preset(enable_realtime: bool) -> OptimizationConfig {
    if enable_realtime {
        ultra_performance_config()
    } else {
        aggressive_safe_config()
    }
}

fn priority_reason(p: ProcessPriority) -> (code: i32)
    ensures
        code == priority_code(p),
{
    match p {
        ProcessPriority::Realtime => 300,
        ProcessPriority::High => 200,
        ProcessPriority::Normal => 100,
    }
}

fn error_status_code(error: Option<u32>) -> (status: i32)
    ensures
        status == error_status(error),
{
    match error {
        Some(5) => 403,
        Some(87) => 400,
        Some(_) => 500,
        None => 500,
    }
}

/// Selects a priority for the loads, hands it to `apply` together with the
/// configuration's thread-boost switch, and reports the outcome.
///
/// `apply` performs the change on the operating system and answers whether
/// it succeeded.
pub fn apply_optimization<F>(
    cpu_load: i32,
    memory_load: i32,
    config: &OptimizationConfig,
    apply: F,
) -> (report: OptimizationReport) where F: FnOnce(ProcessPriority, bool) -> bool
    requires
        forall|p: ProcessPriority, boost: bool| call_requires(apply, (p, boost)),
    ensures
        report.selected_priority == selected_priority(cpu_load, memory_load, *config),
        call_ensures(apply, (report.selected_priority, config.enable_thread_boost), report.applied),
        report.cpu_load == cpu_load,
        report.memory_load == memory_load,
        report.reason_code == reason_code_for(report.selected_priority, report.applied),
        report.applied ==> report.reason_code > 0,
        !report.applied ==> report.reason_code < 0,
{
    let normalized_config = normalize_config(config);
    let priority = select_priority_for_load(cpu_load, memory_load, &normalized_config);
    proof {
        lemma_normalize_idempotent(*config);
    }
    let applied = apply(priority, normalized_config.enable_thread_boost);
    let code = priority_reason(priority);
    OptimizationReport {
        selected_priority: priority,
        applied,
        cpu_load,
        memory_load,
        reason_code: if applied { code } else { -code },
    }
}

/// Requests the priority named by `mode` (2 Realtime, 1 High, otherwise
/// Normal) with thread boost, and answers 200 when `apply` succeeded, else
/// the status of the error it returned.
pub fn opal_set_priority<F>(mode: i32, apply: F) -> (status: i32) where
    F: FnOnce(ProcessPriority, bool) -> (bool, Option<u32>),

    requires
        forall|p: ProcessPriority, boost: bool| call_requires(apply, (p, boost)),
    ensures
        exists|outcome: (bool, Option<u32>)|
            call_ensures(apply, (mode_priority(mode), true), outcome) && status
                == set_priority_status(outcome),
{
    let priority = match mode {
        2 => ProcessPriority::Realtime,
        1 => ProcessPriority::High,
        _ => ProcessPriority::Normal,
    };
    let outcome = apply(priority, true);
    let (applied, error_code) = outcome;
    let status = if applied {
        200
    } else {
        error_status_code(error_code)
    };
    assert(call_ensures(apply, (mode_priority(mode), true), outcome));
    assert(status == set_priority_status(outcome));
    status
}

/// Selects a priority for a CPU load alone under the default preset
/// (memory load 0), requests it, and answers 100 when Normal was applied,
/// 200 when an elevated priority was applied, else the error status.
pub fn opal_auto_optimize<F>(cpu_load: i32, apply: F) -> (status: i32) where
    F: FnOnce(ProcessPriority, bool) -> (bool, Option<u32>),

    requires
        forall|p: ProcessPriority, boost: bool| call_requires(apply, (p, boost)),
    ensures
        exists|outcome: (bool, Option<u32>)|
            call_ensures(apply, (selected_priority(cpu_load, 0, default_config()), true), outcome)
                && status == auto_status(selected_priority(cpu_load, 0, default_config()), outcome),
{
    let config = OptimizationConfig::default();
    let priority = select_priority_for_load(cpu_load, 0, &config);
    let outcome = apply(priority, config.enable_thread_boost);
    let (applied, error_code) = outcome;
    let status = if applied {
        match priority {
            ProcessPriority::Realtime => 200,
            ProcessPriority::High => 200,
            ProcessPriority::Normal => 100,
        }
    } else {
        error_status_code(error_code)
    };
    assert(call_ensures(apply, (priority, true), outcome));
    assert(status == auto_status(priority, outcome));
    status
}

/// Selects a priority under the ultra-performance preset (when
/// `enable_realtime`) or the aggressive-safe preset, requests it, and
/// answers the priority's code when applied, else the error status.
pub fn opal_aggressive_optimize<F>(
    cpu_load: i32,
    memory_load: i32,
    enable_realtime: bool,
    apply: F,
) -> (status: i32) where F: FnOnce(ProcessPriority, bool) -> (bool, Option<u32>)
    requires
        forall|p: ProcessPriority, boost: bool| call_requires(apply, (p, boost)),
    ensures
        exists|outcome: (bool, Option<u32>)|
            call_ensures(
                apply,
                (selected_priority(cpu_load, memory_load, aggressive_preset(enable_realtime)), true),
                outcome,
            ) && status == aggressive_status(
                selected_priority(cpu_load, memory_load, aggressive_preset(enable_realtime)),
                outcome,
            ),
{
    let config = if enable_realtime {
        OptimizationConfig::ultra_performance()
    } else {
        OptimizationConfig::aggressive_safe()
    };
    let priority = select_priority_for_load(cpu_load, memory_load, &config);
    let outcome = apply(priority, config.enable_thread_boost);
    let (applied, error_code) = outcome;
    let status = if applied {
        priority_reason(priority)
    } else {
        error_status_code(error_code)
    };
    assert(call_ensures(apply, (priority, true), outcome));
    assert(status == aggressive_status(priority, outcome));
    status
}

} // verus!
