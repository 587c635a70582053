use vstd::prelude::*;
use crate::apply::{apply_optimization, reason_code_for, OptimizationReport};
use crate::priority::{default_config, selected_priority, OptimizationConfig, ProcessPriority};

verus! {

/// Runs optimization steps under a fixed configuration.
pub struct OpalScheduler {
    pub active: bool,
    config: OptimizationConfig,
}

impl OpalScheduler {
    /// The configuration the scheduler runs with.
    pub closed spec fn config(&self) -> OptimizationConfig {
        self.config
    }

    /// Whether the scheduler is active.
    pub closed spec fn is_active(&self) -> bool {
        self.active
    }

    /// An active scheduler with the default preset.
    pub fn new() -> (s: Self)
        ensures
            s.is_active(),
            s.config() == default_config(),
    {
        OpalScheduler { active: true, config: OptimizationConfig::default() }
    }

    /// An active scheduler with the given configuration.
    pub fn with_config(config: OptimizationConfig) -> (s: Self)
        ensures
            s.is_active(),
            s.config() == config,
    {
        OpalScheduler { active: true, config }
    }

    /// One optimization step under the scheduler's configuration (see
    /// `apply_optimization`).
    pub fn optimize<F>(&self, cpu_load: i32, memory_load: i32, apply: F) -> (report: OptimizationReport) where
        F: FnOnce(ProcessPriority, bool) -> bool,

        requires
            forall|p: ProcessPriority, boost: bool| call_requires(apply, (p, boost)),
        ensures
            report.selected_priority == selected_priority(cpu_load, memory_load, self.config()),
            call_ensures(
                apply,
                (report.selected_priority, self.config().enable_thread_boost),
                report.applied,
            ),
            report.cpu_load == cpu_load,
            report.memory_load == memory_load,
            report.reason_code == reason_code_for(report.selected_priority, report.applied),
    {
        apply_optimization(cpu_load, memory_load, &self.config, apply)
    }
}

/// One optimization step with the given configuration, or with the default
/// preset when none is given.
pub fn apply_ultra_optimization<F>(
    cpu_load: i32,
    memory_load: i32,
    config: Option<OptimizationConfig>,
    apply: F,
) -> (report: OptimizationReport) where F: FnOnce(ProcessPriority, bool) -> bool
    requires
        forall|p: ProcessPriority, boost: bool| call_requires(apply, (p, boost)),
    ensures
        ({
            let cfg = match config {
                Some(c) => c,
                None => default_config(),
            };
            &&& report.selected_priority == selected_priority(cpu_load, memory_load, cfg)
            &&& call_ensures(apply, (report.selected_priority, cfg.enable_thread_boost), report.applied)
            &&& report.cpu_load == cpu_load
            &&& report.memory_load == memory_load
            &&& report.reason_code == reason_code_for(report.selected_priority, report.applied)
        }),
{
    let scheduler = match config {
        Some(cfg) => OpalScheduler::with_config(cfg),
        None => OpalScheduler::new(),
    };
    scheduler.optimize(cpu_load, memory_load, apply)
}

} // verus!
