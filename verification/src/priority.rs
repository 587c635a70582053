use vstd::prelude::*;

verus! {

/// 100 % expressed in load units (thousandths of a percent).
pub const FULL_LOAD: i32 = 100_000;

/// How much the process is favoured by the scheduler.
#[derive(Debug, Clone, Copy, PartialEq, Eq, Structural)]
pub enum ProcessPriority {
    Normal,
    High,
    Realtime,
}

impl ProcessPriority {
    /// The numeric level of a priority: Normal 0, High 1, Realtime 2.
    pub open spec fn spec_level(self) -> int {
        match self {
            ProcessPriority::Normal => 0,
            ProcessPriority::High => 1,
            ProcessPriority::Realtime => 2,
        }
    }

    /// The numeric level of this priority: Normal 0, High 1, Realtime 2.
    pub fn level(&self) -> (r: i32)
        ensures
            r == self.spec_level(),
    {
        match self {
            ProcessPriority::Normal => 0,
            ProcessPriority::High => 1,
            ProcessPriority::Realtime => 2,
        }
    }
}

/// Thresholds and switches that drive priority selection.
///
/// Thresholds are in thousandths of a percent.
#[derive(Debug, Clone, Copy)]
pub struct OptimizationConfig {
    pub cpu_high_threshold: i32,
    pub cpu_realtime_threshold: i32,
    pub memory_high_threshold: i32,
    pub memory_realtime_threshold: i32,
    pub enable_thread_boost: bool,
    pub sample_interval_ms: u32,
    pub aggressive_mode: bool,
    pub max_priority_level: i32,
}

/// The conservative preset: High above 82 % CPU or 75 % memory, never Realtime.
pub open spec fn default_config() -> OptimizationConfig {
    OptimizationConfig {
        cpu_high_threshold: 82_000,
        cpu_realtime_threshold: 96_000,
        memory_high_threshold: 75_000,
        memory_realtime_threshold: 90_000,
        enable_thread_boost: true,
        sample_interval_ms: 120,
        aggressive_mode: false,
        max_priority_level: 1,
    }
}

/// The recommended preset: lower thresholds, aggressive mode, never Realtime.
pub open spec fn aggressive_safe_config() -> OptimizationConfig {
    OptimizationConfig {
        cpu_high_threshold: 75_000,
        cpu_realtime_threshold: 90_000,
        memory_high_threshold: 70_000,
        memory_realtime_threshold: 85_000,
        enable_thread_boost: true,
        sample_interval_ms: 100,
        aggressive_mode: true,
        max_priority_level: 1,
    }
}

/// The most reactive preset, which may select Realtime.
pub open spec fn ultra_performance_config() -> OptimizationConfig {
    OptimizationConfig {
        cpu_high_threshold: 70_000,
        cpu_realtime_threshold: 85_000,
        memory_high_threshold: 65_000,
        memory_realtime_threshold: 80_000,
        enable_thread_boost: true,
        sample_interval_ms: 80,
        aggressive_mode: true,
        max_priority_level: 2,
    }
}

impl Default for OptimizationConfig {
    fn default() -> (c: Self)
        ensures
            c == default_config(),
    {
        OptimizationConfig {
            cpu_high_threshold: 82_000,
            cpu_realtime_threshold: 96_000,
            memory_high_threshold: 75_000,
            memory_realtime_threshold: 90_000,
            enable_thread_boost: true,
            sample_interval_ms: 120,
            aggressive_mode: false,
            max_priority_level: 1,
        }
    }
}

impl OptimizationConfig {
    /// The recommended preset (see `aggressive_safe_config`).
    pub fn aggressive_safe() -> (c: Self)
        ensures
            c == aggressive_safe_config(),
    {
        OptimizationConfig {
            cpu_high_threshold: 75_000,
            cpu_realtime_threshold: 90_000,
            memory_high_threshold: 70_000,
            memory_realtime_threshold: 85_000,
            enable_thread_boost: true,
            sample_interval_ms: 100,
            aggressive_mode: true,
            max_priority_level: 1,
        }
    }

    /// The most reactive preset (see `ultra_performance_config`).
    pub fn ultra_performance() -> (c: Self)
        ensures
            c == ultra_performance_config(),
    {
        OptimizationConfig {
            cpu_high_threshold: 70_000,
            cpu_realtime_threshold: 85_000,
            memory_high_threshold: 65_000,
            memory_realtime_threshold: 80_000,
            enable_thread_boost: true,
            sample_interval_ms: 80,
            aggressive_mode: true,
            max_priority_level: 2,
        }
    }
}

/// `x` limited to the range `lo..=hi` (for `lo <= hi`).
pub open spec fn clamp_int(x: int, lo: int, hi: int) -> int {
    if x < lo {
        lo
    } else if x > hi {
        hi
    } else {
        x
    }
}

/// The configuration as selection reads it: thresholds limited to 0..=100 %,
/// each realtime threshold raised to at least its high threshold, a sample
/// interval of at least 1 ms and a priority limit within 0..=2.
pub open spec fn normalized(c: OptimizationConfig) -> OptimizationConfig {
    let cpu_high = clamp_int(c.cpu_high_threshold as int, 0, FULL_LOAD as int);
    let cpu_rt = clamp_int(c.cpu_realtime_threshold as int, 0, FULL_LOAD as int);
    let mem_high = clamp_int(c.memory_high_threshold as int, 0, FULL_LOAD as int);
    let mem_rt = clamp_int(c.memory_realtime_threshold as int, 0, FULL_LOAD as int);
    OptimizationConfig {
        cpu_high_threshold: cpu_high as i32,
        cpu_realtime_threshold: (if cpu_rt < cpu_high { cpu_high } else { cpu_rt }) as i32,
        memory_high_threshold: mem_high as i32,
        memory_realtime_threshold: (if mem_rt < mem_high { mem_high } else { mem_rt }) as i32,
        enable_thread_boost: c.enable_thread_boost,
        sample_interval_ms: if c.sample_interval_ms < 1 { 1 } else { c.sample_interval_ms },
        aggressive_mode: c.aggressive_mode,
        max_priority_level: clamp_int(c.max_priority_level as int, 0, 2) as i32,
    }
}

fn clamp_i32(x: i32, lo: i32, hi: i32) -> (r: i32)
    requires
        lo <= hi,
    ensures
        r == clamp_int(x as int, lo as int, hi as int),
{
    if x < lo {
        lo
    } else if x > hi {
        hi
    } else {
        x
    }
}

/// Limits every field of `config` to the range that selection accepts.
pub(crate) fn normalize_config(config: &OptimizationConfig) -> (n: OptimizationConfig)
    ensures
        n == normalized(*config),
{
    let mut n = *config;
    n.cpu_high_threshold = clamp_i32(n.cpu_high_threshold, 0, FULL_LOAD);
    n.cpu_realtime_threshold = clamp_i32(n.cpu_realtime_threshold, 0, FULL_LOAD);
    n.memory_high_threshold = clamp_i32(n.memory_high_threshold, 0, FULL_LOAD);
    n.memory_realtime_threshold = clamp_i32(n.memory_realtime_threshold, 0, FULL_LOAD);
    if n.sample_interval_ms < 1 {
        n.sample_interval_ms = 1;
    }
    n.max_priority_level = clamp_i32(n.max_priority_level, 0, 2);
    if n.cpu_realtime_threshold < n.cpu_high_threshold {
        n.cpu_realtime_threshold = n.cpu_high_threshold;
    }
    if n.memory_realtime_threshold < n.memory_high_threshold {
        n.memory_realtime_threshold = n.memory_high_threshold;
    }
    n
}

/// The priority chosen under critical load, limited by `max_level`.
pub open spec fn critical_priority(max_level: i32) -> ProcessPriority {
    if max_level == 2 {
        ProcessPriority::Realtime
    } else if max_level == 1 {
        ProcessPriority::High
    } else {
        ProcessPriority::Normal
    }
}

/// The priority chosen under high load, limited by `max_level`.
pub open spec fn elevated_priority(max_level: i32) -> ProcessPriority {
    if max_level == 1 || max_level == 2 {
        ProcessPriority::High
    } else {
        ProcessPriority::Normal
    }
}

/// How far aggressive mode lowers the high thresholds (4 %).
pub open spec fn high_margin(aggressive: bool) -> int {
    if aggressive { 4_000 } else { 0 }
}

/// How far aggressive mode lowers the realtime thresholds (2 %).
pub open spec fn realtime_margin(aggressive: bool) -> int {
    if aggressive { 2_000 } else { 0 }
}

/// The priority selected for the given loads: critical when either load
/// reaches its realtime threshold, elevated when either reaches its high
/// threshold, Normal otherwise; thresholds are those of the normalized
/// configuration, lowered by the aggressive margins.
pub open spec fn selected_priority(cpu_load: i32, memory_load: i32, config: OptimizationConfig) -> ProcessPriority {
    let n = normalized(config);
    if cpu_load >= n.cpu_realtime_threshold - realtime_margin(n.aggressive_mode)
        || memory_load >= n.memory_realtime_threshold - realtime_margin(n.aggressive_mode) {
        critical_priority(n.max_priority_level)
    } else if cpu_load >= n.cpu_high_threshold - high_margin(n.aggressive_mode)
        || memory_load >= n.memory_high_threshold - high_margin(n.aggressive_mode) {
        elevated_priority(n.max_priority_level)
    } else {
        ProcessPriority::Normal
    }
}

/// Chooses the process priority for the given CPU and memory loads
/// (thousandths of a percent).
pub fn select_priority_for_load(cpu_load: i32, memory_load: i32, config: &OptimizationConfig) -> (p: ProcessPriority)
    ensures
        p == selected_priority(cpu_load, memory_load, *config),
{
    let config = normalize_config(config);
    let high_threshold = if config.aggressive_mode {
        config.cpu_high_threshold - 4_000
    } else {
        config.cpu_high_threshold
    };
    let realtime_threshold = if config.aggressive_mode {
        config.cpu_realtime_threshold - 2_000
    } else {
        config.cpu_realtime_threshold
    };
    let mem_high_threshold = if config.aggressive_mode {
        config.memory_high_threshold - 4_000
    } else {
        config.memory_high_threshold
    };
    let mem_realtime_threshold = if config.aggressive_mode {
        config.memory_realtime_threshold - 2_000
    } else {
        config.memory_realtime_threshold
    };

    if cpu_load >= realtime_threshold || memory_load >= mem_realtime_threshold {
        match config.max_priority_level {
            2 => ProcessPriority::Realtime,
            1 => ProcessPriority::High,
            _ => ProcessPriority::Normal,
        }
    } else if cpu_load >= high_threshold || memory_load >= mem_high_threshold {
        match config.max_priority_level {
            1 | 2 => ProcessPriority::High,
            _ => ProcessPriority::Normal,
        }
    } else {
        ProcessPriority::Normal
    }
}

} // verus!
