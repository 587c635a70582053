//! Process-priority selection and frame-level tuning helpers.
//!
//! Loads and thresholds are carried as integers in thousandths of a
//! percent (`82_000` is 82 %); fractions in the range 0..1 are carried in
//! millionths (`600_000` is 0.6). The library decides; applying a priority
//! to the operating system is done by a caller-supplied function.

pub mod advanced;
pub mod apply;
pub mod basic;
pub mod chunks;
pub mod controller;
pub mod gpu;
pub mod laws;
pub mod memory;
pub mod priority;
pub mod profiler;
pub mod scheduler;
pub mod text;
pub mod workload;

pub use advanced::{calculate_advanced_optimization, AdvancedOptimizationReport};
pub use apply::{
    apply_optimization, opal_aggressive_optimize, opal_auto_optimize, opal_set_priority,
    OptimizationReport,
};
pub use priority::{select_priority_for_load, OptimizationConfig, ProcessPriority};
pub use memory::{GarbageCollector, MemoryPool};
pub use workload::{WorkloadAnalyzer, WorkloadType};
pub use gpu::GPUOptimizer;
pub use chunks::chunk_ranges;
pub use profiler::FrameProfiler;
pub use scheduler::{apply_ultra_optimization, OpalScheduler};
