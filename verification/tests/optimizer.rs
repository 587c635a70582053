use opal_lib::basic;
use opal_lib::{
    calculate_advanced_optimization, select_priority_for_load, GPUOptimizer, MemoryPool,
    OptimizationConfig, ProcessPriority, WorkloadAnalyzer, WorkloadType,
};

// Loads are in thousandths of a percent, fractions in millionths and
// positions and distances in thousandths of a unit.

fn always_applied(_: ProcessPriority, _: bool) -> bool {
    true
}

#[test]
fn selects_high_priority_for_high_cpu() {
    let cfg = OptimizationConfig::default();
    let priority = select_priority_for_load(90_000, 40_000, &cfg);
    assert_eq!(priority, ProcessPriority::High);
}

#[test]
fn selects_realtime_for_critical_pressure() {
    let cfg = OptimizationConfig::default();
    let priority = select_priority_for_load(98_000, 92_000, &cfg);
    assert_eq!(priority, ProcessPriority::High);
}

#[test]
fn keeps_normal_priority_under_thresholds() {
    let cfg = OptimizationConfig::default();
    let priority = select_priority_for_load(40_000, 30_000, &cfg);
    assert_eq!(priority, ProcessPriority::Normal);
}

#[test]
fn defaults_to_high_instead_of_realtime_for_critical_load() {
    let cfg = OptimizationConfig::default();
    let priority = select_priority_for_load(99_000, 99_000, &cfg);
    assert_eq!(priority, ProcessPriority::High);
}

#[test]
fn respects_max_priority_limit() {
    let mut cfg = OptimizationConfig::default();
    cfg.max_priority_level = 0;
    let priority = select_priority_for_load(99_000, 99_000, &cfg);
    assert_eq!(priority, ProcessPriority::Normal);
}

#[test]
fn aggressive_safe_is_more_reactive_than_default() {
    let default_cfg = OptimizationConfig::default();
    let aggressive_cfg = OptimizationConfig::aggressive_safe();

    let default_priority = select_priority_for_load(85_000, 75_000, &default_cfg);
    let aggressive_priority = select_priority_for_load(85_000, 75_000, &aggressive_cfg);

    assert!(aggressive_priority as i32 >= default_priority as i32);
}

#[test]
fn ultra_performance_activates_realtime_at_lower_load() {
    let ultra_cfg = OptimizationConfig::ultra_performance();
    let priority = select_priority_for_load(86_000, 81_000, &ultra_cfg);
    assert_eq!(priority, ProcessPriority::Realtime);
}

#[test]
fn advanced_optimization_provides_reasonable_estimates() {
    let cfg = OptimizationConfig::aggressive_safe();
    let report = calculate_advanced_optimization(85_000, 70_000, 8, 600_000, &cfg, always_applied);

    assert!(report.estimated_fps_gain > 0);
    assert!(report.safety_score > 0 && report.safety_score <= 1_000_000);
    assert_eq!(report.thread_pool_workers, 8);
    assert!(report.lod_culling_enabled);
}

#[test]
fn safety_score_decreases_with_realtime_priority() {
    let cfg = OptimizationConfig::ultra_performance();
    let report_high_load = calculate_advanced_optimization(95_000, 85_000, 8, 800_000, &cfg, always_applied);

    assert!(report_high_load.safety_score < 800_000);
}

#[test]
fn memory_pool_allocates_and_deallocates() {
    let mut pool = MemoryPool::new(1024, 5);

    assert!(pool.allocate().is_some());
    assert!(pool.allocate().is_some());

    let chunk = pool.allocate().unwrap();
    assert_eq!(chunk.len(), 1024);

    pool.deallocate(chunk);
    assert!(pool.allocate().is_some());
}

#[test]
fn memory_pool_reports_utilization() {
    let mut pool = MemoryPool::new(1024, 10);

    let initial = pool.get_utilization();
    assert_eq!(initial, Some(0));

    for _ in 0..5 {
        let _ = pool.allocate();
    }

    let mid = pool.get_utilization().unwrap();
    assert!(mid > 400_000 && mid <= 500_000);
}

#[test]
fn gpu_optimizer_calculates_lod_correctly() {
    let optimizer = GPUOptimizer::new();

    assert_eq!(optimizer.calculate_lod(50_000), 0);
    assert_eq!(optimizer.calculate_lod(150_000), 1);
    assert_eq!(optimizer.calculate_lod(600_000), 3);
    assert_eq!(optimizer.calculate_lod(10_000_000), 4);
}

#[test]
fn gpu_optimizer_frustum_cull_filters_objects() {
    let mut optimizer = GPUOptimizer::new();

    let camera_pos = (0, 0, 0);
    let view_distance = 500_000;
    let objects = vec![
        (100_000, 0, 0),
        (600_000, 0, 0),
        (0, 200_000, 0),
        (0, 0, 1_000_000),
    ];

    let visible = optimizer.frustum_cull(camera_pos, view_distance, objects);

    assert_eq!(visible.len(), 2);
    assert_eq!(optimizer.get_culled_count(), 2);
}

#[test]
fn gpu_optimizer_reduces_draw_calls() {
    let optimizer = GPUOptimizer::new();

    let reduced = optimizer.reduce_draw_calls(5000);
    assert_eq!(reduced, 3000);

    let small = optimizer.reduce_draw_calls(1000);
    assert_eq!(small, 1000);
}

#[test]
fn workload_analyzer_detects_cpu_bound() {
    let mut analyzer = WorkloadAnalyzer::new();

    let cpu_history = vec![10_000, 80_000, 15_000, 85_000, 20_000];
    let memory_history = vec![50_000, 52_000, 51_000, 53_000, 52_000];

    let workload = analyzer.analyze(&cpu_history, &memory_history);
    assert_eq!(workload, WorkloadType::CpuBound);
}

#[test]
fn workload_analyzer_detects_memory_intensive() {
    let mut analyzer = WorkloadAnalyzer::new();

    let cpu_history = vec![50_000, 52_000, 51_000, 53_000, 52_000];
    let memory_history = vec![30_000, 50_000, 70_000, 90_000, 85_000];

    let workload = analyzer.analyze(&cpu_history, &memory_history);
    assert_eq!(workload, WorkloadType::MemoryIntensive);
}

#[test]
fn workload_analyzer_detects_balanced() {
    let mut analyzer = WorkloadAnalyzer::new();

    let cpu_history = vec![50_000, 52_000, 51_000, 53_000, 52_000];
    let memory_history = vec![50_000, 52_000, 51_000, 53_000, 52_000];

    let workload = analyzer.analyze(&cpu_history, &memory_history);
    assert_eq!(workload, WorkloadType::Balanced);
}

#[test]
fn optimizer_selects_high_priority_for_high_cpu() {
    let cfg = basic::OptimizationConfig::default();
    let priority = basic::select_priority_for_load(90_000, 40_000, &cfg);
    assert_eq!(priority, ProcessPriority::High);
}

#[test]
fn optimizer_selects_realtime_for_critical_pressure() {
    let cfg = basic::OptimizationConfig::default();
    let priority = basic::select_priority_for_load(98_000, 92_000, &cfg);
    assert_eq!(priority, ProcessPriority::Realtime);
}

#[test]
fn optimizer_keeps_normal_priority_under_thresholds() {
    let cfg = basic::OptimizationConfig::default();
    let priority = basic::select_priority_for_load(40_000, 30_000, &cfg);
    assert_eq!(priority, ProcessPriority::Normal);
}
