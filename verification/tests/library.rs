use std::cell::Cell;

use opal_lib::basic;
use opal_lib::controller;
use opal_lib::profiler::{describe_bottleneck, pacing_delay};
use opal_lib::{
    apply_optimization, apply_ultra_optimization, calculate_advanced_optimization, chunk_ranges,
    opal_aggressive_optimize, opal_auto_optimize, opal_set_priority, FrameProfiler,
    GPUOptimizer, GarbageCollector, MemoryPool, OpalScheduler, OptimizationConfig,
    ProcessPriority, WorkloadAnalyzer, WorkloadType, select_priority_for_load,
};

fn always_applied(_: ProcessPriority, _: bool) -> bool {
    true
}

fn never_applied(_: ProcessPriority, _: bool) -> bool {
    false
}

#[test]
fn report_carries_priority_and_positive_code_when_applied() {
    let requested = Cell::new(None);
    let cfg = OptimizationConfig::default();
    let report = apply_optimization(90_000, 10_000, &cfg, |p, boost| {
        requested.set(Some((p, boost)));
        true
    });
    assert_eq!(requested.get(), Some((ProcessPriority::High, true)));
    assert_eq!(report.selected_priority, ProcessPriority::High);
    assert!(report.applied);
    assert_eq!(report.reason_code, 200);
    assert_eq!(report.cpu_load, 90_000);
    assert_eq!(report.memory_load, 10_000);
}

#[test]
fn report_code_is_negated_when_not_applied() {
    let cfg = OptimizationConfig::ultra_performance();
    let report = apply_optimization(99_000, 0, &cfg, never_applied);
    assert_eq!(report.selected_priority, ProcessPriority::Realtime);
    assert!(!report.applied);
    assert_eq!(report.reason_code, -300);
    let calm = apply_optimization(0, 0, &cfg, never_applied);
    assert_eq!(calm.reason_code, -100);
}

#[test]
fn thread_boost_switch_is_passed_to_the_applier() {
    let boosted = Cell::new(true);
    let mut cfg = OptimizationConfig::default();
    cfg.enable_thread_boost = false;
    let _ = apply_optimization(10_000, 10_000, &cfg, |_, boost| {
        boosted.set(boost);
        true
    });
    assert!(!boosted.get());
}

#[test]
fn set_priority_maps_modes_and_errors() {
    let requested = Cell::new(None);
    let status = opal_set_priority(2, |p, boost| {
        requested.set(Some((p, boost)));
        (true, None)
    });
    assert_eq!(status, 200);
    assert_eq!(requested.get(), Some((ProcessPriority::Realtime, true)));

    let status = opal_set_priority(7, |p, _| {
        requested.set(Some((p, true)));
        (true, None)
    });
    assert_eq!(status, 200);
    assert_eq!(requested.get(), Some((ProcessPriority::Normal, true)));

    assert_eq!(opal_set_priority(1, |_, _| (false, Some(5))), 403);
    assert_eq!(opal_set_priority(1, |_, _| (false, Some(87))), 400);
    assert_eq!(opal_set_priority(1, |_, _| (false, Some(2))), 500);
    assert_eq!(opal_set_priority(1, |_, _| (false, None)), 500);
}

#[test]
fn auto_optimize_reports_priority_class() {
    assert_eq!(opal_auto_optimize(90_000, |_, _| (true, None)), 200);
    assert_eq!(opal_auto_optimize(10_000, |_, _| (true, None)), 100);
    assert_eq!(opal_auto_optimize(90_000, |_, _| (false, Some(5))), 403);
}

#[test]
fn aggressive_optimize_uses_the_requested_preset() {
    assert_eq!(opal_aggressive_optimize(86_000, 81_000, true, |_, _| (true, None)), 300);
    assert_eq!(opal_aggressive_optimize(86_000, 81_000, false, |_, _| (true, None)), 200);
    assert_eq!(opal_aggressive_optimize(10_000, 10_000, false, |_, _| (true, None)), 100);
    assert_eq!(opal_aggressive_optimize(86_000, 81_000, true, |_, _| (false, Some(87))), 400);
}

#[test]
fn out_of_range_configuration_is_normalized() {
    let cfg = OptimizationConfig {
        cpu_high_threshold: -5_000,
        cpu_realtime_threshold: 250_000,
        memory_high_threshold: 60_000,
        memory_realtime_threshold: 10_000,
        enable_thread_boost: true,
        sample_interval_ms: 0,
        aggressive_mode: false,
        max_priority_level: 9,
    };
    // CPU high threshold becomes 0 %, so any non-negative load is elevated.
    assert_eq!(select_priority_for_load(0, 0, &cfg), ProcessPriority::High);
    // Memory realtime threshold is raised to the high threshold (60 %).
    assert_eq!(select_priority_for_load(0, 59_999, &cfg), ProcessPriority::High);
    assert_eq!(select_priority_for_load(0, 60_000, &cfg), ProcessPriority::Realtime);
    // CPU realtime threshold is limited to 100 %.
    assert_eq!(select_priority_for_load(100_000, 0, &cfg), ProcessPriority::Realtime);
    assert_eq!(select_priority_for_load(-1, 0, &cfg), ProcessPriority::Normal);
}

#[test]
fn presets_switch_at_their_thresholds() {
    let default_cfg = OptimizationConfig::default();
    assert_eq!(select_priority_for_load(82_000, 0, &default_cfg), ProcessPriority::High);
    assert_eq!(select_priority_for_load(81_999, 74_999, &default_cfg), ProcessPriority::Normal);
    let safe = OptimizationConfig::aggressive_safe();
    assert_eq!(select_priority_for_load(71_000, 0, &safe), ProcessPriority::High);
    assert_eq!(select_priority_for_load(70_999, 65_999, &safe), ProcessPriority::Normal);
    assert_eq!(select_priority_for_load(100_000, 100_000, &safe), ProcessPriority::High);
    let ultra = OptimizationConfig::ultra_performance();
    assert_eq!(select_priority_for_load(83_000, 0, &ultra), ProcessPriority::Realtime);
    assert_eq!(select_priority_for_load(0, 78_000, &ultra), ProcessPriority::Realtime);
    assert_eq!(select_priority_for_load(82_999, 77_999, &ultra), ProcessPriority::High);
    assert_eq!(select_priority_for_load(65_999, 60_999, &ultra), ProcessPriority::Normal);
}

#[test]
fn higher_load_never_lowers_priority() {
    let cfg = OptimizationConfig::ultra_performance();
    let mut last = 0;
    for load in (0..=100_000).step_by(500) {
        let level = select_priority_for_load(load, load / 2, &cfg) as i32;
        assert!(level >= last);
        last = level;
    }
}

#[test]
fn advanced_report_values() {
    let cfg = OptimizationConfig::aggressive_safe();
    let report = calculate_advanced_optimization(85_000, 70_000, 8, 600_000, &cfg, always_applied);
    assert_eq!(report.base_report.selected_priority, ProcessPriority::High);
    assert_eq!(report.base_report.reason_code, 200);
    assert_eq!(report.estimated_fps_gain, 20);
    // (0.32 + 0.6 * (1 - 155 / 200)) * 0.85 = 0.38675
    assert_eq!(report.safety_score, 386_750);
    assert_eq!(report.memory_pool_pressure, 600_000);

    let plain = OptimizationConfig::default();
    let calm = calculate_advanced_optimization(70_000, 0, 2, 1_500_000, &plain, never_applied);
    assert!(!calm.lod_culling_enabled);
    assert_eq!(calm.memory_pool_pressure, 1_000_000);
    assert_eq!(calm.estimated_fps_gain, 2);
    assert_eq!(calm.base_report.reason_code, -100);
    // 0.4 + 0.6 * (1 - 70 / 200) = 0.79
    assert_eq!(calm.safety_score, 790_000);

    let negative = calculate_advanced_optimization(0, 0, 0, -5, &plain, always_applied);
    assert_eq!(negative.memory_pool_pressure, 0);
    assert_eq!(negative.safety_score, 1_000_000);

    let ultra = OptimizationConfig::ultra_performance();
    let extreme = calculate_advanced_optimization(100_000, 100_000, 4, 0, &ultra, always_applied);
    assert_eq!(extreme.estimated_fps_gain, 30);
    // (0.24 + 0) * 0.85 = 0.204
    assert_eq!(extreme.safety_score, 204_000);
}

#[test]
fn memory_pool_recycles_chunks_in_order() {
    let mut pool = MemoryPool::new(4, 2);
    let mut first = pool.allocate().unwrap();
    first[0] = 7;
    pool.deallocate(first);
    let second = pool.allocate().unwrap();
    assert_eq!(second, vec![0, 0, 0, 0]);
    let recycled = pool.allocate().unwrap();
    assert_eq!(recycled, vec![7, 0, 0, 0]);
    assert!(pool.allocate().is_none());
}

#[test]
fn memory_pool_drops_chunks_when_full() {
    let mut pool = MemoryPool::new(8, 1);
    pool.deallocate(vec![1, 2, 3]);
    assert_eq!(pool.get_utilization(), Some(0));
    let chunk = pool.allocate().unwrap();
    assert_eq!(chunk.len(), 8);
    assert!(pool.allocate().is_none());
}

#[test]
fn memory_pool_defragment_refills_half() {
    let mut pool = MemoryPool::new(16, 6);
    for _ in 0..6 {
        let _ = pool.allocate();
    }
    assert_eq!(pool.get_utilization(), Some(1_000_000));
    pool.defragment();
    assert_eq!(pool.get_utilization(), Some(500_000));
    pool.defragment();
    assert_eq!(pool.get_utilization(), Some(500_000));
    assert_eq!(pool.allocate().unwrap().len(), 16);
}

#[test]
fn empty_memory_pool_has_no_utilization() {
    let pool = MemoryPool::new(16, 0);
    assert_eq!(pool.get_utilization(), None);
}

#[test]
fn garbage_collector_signals_periodically() {
    let mut gc = GarbageCollector::new(3);
    let signals: Vec<bool> = (0..7).map(|_| gc.should_collect()).collect();
    assert_eq!(signals, vec![false, false, true, false, false, true, false]);

    let mut every = GarbageCollector::new(0);
    assert!(every.should_collect());
    assert!(every.should_collect());
}

#[test]
fn workload_analyzer_keeps_observations_for_short_histories() {
    let mut analyzer = WorkloadAnalyzer::new();
    let spiky = vec![10_000, 90_000, 10_000, 90_000];
    let drifting = vec![10_000, 40_000];
    assert_eq!(analyzer.analyze(&spiky, &drifting), WorkloadType::IoBound);
    assert_eq!(analyzer.analyze(&[50_000], &[]), WorkloadType::IoBound);
    let steady = vec![50_000, 50_000, 50_000];
    assert_eq!(analyzer.analyze(&steady, &[]), WorkloadType::MemoryIntensive);
    assert_eq!(analyzer.analyze(&[], &steady), WorkloadType::Balanced);
}

#[test]
fn workload_thresholds_are_strict() {
    let mut analyzer = WorkloadAnalyzer::new();
    // Drift of exactly 20 % is not a trend.
    assert_eq!(analyzer.analyze(&[], &[30_000, 50_000]), WorkloadType::Balanced);
    assert_eq!(analyzer.analyze(&[], &[50_001, 30_000]), WorkloadType::MemoryIntensive);
    // Variance of exactly 15 square percent (samples 0 % and 7.745... %)
    // is approximated from both sides.
    let mut calm = WorkloadAnalyzer::new();
    assert_eq!(calm.analyze(&[0, 7_745], &[]), WorkloadType::Balanced);
    assert_eq!(calm.analyze(&[0, 7_746], &[]), WorkloadType::CpuBound);
}

#[test]
fn gpu_lod_boundaries() {
    let optimizer = GPUOptimizer::new();
    assert_eq!(optimizer.calculate_lod(-3), 0);
    assert_eq!(optimizer.calculate_lod(100_000), 0);
    assert_eq!(optimizer.calculate_lod(100_001), 1);
    assert_eq!(optimizer.calculate_lod(5_000_000), 4);
    assert_eq!(optimizer.calculate_lod(i64::MAX), 4);
}

#[test]
fn gpu_culling_keeps_order_and_edge() {
    let mut optimizer = GPUOptimizer::new();
    let objects = vec![(3_000, 4_000, 0), (6_000, 8_000, 0), (13, 0, 0), (0, 0, -5_001)];
    let visible = optimizer.frustum_cull((0, 0, 0), 5_000, objects);
    assert_eq!(visible, vec![(3_000, 4_000, 0), (13, 0, 0)]);
    assert_eq!(optimizer.get_culled_count(), 2);

    let none = optimizer.frustum_cull((0, 0, 0), -1, vec![(0, 0, 0)]);
    assert!(none.is_empty());
    assert_eq!(optimizer.get_culled_count(), 1);
}

#[test]
fn chunk_ranges_tile_the_range() {
    assert_eq!(chunk_ranges(0, 10, 3), vec![(0, 3), (3, 6), (6, 9), (9, 10)]);
    assert_eq!(chunk_ranges(5, 9, 4), vec![(5, 9)]);
    assert!(chunk_ranges(4, 4, 2).is_empty());
    assert!(chunk_ranges(9, 4, 2).is_empty());
}

#[test]
fn bottleneck_descriptions() {
    assert_eq!(describe_bottleneck(100, 40, 10, 10), "\u{2705} BALANCED (100ms)");
    assert_eq!(
        describe_bottleneck(100, 45, 30, 10),
        "\u{26a0}\u{fe0f} PHYSICS HEAVY (100ms) - 45%"
    );
    assert_eq!(
        describe_bottleneck(100, 30, 60, 0),
        "\u{26a0}\u{fe0f} RENDER HEAVY (100ms) - 60%"
    );
    assert_eq!(
        describe_bottleneck(10, 20, 5, 1),
        "\u{1f534} CRITICAL (10ms) - Physics:200% Render:50% GPU:10%"
    );
    assert_eq!(
        describe_bottleneck(0, 1, 0, 0),
        "\u{1f534} CRITICAL (0ms) - Physics:100% Render:0% GPU:0%"
    );
}

#[test]
fn fresh_profiler_assumes_a_sixteen_millisecond_frame() {
    let mut profiler = FrameProfiler::new();
    assert_eq!(profiler.get_bottleneck(), "\u{2705} BALANCED (16ms)");
    profiler.frame_start();
    let (average, frame) = profiler.frame_end();
    assert_eq!(average, Some(frame));
    profiler.start_physics();
    profiler.end_render();
    assert!(profiler.get_bottleneck().contains("ms)"));
}

#[test]
fn profiler_keeps_at_most_120_frames() {
    let mut profiler = FrameProfiler::new();
    for _ in 0..130 {
        profiler.frame_start();
        let (average, _) = profiler.frame_end();
        assert!(average.is_some());
    }
}

#[test]
fn basic_optimizer_keeps_positive_codes() {
    let cfg = basic::OptimizationConfig::default();
    let report = basic::apply_optimization(99_000, 0, &cfg, never_applied);
    assert_eq!(report.selected_priority, ProcessPriority::Realtime);
    assert_eq!(report.reason_code, 300);
    assert_eq!(basic::opal_set_priority(1, |_, _| false), 500);
    assert_eq!(basic::opal_set_priority(1, |_, _| true), 200);
    assert_eq!(basic::opal_auto_optimize(10_000, |_, _| true), 100);
    assert_eq!(basic::opal_auto_optimize(95_000, |_, _| true), 200);
    let mut limited = basic::OptimizationConfig::default();
    limited.max_priority_level = 1;
    assert_eq!(basic::select_priority_for_load(99_000, 0, &limited), ProcessPriority::High);
}

#[test]
fn controller_smooths_and_respects_cooldown() {
    let cfg = controller::OptimizationConfig::default();
    let mut c = controller::OptimizerController::new(cfg);

    // The first sample is taken as it is.
    let first = c.update(96_000, 10_000, 1_000, always_applied);
    assert_eq!(first.cpu_load, 96_000);
    assert_eq!(first.selected_priority, ProcessPriority::Realtime);
    assert!(first.applied);
    assert_eq!(first.reason_code, 300);

    // 0.35 * 0 + 0.65 * 96 = 62.4 %: Normal, but the cool-down holds it.
    let calls = Cell::new(0);
    let second = c.update(0, 10_000, 1_500, |_, _| {
        calls.set(calls.get() + 1);
        true
    });
    assert_eq!(second.cpu_load, 62_400);
    assert_eq!(second.selected_priority, ProcessPriority::Normal);
    assert!(!second.applied);
    assert_eq!(calls.get(), 0);

    // After the cool-down the change goes through.
    let third = c.update(0, 10_000, 2_600, always_applied);
    assert_eq!(third.cpu_load, 40_560);
    assert!(third.applied);

    // The same priority again is not re-applied.
    let fourth = c.update(0, 10_000, 9_000, |_, _| {
        calls.set(calls.get() + 1);
        true
    });
    assert_eq!(fourth.selected_priority, ProcessPriority::Normal);
    assert!(!fourth.applied);
    assert_eq!(calls.get(), 0);
}

#[test]
fn controller_failed_change_is_retried() {
    let cfg = controller::OptimizationConfig::default();
    let mut c = controller::OptimizerController::new(cfg);
    let failed = c.update(90_000, 0, 10, never_applied);
    assert_eq!(failed.selected_priority, ProcessPriority::High);
    assert!(!failed.applied);
    let retried = c.update(90_000, 0, 20, always_applied);
    assert!(retried.applied);
}

#[test]
fn controller_single_step_functions() {
    let cfg = controller::OptimizationConfig::default();
    let report = controller::apply_optimization(95_000, 0, &cfg, never_applied);
    assert_eq!(report.selected_priority, ProcessPriority::Realtime);
    assert_eq!(report.reason_code, 300);
    assert_eq!(controller::opal_auto_optimize(85_000, |_, _| true), 200);
    assert_eq!(controller::opal_auto_optimize(84_999, |_, _| true), 100);
    assert_eq!(controller::opal_auto_optimize(85_000, |_, _| false), 500);
    assert_eq!(controller::opal_set_priority(2, |p, _| p == ProcessPriority::Realtime), 200);
}

#[test]
fn scheduler_uses_its_configuration() {
    let scheduler = OpalScheduler::new();
    assert!(scheduler.active);
    let report = scheduler.optimize(90_000, 0, always_applied);
    assert_eq!(report.selected_priority, ProcessPriority::High);

    let ultra = apply_ultra_optimization(90_000, 0, Some(OptimizationConfig::ultra_performance()), always_applied);
    assert_eq!(ultra.selected_priority, ProcessPriority::Realtime);
    let fallback = apply_ultra_optimization(90_000, 0, None, never_applied);
    assert_eq!(fallback.selected_priority, ProcessPriority::High);
    assert_eq!(fallback.reason_code, -200);
}

#[test]
fn gpu_stats_report_the_culled_count() {
    let mut optimizer = GPUOptimizer::new();
    assert_eq!(optimizer.get_stats(), "Culled: 0 objects");
    let _ = optimizer.frustum_cull((0, 0, 0), 10, vec![(100, 0, 0); 12]);
    assert_eq!(optimizer.get_stats(), "Culled: 12 objects");
}

#[test]
fn safety_score_never_exceeds_one() {
    let plain = OptimizationConfig::default();
    let report = calculate_advanced_optimization(-100_000, -100_000, 1, 0, &plain, always_applied);
    assert_eq!(report.safety_score, 1_000_000);
    let aggressive = OptimizationConfig::aggressive_safe();
    let report = calculate_advanced_optimization(-100_000, -100_000, 1, 0, &aggressive, always_applied);
    assert_eq!(report.safety_score, 1_000_000);
}

#[test]
fn bottleneck_follows_recorded_part_times() {
    let mut profiler = FrameProfiler::new();
    assert_eq!(profiler.physics_time(), 0);
    assert_eq!(profiler.render_time(), 0);
    assert_eq!(profiler.gpu_time(), 0);
    profiler.set_physics_time(8_000_000);
    assert_eq!(profiler.get_bottleneck(), "\u{26a0}\u{fe0f} PHYSICS HEAVY (16ms) - 50%");
    profiler.set_render_time(12_000_000);
    assert_eq!(profiler.get_bottleneck(), "\u{1f534} CRITICAL (16ms) - Physics:50% Render:75% GPU:0%");
    profiler.set_gpu_time(1_999_999);
    assert_eq!(profiler.gpu_time(), 1_999_999);
    profiler.set_physics_time(0);
    profiler.set_render_time(0);
    assert_eq!(profiler.get_bottleneck(), "\u{2705} BALANCED (16ms)");
}

#[test]
fn frame_end_averages_the_recorded_frames() {
    let mut profiler = FrameProfiler::new();
    let mut recorded: Vec<u128> = Vec::new();
    for _ in 0..5 {
        profiler.frame_start();
        let (average, frame) = profiler.frame_end();
        recorded.push(frame);
        let sum: u128 = recorded.iter().sum();
        assert_eq!(average, Some(sum / recorded.len() as u128));
    }
}

#[test]
fn pacing_fills_the_frame_budget() {
    assert_eq!(pacing_delay(10_000_000, 16_000_000), 6_000_000);
    assert_eq!(pacing_delay(16_000_000, 16_000_000), 0);
    assert_eq!(pacing_delay(20_000_000, 16_000_000), 0);
}
