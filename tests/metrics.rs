use pang_streaming::latency::{LatencyMeasurement, LatencyMonitor};
use pang_streaming::metrics::{LatencyTrend, MetricsCalculator, MetricsCollector, OptimizationSuggestion};

fn m(ts: i64, latency: u32) -> LatencyMeasurement {
    LatencyMeasurement { timestamp_ms: ts, latency_ms: latency, segment_sequence: 0, part_sequence: None }
}

#[test]
fn running_means_follow_the_formula() {
    assert_eq!(MetricsCalculator::calculate_average_segment_duration(0, 0, 1500), 1500);
    assert_eq!(MetricsCalculator::calculate_average_segment_duration(1000, 1, 1000), 1000);
    assert_eq!(MetricsCalculator::calculate_average_segment_duration(1000, 2, 2000), 1500);
    assert_eq!(MetricsCalculator::calculate_average_part_duration(500, 3, 200), 400);
    assert_eq!(MetricsCalculator::calculate_average_segment_duration(u64::MAX, 3, u64::MAX), u64::MAX);
}

#[test]
fn bitrate_is_bits_per_elapsed_second() {
    assert_eq!(MetricsCalculator::calculate_current_bitrate(125_000, 0, Some(1000)), 1_000_000);
    assert_eq!(MetricsCalculator::calculate_current_bitrate(125_000, 0, Some(2000)), 500_000);
    assert_eq!(MetricsCalculator::calculate_current_bitrate(125_000, 1000, Some(1000)), 0);
    assert_eq!(MetricsCalculator::calculate_current_bitrate(125_000, 0, None), 0);
    assert_eq!(MetricsCalculator::calculate_current_bitrate(u64::MAX, 0, Some(1)), u32::MAX);
}

#[test]
fn server_latency_mean_weights_active_streams() {
    assert_eq!(MetricsCalculator::calculate_server_average_latency(0, 0, 300), 300);
    assert_eq!(MetricsCalculator::calculate_server_average_latency(100, 1, 300), 200);
    assert_eq!(MetricsCalculator::calculate_server_average_latency(100, 3, 500), 200);
}

#[test]
fn latency_trend_classification() {
    let constant: Vec<_> = (0..10).map(|i| m(i, 1000)).collect();
    assert_eq!(MetricsCalculator::analyze_latency_trend(&constant), LatencyTrend::Stable);
    let rising: Vec<_> = (0..10).map(|i| m(i, if i < 5 { 1000 } else { 1200 })).collect();
    assert_eq!(MetricsCalculator::analyze_latency_trend(&rising), LatencyTrend::Increasing);
    let falling: Vec<_> = (0..10).map(|i| m(i, if i < 5 { 1000 } else { 800 })).collect();
    assert_eq!(MetricsCalculator::analyze_latency_trend(&falling), LatencyTrend::Decreasing);
    let slight: Vec<_> = (0..10).map(|i| m(i, if i < 5 { 1000 } else { 1100 })).collect();
    assert_eq!(MetricsCalculator::analyze_latency_trend(&slight), LatencyTrend::Stable);
    let short: Vec<_> = (0..9).map(|i| m(i, i as u32 * 1000)).collect();
    assert_eq!(MetricsCalculator::analyze_latency_trend(&short), LatencyTrend::Stable);
    let from_zero: Vec<_> = (0..10).map(|i| m(i, if i < 5 { 0 } else { 500 })).collect();
    assert_eq!(MetricsCalculator::analyze_latency_trend(&from_zero), LatencyTrend::Stable);
}

#[test]
fn hints_grow_with_latency() {
    assert!(MetricsCalculator::generate_optimization_suggestions(1000, 1000, LatencyTrend::Stable).is_empty());
    assert_eq!(
        MetricsCalculator::generate_optimization_suggestions(1600, 1000, LatencyTrend::Stable),
        vec![OptimizationSuggestion::ReduceSegmentDuration]
    );
    assert_eq!(
        MetricsCalculator::generate_optimization_suggestions(2500, 1000, LatencyTrend::Increasing),
        vec![OptimizationSuggestion::ReduceSegmentDuration, OptimizationSuggestion::ReducePartDuration, OptimizationSuggestion::CheckNetworkConditions]
    );
    assert_eq!(
        MetricsCalculator::generate_optimization_suggestions(3001, 1000, LatencyTrend::Decreasing),
        vec![OptimizationSuggestion::ReduceSegmentDuration, OptimizationSuggestion::ReducePartDuration, OptimizationSuggestion::EnableServerPush, OptimizationSuggestion::LatencyImproving]
    );
    assert_eq!(
        MetricsCalculator::generate_optimization_suggestions(1500, 1000, LatencyTrend::Stable),
        Vec::<OptimizationSuggestion>::new()
    );
}

#[test]
fn recent_filter_and_average() {
    let all = vec![m(1000, 100), m(5000, 200), m(9000, 400)];
    let recent = MetricsCalculator::filter_recent_measurements(&all, 5, 10_000);
    assert_eq!(recent.len(), 1);
    assert_eq!(recent[0].latency_ms, 400);
    let recent = MetricsCalculator::filter_recent_measurements(&all, 9, 10_000);
    assert_eq!(recent.len(), 2);
    assert_eq!(MetricsCalculator::calculate_average_latency(&recent), Some(300));
    assert_eq!(MetricsCalculator::calculate_average_latency(&[]), None);
}

#[test]
fn metrics_export_values_for_two_streams() {
    let mut c = MetricsCollector::new(0);
    c.create_stream_metrics("a/1".to_string(), 0);
    c.create_stream_metrics("b/2".to_string(), 0);
    c.record_segment("a/1", 1000, 100_000, 1000);
    c.record_segment("b/2", 2000, 200_000, 2000);
    let server = c.get_server_metrics(5000);
    assert_eq!(server.active_streams, 2);
    assert_eq!(server.total_connections, 2);
    assert_eq!(server.uptime_seconds, 5);
    let a = c.get_stream_metrics("a/1").unwrap();
    let b = c.get_stream_metrics("b/2").unwrap();
    assert_eq!(a.average_segment_duration_ms, 1000);
    assert_eq!(b.average_segment_duration_ms, 2000);
    assert_eq!(a.total_bytes, 100_000);
    assert_eq!(b.total_bytes, 200_000);
    assert_eq!(a.current_bitrate, 800_000);
    c.record_segment("b/2", 2000, 50_000, 3000);
    let b2 = c.get_stream_metrics("b/2").unwrap();
    assert!(b2.total_bytes >= b.total_bytes);
    assert_eq!(b2.total_segments, 2);
    assert_eq!(c.get_all_stream_metrics().len(), 2);
    c.remove_stream_metrics("a/1");
    assert_eq!(c.get_server_metrics(5000).active_streams, 1);
    assert_eq!(c.get_server_metrics(5000).total_connections, 2);
    c.remove_stream_metrics("a/1");
    assert_eq!(c.get_server_metrics(5000).active_streams, 1);
    assert!(c.get_stream_metrics("a/1").is_none());
}

#[test]
fn collector_counts_parts_drops_and_latency() {
    let mut c = MetricsCollector::new(0);
    c.create_stream_metrics("s".to_string(), 0);
    c.record_part("s", 400);
    c.record_part("s", 600);
    c.record_dropped_segment("s");
    c.record_latency("s", 900);
    let s = c.get_stream_metrics("s").unwrap();
    assert_eq!((s.total_parts, s.average_part_duration_ms, s.dropped_segments, s.latency_ms), (2, 500, 1, 900));
    assert_eq!(c.get_server_metrics(0).average_latency_ms, 450);
    c.record_segment("unknown", 1, 1, 1);
    assert_eq!(c.get_server_metrics(0).active_streams, 1);
}

#[test]
fn latency_window_keeps_last_hundred() {
    let mut mon = LatencyMonitor::new(1000);
    for i in 0..150i64 {
        mon.record_part_latency("s", 0, i as u64, i as u32, i * 1000);
    }
    let w = mon.measurements.get("s").unwrap();
    assert_eq!(w.len(), 100);
    assert_eq!(w[0].latency_ms, 50);
    assert_eq!(mon.get_average_latency("s", 10, 149_000), Some(144));
    assert!(mon.is_latency_acceptable("s", 149_000));
    assert!(mon.is_latency_acceptable("none", 0));
    assert_eq!(mon.get_latency_trend("s"), LatencyTrend::Stable);
    mon.remove_stream_measurements("s");
    assert_eq!(mon.get_average_latency("s", 10, 149_000), None);
}

#[test]
fn monitor_reports_slow_streams() {
    let mut mon = LatencyMonitor::new(1000);
    let mut c = MetricsCollector::new(0);
    c.create_stream_metrics("s".to_string(), 0);
    for i in 0..10i64 {
        let latency = if i < 5 { 3000 } else { 4000 };
        mon.record_segment_latency(&mut c, "s", i as u64, latency, 100_000 + i);
    }
    assert!(!mon.is_latency_acceptable("s", 100_010));
    assert_eq!(mon.get_latency_trend("s"), LatencyTrend::Increasing);
    assert_eq!(
        mon.get_optimization_suggestions("s", 100_010),
        vec![
            OptimizationSuggestion::ReduceSegmentDuration,
            OptimizationSuggestion::ReducePartDuration,
            OptimizationSuggestion::EnableServerPush,
            OptimizationSuggestion::CheckNetworkConditions
        ]
    );
    assert_eq!(c.get_stream_metrics("s").unwrap().latency_ms, 4000);
    assert!(mon.get_optimization_suggestions("s", 1_000_000).is_empty());
}

#[test]
fn suggestion_messages_are_distinct() {
    let all = [
        OptimizationSuggestion::ReduceSegmentDuration,
        OptimizationSuggestion::ReducePartDuration,
        OptimizationSuggestion::EnableServerPush,
        OptimizationSuggestion::CheckNetworkConditions,
        OptimizationSuggestion::LatencyImproving,
    ];
    let texts: Vec<String> = all.iter().map(|s| s.message()).collect();
    for i in 0..texts.len() {
        for j in i + 1..texts.len() {
            assert_ne!(texts[i], texts[j]);
        }
    }
}
