//! Ticks, windows, histograms and the registry that holds them.

use tibia_bot::instrumentation::histogram::{
    bucket_bounds_us, bucket_idx, LatencyHistogram, Percentiles,
};
use tibia_bot::instrumentation::recorder::MetricsRecorder;
use tibia_bot::instrumentation::registry::{MetricsRegistry, SlotReading, SlotStage};
use tibia_bot::instrumentation::tick::{ActionKindTag, ReaderId, TickFlags, TickMetrics};
use tibia_bot::instrumentation::window::CircularU32;

#[test]
fn flags_insert_contains() {
    let mut f = TickFlags::none();
    assert!(!f.contains(TickFlags::tick_overrun()));
    f.insert(TickFlags::tick_overrun());
    assert!(f.contains(TickFlags::tick_overrun()));
    assert!(!f.contains(TickFlags::frame_stale()));
}

#[test]
fn flags_combine_via_bitor() {
    let f = TickFlags::tick_overrun() | TickFlags::vision_slow();
    assert!(f.contains(TickFlags::tick_overrun()));
    assert!(f.contains(TickFlags::vision_slow()));
    assert!(!f.contains(TickFlags::frame_stale()));
}

#[test]
fn flags_remove_works() {
    let mut f = TickFlags::tick_overrun() | TickFlags::frame_stale();
    f.remove(TickFlags::tick_overrun());
    assert!(!f.contains(TickFlags::tick_overrun()));
    assert!(f.contains(TickFlags::frame_stale()));
}

#[test]
fn flags_labels_lists_active() {
    let f = TickFlags::tick_overrun() | TickFlags::anchor_lost();
    let labels = f.labels();
    assert!(labels.contains(&"tick_overrun"));
    assert!(labels.contains(&"anchor_lost"));
    assert_eq!(labels.len(), 2);
}

#[test]
fn empty_flags_no_labels() {
    assert!(TickFlags::none().labels().is_empty());
}

#[test]
fn every_flag_has_one_bit_and_one_label() {
    let all = [
        (TickFlags::tick_overrun(), 1, "tick_overrun"),
        (TickFlags::frame_stale(), 2, "frame_stale"),
        (TickFlags::anchor_drift_warn(), 4, "anchor_drift_warn"),
        (TickFlags::anchor_lost(), 8, "anchor_lost"),
        (TickFlags::vision_slow(), 16, "vision_slow"),
        (TickFlags::action_failed(), 32, "action_failed"),
        (TickFlags::bridge_rtt_high(), 64, "bridge_rtt_high"),
        (TickFlags::frame_seq_gap(), 128, "frame_seq_gap"),
        (TickFlags::health_degraded(), 256, "health_degraded"),
        (TickFlags::safety_paused(), 512, "safety_paused"),
        (TickFlags::recorder_active(), 1024, "recorder_active"),
    ];
    let mut sum = TickFlags::none();
    for (flag, bit, label) in all {
        assert_eq!(flag.0, bit);
        assert_eq!(flag.labels(), vec![label]);
        assert!(!sum.contains(flag));
        sum = sum | flag;
    }
    assert_eq!(sum.labels().len(), 11);
}

#[test]
fn reader_id_all_complete_and_unique() {
    let all = ReaderId::all();
    assert_eq!(all.len(), ReaderId::COUNT);
    for (i, r) in all.iter().enumerate() {
        assert_eq!(*r as usize, i);
    }
}

#[test]
fn tick_metrics_default_is_zero() {
    let m = TickMetrics::default();
    assert_eq!(m.tick, 0);
    assert_eq!(m.tick_total_us, 0);
    assert!(m.flags.is_empty());
    assert_eq!(m.last_action_kind, ActionKindTag::Nothing);
}

#[test]
fn tick_metrics_e2e_calculations() {
    let m = TickMetrics {
        frame_age_us: 80_000,
        tick_total_us: 20_000,
        last_action_rtt_us: 15_000,
        ..Default::default()
    };
    assert_eq!(m.e2e_capture_to_emit_us(), 100_000);
    assert_eq!(m.e2e_capture_to_ack_us(), 115_000);
}

#[test]
fn tick_metrics_e2e_saturates_on_overflow() {
    let m = TickMetrics { frame_age_us: u32::MAX, tick_total_us: 1000, ..Default::default() };
    assert_eq!(m.e2e_capture_to_emit_us(), u32::MAX);
}

#[test]
fn dominant_reader_picks_max() {
    let mut m = TickMetrics::default();
    m.vision_per_reader_us[ReaderId::HpMana as usize] = 100;
    m.vision_per_reader_us[ReaderId::Battle as usize] = 5000;
    m.vision_per_reader_us[ReaderId::Inventory as usize] = 2000;
    let (id, us) = m.dominant_reader().unwrap();
    assert_eq!(id, ReaderId::Battle);
    assert_eq!(us, 5000);
}

#[test]
fn dominant_reader_none_when_all_zero() {
    let m = TickMetrics::default();
    assert!(m.dominant_reader().is_none());
}

#[test]
fn action_kinds_have_labels() {
    assert_eq!(ActionKindTag::Nothing.label(), "none");
    assert_eq!(ActionKindTag::Heal.label(), "heal");
    assert_eq!(ActionKindTag::NodeWalk.label(), "node_walk");
    assert_eq!(ActionKindTag::NodeWalk.index(), 6);
}

#[test]
fn empty_window_zero_stats() {
    let w = CircularU32::<10>::new();
    assert_eq!(w.len(), 0);
    assert_eq!(w.mean(), 0);
    assert_eq!(w.stddev(), 0);
    assert_eq!(w.min(), 0);
    assert_eq!(w.max(), 0);
}

#[test]
fn single_sample_stats() {
    let mut w = CircularU32::<10>::new();
    w.push(42);
    assert_eq!(w.len(), 1);
    assert_eq!(w.mean(), 42);
    assert_eq!(w.stddev(), 0);
    assert_eq!(w.min(), 42);
    assert_eq!(w.max(), 42);
}

#[test]
fn fills_to_capacity_and_wraps() {
    let mut w = CircularU32::<3>::new();
    w.push(10);
    w.push(20);
    w.push(30);
    assert_eq!(w.len(), 3);
    assert_eq!(w.mean(), 20);
    w.push(40);
    assert_eq!(w.len(), 3);
    let sum: u32 = w.iter().iter().sum();
    assert_eq!(sum, 90);
}

#[test]
fn stddev_constant_is_zero() {
    let mut w = CircularU32::<10>::new();
    for _ in 0..10 {
        w.push(100);
    }
    assert_eq!(w.stddev(), 0);
}

#[test]
fn stddev_varying_nonzero() {
    let mut w = CircularU32::<5>::new();
    for v in [10, 20, 30, 40, 50].iter() {
        w.push(*v);
    }
    assert_eq!(w.mean(), 30);
    let s = w.stddev();
    assert!(s == 14 || s == 15, "stddev got {}", s);
    assert_eq!(s, 14);
}

#[test]
fn min_max_track_correctly() {
    let mut w = CircularU32::<5>::new();
    for v in [50, 10, 30, 90, 20].iter() {
        w.push(*v);
    }
    assert_eq!(w.min(), 10);
    assert_eq!(w.max(), 90);
}

#[test]
fn clear_resets_state() {
    let mut w = CircularU32::<5>::new();
    for _ in 0..5 {
        w.push(100);
    }
    w.clear();
    assert_eq!(w.len(), 0);
    assert_eq!(w.mean(), 0);
}

#[test]
fn const_generic_capacity_30() {
    let w: CircularU32<30> = CircularU32::new();
    assert_eq!(w.capacity(), 30);
}

#[test]
fn a_window_forgets_its_oldest_extremes() {
    let mut w = CircularU32::<2>::new();
    w.push(u32::MAX);
    w.push(7);
    assert_eq!(w.max(), u32::MAX);
    w.push(9);
    assert_eq!(w.max(), 9);
    assert_eq!(w.min(), 7);
    assert_eq!(w.mean(), 8);
    assert_eq!(w.stddev(), 1);
}

#[test]
fn bucket_idx_known_values() {
    assert_eq!(bucket_idx(0), 0);
    assert_eq!(bucket_idx(100), 0);
    assert_eq!(bucket_idx(499), 0);
    assert_eq!(bucket_idx(500), 1);
    assert_eq!(bucket_idx(999), 1);
    assert_eq!(bucket_idx(1000), 2);
    assert_eq!(bucket_idx(1999), 2);
    assert_eq!(bucket_idx(2000), 3);
    assert_eq!(bucket_idx(4000), 4);
    assert_eq!(bucket_idx(8000), 5);
    assert_eq!(bucket_idx(16_000), 6);
    assert_eq!(bucket_idx(32_000), 7);
    assert_eq!(bucket_idx(u32::MAX), 15);
}

#[test]
fn bucket_bounds_consistent() {
    for i in 1..15 {
        let (lo, hi) = bucket_bounds_us(i);
        assert!(lo < hi, "bucket {} bounds: [{}, {})", i, lo, hi);
        assert_eq!(bucket_idx(lo), i);
        assert_eq!(bucket_idx(hi - 1), i);
    }
    let (lo, hi) = bucket_bounds_us(15);
    assert_eq!(hi, u32::MAX);
    assert_eq!(bucket_idx(lo), 15);
    assert_eq!(lo, 8_192_000);
}

#[test]
fn empty_histogram_zero_percentiles() {
    let h = LatencyHistogram::new();
    assert_eq!(h.count(), 0);
    assert_eq!(h.mean_us(), 0);
    assert_eq!(h.percentile(500_000), 0);
    assert_eq!(h.percentile(950_000), 0);
}

#[test]
fn single_sample_percentiles() {
    let mut h = LatencyHistogram::new();
    h.record_us(1500);
    assert_eq!(h.count(), 1);
    assert_eq!(h.mean_us(), 1500);
    assert_eq!(h.max_us(), 1500);
    let p50 = h.percentile(500_000);
    assert!(p50 >= 1000 && p50 < 2000, "p50={}", p50);
}

#[test]
fn many_samples_in_one_bucket_concentrated_percentile() {
    let mut h = LatencyHistogram::new();
    for _ in 0..1000 {
        h.record_us(700);
    }
    assert_eq!(h.count(), 1000);
    assert_eq!(h.mean_us(), 700);
    let p95 = h.percentile(950_000);
    assert!(p95 >= 500 && p95 < 1000, "p95={}", p95);
}

#[test]
fn bimodal_distribution_percentile_separates() {
    let mut h = LatencyHistogram::new();
    for _ in 0..900 {
        h.record_us(700);
    }
    for _ in 0..100 {
        h.record_us(16_000);
    }
    let p50 = h.percentile(500_000);
    assert!(p50 < 1000, "p50 {}", p50);
    let p95 = h.percentile(950_000);
    assert!(p95 >= 16_000, "p95 {}", p95);
}

#[test]
fn max_tracking_updates_correctly() {
    let mut h = LatencyHistogram::new();
    h.record_us(100);
    assert_eq!(h.max_us(), 100);
    h.record_us(50);
    assert_eq!(h.max_us(), 100);
    h.record_us(5000);
    assert_eq!(h.max_us(), 5000);
}

#[test]
fn snapshot_consistent_with_individual_accessors() {
    let mut h = LatencyHistogram::new();
    for v in [100u32, 200, 800, 1500, 3000, 8000].iter() {
        h.record_us(*v);
    }
    let snap = h.snapshot();
    assert_eq!(snap.count, 6);
    assert_eq!(snap.max_us, 8000);
    assert_eq!(snap.mean_us, h.mean_us());
    assert_eq!(snap.p50, h.percentile(500_000));
    assert_eq!(snap.p95, h.percentile(950_000));
    assert_eq!(snap.sum_us, 13_600);
    assert_eq!(snap.buckets[0], 2);
    assert_eq!(snap.buckets[5], 1);
}

#[test]
fn percentiles_struct_from_histogram() {
    let mut h = LatencyHistogram::new();
    h.record_us(1000);
    h.record_us(2000);
    let p = Percentiles::from(&h);
    assert_eq!(p.max, 2000);
    assert_eq!(p.mean, 1500);
}

#[test]
fn percentile_clamps_out_of_range_input() {
    let mut h = LatencyHistogram::new();
    h.record_us(1000);
    assert_eq!(h.percentile(-500_000), h.percentile(0));
    assert_eq!(h.percentile(1_500_000), h.percentile(1_000_000));
}

#[test]
fn overflow_samples_land_in_top_bucket() {
    let mut h = LatencyHistogram::new();
    h.record_us(u32::MAX);
    let snap = h.snapshot();
    assert_eq!(snap.buckets[15], 1);
    assert_eq!(snap.max_us, u32::MAX);
}

fn dummy_tick(tick: u64) -> TickMetrics {
    TickMetrics {
        tick,
        frame_seq: tick,
        frame_age_us: 80_000,
        vision_total_us: 10_000,
        filter_us: 300,
        fsm_us: 200,
        dispatch_us: 100,
        tick_total_us: 15_000,
        last_action_kind: ActionKindTag::Nothing,
        ..Default::default()
    }
}

#[test]
fn record_tick_updates_histograms() {
    let mut r = MetricsRegistry::new();
    r.record_tick(dummy_tick(1));
    assert_eq!(r.tick_total.count(), 1);
    assert_eq!(r.frame_age.count(), 1);
    assert_eq!(r.ticks_total, 1);
}

#[test]
fn record_tick_publishes_snapshot() {
    let mut r = MetricsRegistry::new();
    r.record_tick(dummy_tick(42));
    let snap = r.last_tick_snapshot();
    assert_eq!(snap.tick, 42);
}

#[test]
fn frame_seq_gap_detected() {
    let mut r = MetricsRegistry::new();
    r.record_tick(TickMetrics { frame_seq: 1, ..Default::default() });
    r.record_tick(TickMetrics { frame_seq: 2, ..Default::default() });
    assert_eq!(r.frame_seq_gaps, 0);
    r.record_tick(TickMetrics { frame_seq: 5, ..Default::default() });
    assert_eq!(r.frame_seq_gaps, 1);
}

#[test]
fn frame_seq_zero_does_not_count_gap() {
    let mut r = MetricsRegistry::new();
    r.record_tick(TickMetrics { frame_seq: 0, ..Default::default() });
    r.record_tick(TickMetrics { frame_seq: 0, ..Default::default() });
    assert_eq!(r.frame_seq_gaps, 0);
}

#[test]
fn tick_overrun_flag_increments_counter() {
    let mut r = MetricsRegistry::new();
    let mut m = dummy_tick(1);
    m.flags = TickFlags::tick_overrun();
    r.record_tick(m);
    assert_eq!(r.ticks_overrun, 1);
}

#[test]
fn action_emitted_counter_per_kind() {
    let mut r = MetricsRegistry::new();
    let mut m = dummy_tick(1);
    m.last_action_kind = ActionKindTag::Heal;
    r.record_tick(m);
    m.last_action_kind = ActionKindTag::Click;
    m.tick = 2;
    r.record_tick(m);
    assert_eq!(r.actions_emitted[ActionKindTag::Heal as usize], 1);
    assert_eq!(r.actions_emitted[ActionKindTag::Click as usize], 1);
    assert_eq!(r.actions_emitted[ActionKindTag::Attack as usize], 0);
}

#[test]
fn action_ack_updates_rtt_histogram_and_counter() {
    let mut r = MetricsRegistry::new();
    r.record_action_ack(ActionKindTag::Heal, 8000, true);
    assert_eq!(r.actions_acked[ActionKindTag::Heal as usize], 1);
    assert_eq!(r.action_rtt.count(), 1);
    assert_eq!(r.action_rtt.mean_us(), 8000);
}

#[test]
fn action_ack_failure_does_not_record_rtt() {
    let mut r = MetricsRegistry::new();
    r.record_action_ack(ActionKindTag::Heal, 50_000, false);
    assert_eq!(r.actions_failed[ActionKindTag::Heal as usize], 1);
    assert_eq!(r.actions_acked[ActionKindTag::Heal as usize], 0);
    assert_eq!(r.action_rtt.count(), 0);
}

#[test]
fn action_success_rate_computes_correctly() {
    let mut r = MetricsRegistry::new();
    for _ in 0..4 {
        let mut m = dummy_tick(1);
        m.last_action_kind = ActionKindTag::Heal;
        r.record_tick(m);
    }
    r.record_action_ack(ActionKindTag::Heal, 1000, true);
    r.record_action_ack(ActionKindTag::Heal, 1100, true);
    r.record_action_ack(ActionKindTag::Heal, 1200, true);
    r.record_action_ack(ActionKindTag::Heal, 50_000, false);
    let rate = r.action_success_rate(ActionKindTag::Heal).unwrap();
    assert_eq!(rate, 750_000);
}

#[test]
fn action_success_rate_none_when_no_emit() {
    let r = MetricsRegistry::new();
    assert!(r.action_success_rate(ActionKindTag::Heal).is_none());
}

#[test]
fn windows_snapshot_reflects_pushes() {
    let mut r = MetricsRegistry::new();
    for i in 0..30 {
        let mut m = dummy_tick(i);
        m.tick_total_us = 15_000 + (i as u32 * 100);
        r.record_tick(m);
    }
    let snap = r.windows_snapshot();
    assert_eq!(snap.samples_short, 30);
    assert!(snap.tick_mean_us_short > 15_000);
    assert!(snap.tick_mean_us_short < 17_000);
    assert_eq!(snap.tick_mean_us_short, 16_450);
    assert!(snap.jitter_us > 0);
}

#[test]
fn measured_fps_reasonable_for_steady_state() {
    let mut r = MetricsRegistry::new();
    for _ in 0..30 {
        let mut m = dummy_tick(0);
        m.tick_total_us = 33_000;
        r.record_tick(m);
    }
    let fps = r.measured_fps();
    assert!(fps > 29_000 && fps < 31_000, "fps={}", fps);
    assert_eq!(fps, 30_303);
}

#[test]
fn measured_fps_zero_when_no_samples() {
    let r = MetricsRegistry::new();
    assert_eq!(r.measured_fps(), 0);
}

fn empty_slot() -> SlotReading {
    SlotReading { stage: SlotStage::Empty, item: None, confidence: 1_000_000, stable_item: None }
}

fn matched_slot(item: &str, confidence: u32) -> SlotReading {
    SlotReading {
        stage: SlotStage::FullSweep,
        item: Some(item.to_string()),
        confidence,
        stable_item: None,
    }
}

#[test]
fn ingest_inventory_slots_increments_counters_by_stage() {
    let mut r = MetricsRegistry::new();
    let slots = vec![
        empty_slot(),
        empty_slot(),
        matched_slot("mana_potion", 920_000),
        SlotReading {
            stage: SlotStage::FullSweep,
            item: None,
            confidence: 0,
            stable_item: None,
        },
    ];
    r.ingest_inventory_slots(&slots);
    assert_eq!(r.inventory_slots_observed, 4);
    assert_eq!(r.inventory_slots_empty, 2);
    assert_eq!(r.inventory_slots_matched, 1);
    assert_eq!(r.inventory_slots_unmatched, 1);
    assert_eq!(r.inventory_slots_with_stable, 0);
    assert_eq!(r.inventory_slot_confidence.count(), 1);
}

#[test]
fn ingest_counts_stable_item_when_filter_populated() {
    let mut r = MetricsRegistry::new();
    let mut s = matched_slot("X", 850_000);
    s.stable_item = Some("X".to_string());
    r.ingest_inventory_slots(&[s]);
    assert_eq!(r.inventory_slots_with_stable, 1);
}

#[test]
fn ingest_empty_slots_zero_confidence_samples() {
    let mut r = MetricsRegistry::new();
    r.ingest_inventory_slots(&[empty_slot(), empty_slot()]);
    assert_eq!(r.inventory_slot_confidence.count(), 0);
    assert_eq!(r.inventory_slots_empty, 2);
}

#[test]
fn ingest_empty_slots_vec_is_noop() {
    let mut r = MetricsRegistry::new();
    r.ingest_inventory_slots(&[]);
    assert_eq!(r.inventory_slots_observed, 0);
}

#[test]
fn a_recorder_flushes_every_third_line() {
    let mut rec = MetricsRecorder::start("metrics.jsonl".to_string(), 3);
    assert_eq!(rec.path(), "metrics.jsonl");
    assert!(!rec.write_line());
    assert!(!rec.write_line());
    assert!(rec.write_line());
    assert!(!rec.write_line());
    assert_eq!(rec.written_lines(), 4);
}

#[test]
fn recording_is_reported_while_it_runs() {
    let mut r = MetricsRegistry::new();
    assert!(!r.recording_status().active);
    assert!(!r.record_tick(dummy_tick(1)));
    r.start_recording("run.jsonl".to_string(), 1);
    assert!(r.record_tick(dummy_tick(2)));
    assert!(r.line_written());
    let status = r.recording_status();
    assert!(status.active);
    assert_eq!(status.path.as_deref(), Some("run.jsonl"));
    assert_eq!(status.written_lines, 1);
    assert_eq!(r.stop_recording(), 1);
    assert!(!r.recording_status().active);
}

#[test]
fn the_mean_is_that_of_the_very_samples() {
    let mut h = LatencyHistogram::new();
    assert_eq!(h.mean_us(), 0);
    for us in [1, 2, 4, 700, 90_001] {
        h.record_us(us);
    }
    assert_eq!(h.mean_us(), 90_708 / 5);
}
