use rsperf::average::Mean;
use rsperf::cpu::{compute_load, parse_cpu_line, sample_from_fields, CpuSample};
use rsperf::perf::{
    Perf, PerfError, BITRATE_INTERVAL, BITRATE_WINDOW_SIZE, PRINT_CPU_LOAD,
};

fn mean(whole: u64, rem: u64) -> Mean {
    Mean { whole, rem }
}

#[test]
fn cumulative_average_is_the_mean() {
    let samples: [u64; 5] = [7, 3, 10, 1, 4];
    let mut m = Mean::zero();
    let mut sum: u64 = 0;
    for (i, s) in samples.iter().enumerate() {
        let n = (i + 1) as u64;
        m = Perf::update_average(n, *s, m);
        sum += *s;
        assert_eq!(m.whole * n + m.rem, sum);
        assert!(m.rem < n);
    }
    // 25 / 5
    assert_eq!(m, mean(5, 0));
}

#[test]
fn cumulative_average_keeps_the_remainder() {
    let m1 = Perf::update_average(1, 1, Mean::zero());
    assert_eq!(m1, mean(1, 0));
    let m2 = Perf::update_average(2, 2, m1);
    // 3 / 2
    assert_eq!(m2, mean(1, 1));
    let m3 = Perf::update_average(3, 2, m2);
    // 5 / 3
    assert_eq!(m3, mean(1, 2));
}

#[test]
fn cumulative_average_of_zero_count_is_zero() {
    assert_eq!(Perf::update_average(0, 500, mean(3, 0)), Mean::zero());
}

#[test]
fn cumulative_average_of_largest_samples() {
    let m1 = Perf::update_average(1, u64::MAX, Mean::zero());
    let m2 = Perf::update_average(2, u64::MAX, m1);
    assert_eq!(m2, mean(u64::MAX, 0));
}

#[test]
fn moving_average_window_of_three() {
    let mut m = Mean::zero();
    m = Perf::update_average(1, 100, m);
    assert_eq!(m.floor(), 100);
    m = Perf::update_average(2, 200, m);
    assert_eq!(m.floor(), 150);
    m = Perf::update_average(3, 300, m);
    assert_eq!(m.floor(), 200);
    m = Perf::update_moving_average(3, m, 400, 100);
    assert_eq!(m, mean(300, 0));
}

#[test]
fn moving_average_is_mean_of_last_window() {
    let samples: [u64; 7] = [5, 9, 2, 8, 8, 1, 6];
    let w: usize = 3;
    let mut m = Mean::zero();
    for i in 0..samples.len() {
        if i < w {
            m = Perf::update_average((i + 1) as u64, samples[i], m);
        } else {
            m = Perf::update_moving_average(w as u32, m, samples[i], samples[i - w]);
        }
        let lo = if i + 1 > w { i + 1 - w } else { 0 };
        let n = (i + 1 - lo) as u64;
        let sum: u64 = samples[lo..=i].iter().sum();
        assert_eq!(m.whole * n + m.rem, sum);
        assert!(m.rem < n);
    }
}

#[test]
fn moving_average_of_zero_window_is_zero() {
    assert_eq!(Perf::update_moving_average(0, mean(10, 0), 20, 5), Mean::zero());
}

#[test]
fn moving_average_clamps_below_zero() {
    assert_eq!(Perf::update_moving_average(2, mean(1, 0), 0, 10), Mean::zero());
}

#[test]
fn moving_average_clamps_above_range() {
    let m = Perf::update_moving_average(2, mean(u64::MAX, 1), u64::MAX, 0);
    assert_eq!(m, mean(u64::MAX, 1));
}

#[test]
fn cpu_load_rounds_to_nearest_percent() {
    // 80 busy of 100
    assert_eq!(compute_load(10, 100, 30, 200), 80);
    // 2 busy of 3: 66.67 rounds to 67
    assert_eq!(compute_load(0, 0, 1, 3), 67);
    // 1 busy of 3: 33.3 rounds to 33
    assert_eq!(compute_load(0, 0, 2, 3), 33);
}

#[test]
fn cpu_load_bounds() {
    assert_eq!(compute_load(0, 0, 0, 1000), 100);
    assert_eq!(compute_load(0, 0, 1000, 1000), 0);
    assert_eq!(compute_load(5, 50, 5, 50), 0);
    for (pi, pt, ci, ct) in [(1u32, 2u32, 3u32, 9u32), (0, 0, u32::MAX, u32::MAX), (0, 0, 0, u32::MAX)] {
        assert!(compute_load(pi, pt, ci, ct) <= 100);
    }
}

#[test]
fn cpu_load_counter_reset() {
    // total went down: no time passed
    assert_eq!(compute_load(10, 500, 20, 100), 0);
    // idle went down: all of the time counts as busy
    assert_eq!(compute_load(500, 100, 10, 200), 100);
    // idle beyond total: no busy time
    assert_eq!(compute_load(0, 0, 300, 200), 0);
    assert!(compute_load(u32::MAX, u32::MAX, 0, 0) <= 100);
}

#[test]
fn new_engine_has_defaults() {
    let p = Perf::new();
    assert!(!p.is_running());
    assert_eq!(p.print_cpu_load(), PRINT_CPU_LOAD);
    assert_eq!(p.bitrate_interval(), BITRATE_INTERVAL);
    assert_eq!(p.bitrate_window_size(), BITRATE_WINDOW_SIZE);
    assert_eq!(p.bitrate_interval(), 100);
    assert_eq!(p.bitrate_window_size(), 0);
    assert!(!p.print_cpu_load());
}

#[test]
fn start_twice_fails() {
    let mut p = Perf::new();
    assert_eq!(p.start(0), Ok(()));
    assert_eq!(p.start(5), Err(PerfError::AlreadyRunning));
    assert!(p.is_running());
}

#[test]
fn buffer_after_stop_fails() {
    let mut p = Perf::new();
    assert_eq!(p.start(0), Ok(()));
    assert_eq!(p.stop(), Ok(()));
    assert_eq!(p.on_buffer(100, 1), Err(PerfError::NotRunning));
    assert_eq!(p.stop(), Err(PerfError::NotRunning));
    assert_eq!(p.tick(1000, None), Err(PerfError::NotRunning));
    assert_eq!(p.frame_count_total(), 0);
}

#[test]
fn start_clears_counters() {
    let mut p = Perf::new();
    p.start(0).unwrap();
    p.on_buffer(10, 1).unwrap();
    p.stop().unwrap();
    p.start(50).unwrap();
    assert_eq!(p.frame_count_total(), 0);
    assert_eq!(p.byte_count_total(), 0);
    assert_eq!(p.frame_count(), 0);
}

#[test]
fn ten_buffers_in_a_hundred_ms() {
    let mut p = Perf::new();
    p.set_bitrate_interval(100);
    p.set_bitrate_window_size(0);
    p.start(1000).unwrap();
    for i in 0..10u64 {
        p.on_buffer(1000, 1000 + i * 10).unwrap();
    }
    let s = p.tick(1100, None).unwrap().unwrap();
    assert_eq!(s.fps, 100);
    assert_eq!(s.bps, 800000);
    assert_eq!(s.mean_bps, mean(800000, 0));
    assert_eq!(s.mean_bps.floor(), s.bps);
    assert_eq!(s.cpu_load, None);
    assert_eq!(s.frame_count_total, 10);
    assert_eq!(s.byte_count_total, 10000);
    assert_eq!(p.fps(), 100);
    assert_eq!(p.bps(), 800000);
    assert_eq!(p.frame_count(), 0);
    assert_eq!(p.byte_count(), 0);
}

#[test]
fn window_of_three_over_ticks() {
    let mut p = Perf::new();
    p.set_bitrate_interval(1000);
    p.set_bitrate_window_size(3);
    p.start(0).unwrap();
    // each tick comes 8000 ms after the last, so the bitrate in bits per
    // second equals the byte count: samples 100, 200, 300, 400
    let expected = [100u64, 150, 200, 300];
    let mut now = 0u64;
    for (i, bytes) in [100u64, 200, 300, 400].iter().enumerate() {
        now += 8000;
        p.on_buffer(*bytes, now - 1).unwrap();
        let s = p.tick(now, None).unwrap().unwrap();
        assert_eq!(s.bps, *bytes);
        assert_eq!(s.mean_bps, mean(expected[i], 0));
    }
    assert_eq!(p.mean_bps(), mean(300, 0));
}

#[test]
fn no_traffic_gives_zero_fps() {
    let mut p = Perf::new();
    p.start(0).unwrap();
    p.on_buffer(10, 5).unwrap();
    let s1 = p.tick(100, None).unwrap().unwrap();
    assert_eq!(s1.fps, 10);
    let s2 = p.tick(200, None).unwrap().unwrap();
    assert_eq!(s2.fps, 0);
    assert_eq!(s2.bps, 0);
    assert_eq!(p.fps(), 0);
}

#[test]
fn early_or_backward_tick_computes_nothing() {
    let mut p = Perf::new();
    p.start(1000).unwrap();
    p.on_buffer(10, 1001).unwrap();
    assert_eq!(p.tick(1050, None), Ok(None));
    assert_eq!(p.tick(900, None), Ok(None));
    assert_eq!(p.tick(1000, None), Ok(None));
    assert_eq!(p.frame_count(), 1);
    let s = p.tick(1200, None).unwrap().unwrap();
    // 1 frame in 200 ms
    assert_eq!(s.fps, 5);
}

#[test]
fn zero_interval_still_guards_zero_elapsed() {
    let mut p = Perf::new();
    p.set_bitrate_interval(0);
    p.start(10).unwrap();
    p.on_buffer(1, 10).unwrap();
    assert_eq!(p.tick(10, None), Ok(None));
    let s = p.tick(11, None).unwrap().unwrap();
    assert_eq!(s.fps, 1000);
    assert_eq!(s.bps, 8000);
}

#[test]
fn cpu_load_reported_when_asked() {
    let mut p = Perf::new();
    p.set_print_cpu_load(true);
    p.start(0).unwrap();
    let s1 = p.tick(100, Some(CpuSample { idle: 100, total: 400 })).unwrap().unwrap();
    // 300 busy of 400
    assert_eq!(s1.cpu_load, Some(75));
    let s2 = p.tick(200, Some(CpuSample { idle: 150, total: 500 })).unwrap().unwrap();
    // 50 busy of 100
    assert_eq!(s2.cpu_load, Some(50));
}

#[test]
fn missing_cpu_sample_stops_sampling_for_the_session() {
    let mut p = Perf::new();
    p.set_print_cpu_load(true);
    p.start(0).unwrap();
    assert!(p.cpu_load_enabled());
    let s = p.tick(100, None).unwrap().unwrap();
    assert_eq!(s.cpu_load, None);
    // the setting stays as the user made it
    assert!(p.print_cpu_load());
    assert!(!p.cpu_load_enabled());
    let s2 = p.tick(200, Some(CpuSample { idle: 1, total: 2 })).unwrap().unwrap();
    assert_eq!(s2.cpu_load, None);
    // a new session samples again
    p.stop().unwrap();
    p.start(300).unwrap();
    assert!(p.cpu_load_enabled());
    let s3 = p.tick(400, Some(CpuSample { idle: 10, total: 40 })).unwrap().unwrap();
    // 30 busy of 40
    assert_eq!(s3.cpu_load, Some(75));
}

#[test]
fn cpu_load_not_read_when_off() {
    let mut p = Perf::new();
    p.start(0).unwrap();
    let s = p.tick(100, Some(CpuSample { idle: 1, total: 2 })).unwrap().unwrap();
    assert_eq!(s.cpu_load, None);
}

#[test]
fn compute_cpu_leaves_the_state() {
    let mut p = Perf::new();
    assert_eq!(p.compute_cpu(10, 100), 90);
    // still measured from the zero sample: 140 busy of 200
    assert_eq!(p.compute_cpu(60, 200), 70);
}

#[test]
fn tick_records_the_cpu_sample() {
    let mut p = Perf::new();
    p.set_print_cpu_load(true);
    p.start(0).unwrap();
    p.update_bps(100, Some(CpuSample { idle: 10, total: 100 })).unwrap();
    // from the sample that the tick recorded: 50 busy of 100
    assert_eq!(p.compute_cpu(60, 200), 50);
}

#[test]
fn update_bps_computes_all_metrics() {
    let mut p = Perf::new();
    p.start(0).unwrap();
    for _ in 0..10 {
        p.on_buffer(1000, 50).unwrap();
    }
    let s = p.update_bps(100, None).unwrap().unwrap();
    assert_eq!(s.fps, 100);
    assert_eq!(s.bps, 800000);
    assert_eq!(s.mean_bps, mean(800000, 0));
    assert_eq!(p.fps(), 100);
    assert_eq!(p.frame_count(), 0);
    assert_eq!(p.byte_count(), 0);
    // no traffic since: the next due computation gives zero
    let s2 = p.update_bps(200, None).unwrap().unwrap();
    assert_eq!(s2.fps, 0);
    assert_eq!(s2.bps, 0);
}

#[test]
fn update_bps_needs_a_running_engine() {
    let mut p = Perf::new();
    assert_eq!(p.update_bps(100, None), Err(PerfError::NotRunning));
    p.start(0).unwrap();
    p.on_buffer(250, 1).unwrap();
    p.stop().unwrap();
    assert_eq!(p.update_bps(1000, None), Err(PerfError::NotRunning));
    assert_eq!(p.byte_count(), 250);
    assert_eq!(p.mean_bps(), Mean::zero());
}

#[test]
fn update_bps_before_the_interval_changes_nothing() {
    let mut p = Perf::new();
    p.start(100).unwrap();
    p.on_buffer(250, 101).unwrap();
    assert_eq!(p.update_bps(150, None), Ok(None));
    assert_eq!(p.update_bps(100, None), Ok(None));
    assert_eq!(p.update_bps(50, None), Ok(None));
    assert_eq!(p.byte_count(), 250);
    assert_eq!(p.frame_count(), 1);
    assert_eq!(p.mean_bps(), Mean::zero());
}

#[test]
fn bitrate_saturates() {
    let mut p = Perf::new();
    p.start(0).unwrap();
    p.on_buffer(u64::MAX, 1).unwrap();
    p.on_buffer(u64::MAX, 2).unwrap();
    assert_eq!(p.byte_count(), u64::MAX);
    assert_eq!(p.byte_count_total(), u64::MAX);
    let s = p.tick(100, None).unwrap().unwrap();
    assert_eq!(s.bps, u64::MAX);
}

#[test]
fn reset_zeroes_frame_count_only() {
    let mut p = Perf::new();
    p.start(0).unwrap();
    p.on_buffer(5, 1).unwrap();
    p.on_buffer(5, 2).unwrap();
    p.reset();
    assert_eq!(p.frame_count(), 0);
    assert_eq!(p.frame_count_total(), 2);
    assert_eq!(p.byte_count(), 10);
}

#[test]
fn clear_zeroes_metrics() {
    let mut p = Perf::new();
    p.start(0).unwrap();
    p.on_buffer(5, 1).unwrap();
    p.tick(100, None).unwrap();
    p.clear(300);
    assert_eq!(p.fps(), 0);
    assert_eq!(p.bps(), 0);
    assert_eq!(p.mean_bps(), Mean::zero());
    assert_eq!(p.frame_count_total(), 0);
    assert_eq!(p.byte_count_total(), 0);
    assert!(p.is_running());
    assert_eq!(p.tick(350, None), Ok(None));
}

#[test]
fn window_size_change_restarts_mean() {
    let mut p = Perf::new();
    p.start(0).unwrap();
    p.on_buffer(1000, 1).unwrap();
    p.tick(1000, None).unwrap();
    assert_eq!(p.mean_bps(), mean(8000, 0));
    p.set_bitrate_window_size(2);
    assert_eq!(p.bitrate_window_size(), 2);
    assert_eq!(p.mean_bps(), Mean::zero());
    p.on_buffer(500, 1500).unwrap();
    let s = p.tick(2000, None).unwrap().unwrap();
    assert_eq!(s.mean_bps, mean(4000, 0));
}

#[test]
fn sample_from_full_cpu_line() {
    // user nice system idle iowait irq softirq steal guest guest_nice
    let f: Vec<u64> = vec![10, 20, 30, 400, 50, 6, 7, 8, 100, 200];
    assert_eq!(sample_from_fields(&f), Some(CpuSample { idle: 450, total: 531 }));
}

#[test]
fn sample_from_four_counters() {
    let f: Vec<u64> = vec![1, 2, 3, 4];
    assert_eq!(sample_from_fields(&f), Some(CpuSample { idle: 4, total: 10 }));
}

#[test]
fn sample_needs_four_counters() {
    let f: Vec<u64> = vec![1, 2, 3];
    assert_eq!(sample_from_fields(&f), None);
    assert_eq!(sample_from_fields(&Vec::new()), None);
}

#[test]
fn sample_counters_wrap() {
    let f: Vec<u64> = vec![1 << 32, 0, 5, (1 << 32) + 3, 0];
    assert_eq!(sample_from_fields(&f), Some(CpuSample { idle: 3, total: 8 }));
}

#[test]
fn cumulative_average_of_zero_count_ignores_old() {
    assert_eq!(Perf::update_average(0, 7, mean(3, 9)), Mean::zero());
}

#[test]
fn parse_aggregate_cpu_line() {
    let line = b"cpu  10 20 30 400 50 6 7 8 100 200";
    assert_eq!(parse_cpu_line(line), Some(CpuSample { idle: 450, total: 531 }));
}

#[test]
fn parse_cpu_line_with_tabs_and_newline() {
    let line = b"cpu\t1\t2 3  4\n";
    assert_eq!(parse_cpu_line(line), Some(CpuSample { idle: 4, total: 10 }));
}

#[test]
fn parse_rejects_other_lines() {
    assert_eq!(parse_cpu_line(b"cpu0 1 2 3 4 5"), None);
    assert_eq!(parse_cpu_line(b"intr 1 2 3 4 5"), None);
    assert_eq!(parse_cpu_line(b"cpu 1 2 x 4 5"), None);
    assert_eq!(parse_cpu_line(b"cpu 1 2 3"), None);
    assert_eq!(parse_cpu_line(b"cpu"), None);
    assert_eq!(parse_cpu_line(b""), None);
}

#[test]
fn parse_rejects_counter_beyond_u64() {
    assert_eq!(parse_cpu_line(b"cpu 1 2 3 18446744073709551616"), None);
    assert_eq!(
        parse_cpu_line(b"cpu 0 0 0 18446744073709551615"),
        Some(CpuSample { idle: u32::MAX, total: u32::MAX })
    );
}
