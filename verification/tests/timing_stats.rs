use telestrator::timing_stats::{sum_samples, TimingStats, TIMING_ACCUMULATOR_SIZE};

#[test]
fn sums() {
    assert_eq!(sum_samples(&vec![]), 0);
    assert_eq!(sum_samples(&vec![1, 2, 3]), 6);
    assert_eq!(sum_samples(&vec![u64::MAX, u64::MAX]), 2 * (u64::MAX as u128));
}

#[test]
fn first_tick_records_nothing() {
    let mut stats = TimingStats::new("feed".to_string());
    assert!(stats.tick(5).is_none());
    for i in 1..TIMING_ACCUMULATOR_SIZE as u64 {
        assert!(stats.tick(5 + i).is_none(), "summary after {} periods", i);
    }
    assert!(stats.tick(5 + 120).is_some());
}

#[test]
fn summary_every_120_periods() {
    let mut stats = TimingStats::new("feed".to_string());
    stats.tick(1_000);
    stats.track("bitrate", 800, " bits/frame");
    stats.track("bitrate", 1_000, " bits/frame");
    stats.track("queue", 3, " frames");
    assert!(stats.start("encode", 1_100));
    assert!(stats.end("encode", 1_400));
    assert!(stats.start("encode", 2_000));
    assert!(stats.end("encode", 2_500));
    assert!(stats.start("convert", 2_600));
    assert!(stats.end("convert", 2_610));
    // 119 periods of 16 667 us and one of 16 787: 2 000 160 in all.
    let mut now = 1_000;
    let mut summary = None;
    for i in 0..120 {
        assert!(summary.is_none());
        now += if i == 60 { 16_787 } else { 16_667 };
        summary = stats.tick(now);
    }
    let summary = summary.expect("no summary after 120 periods");
    assert_eq!(summary.label, "feed");
    assert_eq!(summary.average_period, 16_668);

    assert_eq!(summary.timers.len(), 2);
    assert_eq!(summary.timers[0].label, "encode");
    assert_eq!(summary.timers[0].sum, 800);
    assert_eq!(summary.timers[0].count, 2);
    assert_eq!(summary.timers[0].unit, "");
    assert_eq!(summary.timers[1].label, "convert");
    assert_eq!(summary.timers[1].sum, 10);
    assert_eq!(summary.timers[1].count, 1);

    assert_eq!(summary.values.len(), 2);
    assert_eq!(summary.values[0].label, "bitrate");
    assert_eq!(summary.values[0].sum, 1_800);
    assert_eq!(summary.values[0].count, 2);
    assert_eq!(summary.values[0].unit, " bits/frame");
    assert_eq!(summary.values[1].label, "queue");
    assert_eq!(summary.values[1].sum, 3);
    assert_eq!(summary.values[1].count, 1);
    assert_eq!(summary.values[1].unit, " frames");

    // Everything starts anew.
    let mut next = None;
    for _ in 0..120 {
        assert!(next.is_none());
        now += 10;
        next = stats.tick(now);
    }
    let next = next.expect("no second summary");
    assert_eq!(next.average_period, 10);
    assert!(next.timers.is_empty());
    assert!(next.values.is_empty());
}

#[test]
fn summary_clears_running_timers() {
    let mut stats = TimingStats::new("feed".to_string());
    stats.tick(0);
    assert!(stats.start("encode", 1));
    for i in 1..=120 {
        stats.tick(i);
    }
    // The timer that was running is gone: it can be started again, not ended.
    assert!(!stats.end("encode", 200));
    assert!(stats.start("encode", 201));
}

#[test]
fn start_of_a_running_timer_is_ignored() {
    let mut stats = TimingStats::new("feed".to_string());
    assert!(stats.start("encode", 100));
    assert!(!stats.start("encode", 150));
    assert!(stats.start("send", 160));
    assert!(stats.end("encode", 400));
    stats.tick(0);
    let mut summary = None;
    for i in 1..=120 {
        summary = stats.tick(i);
    }
    let summary = summary.unwrap();
    // The time counts from the first start.
    assert_eq!(summary.timers.len(), 1);
    assert_eq!(summary.timers[0].sum, 300);
}

#[test]
fn end_without_start_is_ignored() {
    let mut stats = TimingStats::new("feed".to_string());
    assert!(!stats.end("encode", 100));
    assert!(stats.start("encode", 100));
    assert!(stats.end("encode", 90));
    assert!(!stats.end("encode", 120));
    stats.tick(0);
    let mut summary = None;
    for i in 1..=120 {
        summary = stats.tick(i);
    }
    let summary = summary.unwrap();
    assert_eq!(summary.timers.len(), 1);
    assert_eq!(summary.timers[0].count, 1);
    // The clock went back between start and end: no time has passed.
    assert_eq!(summary.timers[0].sum, 0);
}

#[test]
fn track_takes_the_last_unit() {
    let mut stats = TimingStats::new("feed".to_string());
    stats.track("size", 1, " B");
    stats.track("size", u32::MAX, " bytes");
    stats.tick(0);
    let mut summary = None;
    for i in 1..=120 {
        summary = stats.tick(i);
    }
    let summary = summary.unwrap();
    assert_eq!(summary.values.len(), 1);
    assert_eq!(summary.values[0].sum, 1 + u32::MAX as u128);
    assert_eq!(summary.values[0].unit, " bytes");
}

#[test]
fn clock_that_goes_back_counts_as_standing_still() {
    let mut stats = TimingStats::new("feed".to_string());
    stats.tick(1_000);
    let mut summary = None;
    for _ in 0..120 {
        summary = stats.tick(10);
    }
    // One period from 1000 back to 10, then 119 of no time at all.
    assert_eq!(summary.unwrap().average_period, 0);
}
