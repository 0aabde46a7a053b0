use clean_ram_vps::monitor::{
    cpu_text, format_uptime, gauge_text, kb_from_bytes, MonitorAction, Sample, SysMonitor,
    SysSnapshot,
};

fn sample(total_kb: u64, used_kb: u64, ram: f32, cpu: f32) -> Sample {
    Sample {
        total_kb,
        used_kb,
        ram_percent_bits: ram.to_bits(),
        cpu_percent_bits: cpu.to_bits(),
    }
}

#[test]
fn kilobytes_from_bytes() {
    assert_eq!(kb_from_bytes(0), 0);
    assert_eq!(kb_from_bytes(1023), 0);
    assert_eq!(kb_from_bytes(1024), 1);
    assert_eq!(kb_from_bytes(17_179_869_184), 16_777_216);
}

#[test]
fn bytes_show_as_megabytes() {
    let bytes = 17_179_869_184 + 5_000;
    let shown = SysSnapshot::from_sample(sample(kb_from_bytes(bytes), 0, 0.0, 0.0));
    assert_eq!(shown.ram_total_mb, bytes / 1_048_576);
    assert_eq!(shown.ram_total_mb, 16_384);
}

#[test]
fn snapshot_of_a_sample() {
    let shown = SysSnapshot::from_sample(sample(8192, 3071, 37.5, 12.25));
    assert_eq!(shown.ram_total_mb, 8);
    assert_eq!(shown.ram_used_mb, 2);
    assert_eq!(f32::from_bits(shown.ram_percent_bits), 37.5);
    assert_eq!(f32::from_bits(shown.cpu_percent_bits), 12.25);
}

#[test]
fn snapshot_without_memory() {
    let shown = SysSnapshot::from_sample(sample(0, 0, f32::NAN, 3.0));
    assert_eq!(f32::from_bits(shown.ram_percent_bits), 0.0);
    assert_eq!(f32::from_bits(shown.cpu_percent_bits), 3.0);
    assert_eq!(shown.ram_total_mb, 0);
}

#[test]
fn snapshot_before_any_sample() {
    let shown = SysMonitor::start().read();
    assert_eq!(shown, SysSnapshot::default());
    assert_eq!(shown.ram_used_mb, 0);
    assert_eq!(shown.ram_total_mb, 0);
    assert_eq!(f32::from_bits(shown.ram_percent_bits), 0.0);
    assert_eq!(f32::from_bits(shown.cpu_percent_bits), 0.0);
}

#[test]
fn lines_on_memory_and_processor() {
    let shown = SysSnapshot::from_sample(sample(16_777_216, 8_388_608, 50.0, 7.0));
    assert_eq!(shown.ram_text("50.0"), "RAM: 8192 / 16384 MB  (50.0%)");
    assert_eq!(cpu_text("7.0"), "CPU: 7.0%");
    assert_eq!(gauge_text("50.0"), "50.0%");
}

#[test]
fn uptime_wording() {
    assert_eq!(format_uptime(0), "0s");
    assert_eq!(format_uptime(59), "59s");
    assert_eq!(format_uptime(60), "1p 0s");
    assert_eq!(format_uptime(61), "1p 1s");
    assert_eq!(format_uptime(3599), "59p 59s");
    assert_eq!(format_uptime(3600), "1h 0p 0s");
    assert_eq!(format_uptime(3661), "1h 1p 1s");
    assert_eq!(format_uptime(360_000 + 125), "100h 2p 5s");
    assert_eq!(
        format_uptime(u64::MAX),
        format!("{}h {}p {}s", u64::MAX / 3600, (u64::MAX % 3600) / 60, u64::MAX % 60)
    );
}

#[test]
fn uptime_texts_differ() {
    let mut seen: Vec<String> = Vec::new();
    for secs in 0..4000 {
        let text = format_uptime(secs);
        if let Some(last) = seen.last() {
            assert_ne!(last, &text);
        }
        seen.push(text);
    }
    seen.sort();
    seen.dedup();
    assert_eq!(seen.len(), 4000);
}

#[test]
fn running_monitor_schedule() {
    let mut monitor = SysMonitor::start();
    assert_eq!(monitor.next_action(), MonitorAction::RefreshCpu);
    assert_eq!(monitor.next_action(), MonitorAction::SleepMillis(200));
    for n in 1..=65u64 {
        assert_eq!(monitor.next_action(), MonitorAction::TakeSample);
        monitor.record(sample(4096 * n, 1024 * n, 25.0, n as f32), n);
        assert_eq!(monitor.uptime_secs, n);
        assert_eq!(monitor.read().ram_used_mb, n);
        assert_eq!(monitor.read().ram_total_mb, 4 * n);
        assert_eq!(f32::from_bits(monitor.read().cpu_percent_bits), n as f32);
        assert_eq!(monitor.next_action(), MonitorAction::SleepMillis(1000));
    }
    assert_eq!(monitor.uptime_string(), "1p 5s");
    assert_eq!(
        monitor.uptime_caption(),
        "Thời gian thức (uptime app): 1p 5s"
    );
}

#[test]
fn uptime_is_the_time_since_the_start() {
    let mut monitor = SysMonitor::start();
    assert_eq!(monitor.uptime_string(), "0s");
    monitor.record(sample(2048, 1024, 50.0, 1.0), 0);
    assert_eq!(monitor.uptime_string(), "0s");
    monitor.record(sample(4096, 1024, 25.0, 2.0), 3600);
    assert_eq!(monitor.uptime_string(), "1h 0p 0s");
    monitor.keep_time(3725);
    assert_eq!(monitor.uptime_string(), "1h 2p 5s");
    assert_eq!(monitor.read().ram_total_mb, 4);
}

#[test]
fn time_goes_on_where_a_sample_is_lost() {
    let mut monitor = SysMonitor::start();
    monitor.record(sample(2048, 1024, 50.0, 1.0), 1);
    let shown = monitor.read();
    monitor.keep_time(2);
    monitor.keep_time(3);
    assert_eq!(monitor.uptime_secs, 3);
    assert_eq!(monitor.read(), shown);
    assert!(monitor.running);
}

#[test]
fn stopped_monitor_ends() {
    let mut monitor = SysMonitor::start();
    monitor.next_action();
    monitor.next_action();
    assert_eq!(monitor.next_action(), MonitorAction::TakeSample);
    monitor.record(sample(2048, 1024, 50.0, 1.0), 1);
    monitor.stop();
    assert_eq!(monitor.next_action(), MonitorAction::SleepMillis(1000));
    assert_eq!(monitor.next_action(), MonitorAction::Exit);
    assert_eq!(monitor.next_action(), MonitorAction::Exit);
    assert_eq!(monitor.uptime_secs, 1);
    assert_eq!(monitor.read().ram_total_mb, 2);
}

#[test]
fn monitor_stopped_at_once_takes_no_sample() {
    let mut monitor = SysMonitor::start();
    monitor.stop();
    assert_eq!(monitor.next_action(), MonitorAction::RefreshCpu);
    assert_eq!(monitor.next_action(), MonitorAction::SleepMillis(200));
    assert_eq!(monitor.next_action(), MonitorAction::Exit);
    assert_eq!(monitor.uptime_string(), "0s");
}

#[test]
fn readings_do_not_change_the_schedule() {
    let mut early = SysMonitor::start();
    let mut late = SysMonitor::start();
    let reading = sample(4096, 2048, 50.0, 9.5);
    early.record(reading, 7);
    let early_action = early.next_action();
    let late_action = late.next_action();
    late.record(reading, 7);
    assert_eq!(early_action, late_action);
    assert_eq!(early, late);
}

#[test]
fn steps_and_readings_by_turns() {
    let mut driven = SysMonitor::start();
    let mut stepped = SysMonitor::start();
    for n in 0..50u64 {
        if n % 3 == 0 {
            driven.record(sample(1024 * n, 0, 0.0, 0.0), n);
        }
        if n % 4 == 1 {
            driven.keep_time(n + 100);
        }
        assert_eq!(driven.next_action(), stepped.next_action());
        assert_eq!(driven.phase, stepped.phase);
    }
    assert_eq!(driven.uptime_secs, 149);
    assert_eq!(driven.read().ram_total_mb, 48);
    driven.stop();
    driven.record(sample(2048, 0, 0.0, 0.0), 200);
    assert_eq!(driven.next_action(), MonitorAction::Exit);
    assert_eq!(driven.read().ram_total_mb, 2);
}
