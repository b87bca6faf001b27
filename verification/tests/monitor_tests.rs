use lekiwi_agent::clock::Timestamp;
use lekiwi_agent::monitor::{
    heartbeat_url, resident_memory_mb, Action, Event, Monitor, Notice, Phase, Step, MAX_MEMORY_MB,
    POLL_INTERVAL_MS, REPORT_TIMEOUT_SECS,
};
use lekiwi_agent::robot_type::RobotType;
use lekiwi_agent::state::{merge_tick, RobotState};
use lekiwi_agent::telemetry::{DynamicInfo, SystemInfo};

fn at(secs: i64) -> Timestamp {
    Timestamp { secs, nanos: 0 }
}

fn profile(robot_type: RobotType) -> SystemInfo {
    SystemInfo {
        robot_id: "robot-1".to_string(),
        robot_type,
        hostname: "kiwi".to_string(),
        kernel_version: "6.6.31".to_string(),
        cpu_model: "Cortex-A76".to_string(),
        cpu_cores: 4,
        total_memory_mb: 8192,
        total_disk_gb: 64,
        mac_addresses: Vec::new(),
        pi_version: "Raspberry Pi 5".to_string(),
        agent_version: "1.0.0".to_string(),
    }
}

fn reading(boot_id: &str, secs: i64) -> DynamicInfo {
    DynamicInfo {
        timestamp: at(secs),
        uptime_seconds: secs as u64,
        cpu_usage_percent_bits: 0,
        memory_used_mb: 1,
        memory_free_mb: 2,
        disk_used_gb_bits: 0,
        disk_free_gb_bits: 0,
        temperature_celsius_bits: None,
        network_rx_bytes: 3,
        network_tx_bytes: 4,
        video_active: false,
        teleop_active: false,
        servo_positions: None,
        realsense_connected: Some(true),
        process_count: 5,
        boot_id: boot_id.to_string(),
    }
}

fn start(boot_count: u32) -> RobotState {
    RobotState {
        system_info: profile(RobotType::XLE),
        dynamic_info: reading("B1", 1000),
        first_seen: at(100),
        last_boot: at(500),
        boot_count,
    }
}

fn status(kb: &str) -> Option<String> {
    Some(format!("Name:\tagent\nVmPeak:\t  999999 kB\nVmRSS:\t{} kB\nThreads:\t4\n", kb))
}

#[test]
fn loop_constants_are_the_documented_defaults() {
    assert_eq!(POLL_INTERVAL_MS, 5000);
    assert_eq!(REPORT_TIMEOUT_SECS, 5);
    assert_eq!(MAX_MEMORY_MB, 50);
}

#[test]
fn heartbeat_url_appends_the_path() {
    assert_eq!(
        heartbeat_url("https://control.lekiwi.local:8443"),
        "https://control.lekiwi.local:8443/heartbeat"
    );
    assert_eq!(heartbeat_url(""), "/heartbeat");
    assert_eq!(heartbeat_url("http://h/"), "http://h//heartbeat");
}

#[test]
fn resident_memory_is_read_in_whole_mebibytes() {
    assert_eq!(resident_memory_mb(&status("  51200")), 50);
    assert_eq!(resident_memory_mb(&status("  52223")), 50);
    assert_eq!(resident_memory_mb(&status("  52224")), 51);
    assert_eq!(resident_memory_mb(&status("1023")), 0);
    assert_eq!(resident_memory_mb(&status("1024")), 1);
}

#[test]
fn resident_memory_is_zero_where_it_cannot_be_read() {
    assert_eq!(resident_memory_mb(&None), 0);
    assert_eq!(resident_memory_mb(&Some(String::new())), 0);
    assert_eq!(resident_memory_mb(&Some("Name:\tagent\nThreads:\t4\n".to_string())), 0);
    assert_eq!(resident_memory_mb(&Some("VmRSS:\n".to_string())), 0);
    assert_eq!(resident_memory_mb(&Some("VmRSS: lots kB\n".to_string())), 0);
    assert_eq!(resident_memory_mb(&Some("VmRSS: -5 kB\n".to_string())), 0);
    assert_eq!(resident_memory_mb(&Some("VmRSS: 99999999999999999999999 kB\n".to_string())), 0);
}

#[test]
fn resident_memory_takes_the_first_matching_line() {
    let text = "VmRSS: none\nVmRSS: 4096 kB\n".to_string();
    assert_eq!(resident_memory_mb(&Some(text)), 0);
    let text = "VmRSS: 4096 kB\nVmRSS: 8192 kB\n".to_string();
    assert_eq!(resident_memory_mb(&Some(text)), 4);
    let text = " VmRSS: 4096 kB\nVmRSS:8192 kB\nVmRSS: 2048".to_string();
    assert_eq!(resident_memory_mb(&Some(text)), 0);
    let text = "VmRSS:\t3072 kB\r\n".to_string();
    assert_eq!(resident_memory_mb(&Some(text)), 3);
}

#[test]
fn a_new_monitor_waits_for_its_first_tick() {
    let monitor = Monitor::new(start(3));
    assert_eq!(monitor.phase(), Phase::AwaitingTick);
    assert_eq!(monitor.awaited(), Action::AwaitTick);
    assert_eq!(*monitor.state(), start(3));
}

#[test]
fn a_tick_runs_through_the_phases_in_order() {
    let mut monitor = Monitor::new(start(3));

    let step = monitor.step_at(Event::TickElapsed, at(2000));
    assert_eq!(step, Step { action: Action::Sample(RobotType::XLE), notice: None });
    assert_eq!(monitor.phase(), Phase::Sampling);
    assert_eq!(*monitor.state(), start(3));

    let step = monitor.step_at(Event::Sampled(reading("B1", 2000)), at(2001));
    assert_eq!(step, Step { action: Action::Persist, notice: None });
    assert_eq!(monitor.phase(), Phase::Persisting);
    assert_eq!(*monitor.state(), merge_tick(start(3), reading("B1", 2000), at(2001)));

    let step = monitor.step_at(Event::Persisted { ok: true }, at(2002));
    assert_eq!(step, Step { action: Action::Report, notice: None });
    assert_eq!(monitor.phase(), Phase::Reporting);

    let step = monitor.step_at(Event::Reported { ok: true }, at(2003));
    assert_eq!(step, Step { action: Action::ReadMemory, notice: None });
    assert_eq!(monitor.phase(), Phase::CheckingMemory);

    let step = monitor.step_at(Event::MemoryRead(status("20480")), at(2004));
    assert_eq!(step, Step { action: Action::AwaitTick, notice: None });
    assert_eq!(monitor.phase(), Phase::AwaitingTick);
    assert_eq!(*monitor.state(), merge_tick(start(3), reading("B1", 2000), at(2001)));
}

#[test]
fn a_reboot_is_counted_and_noticed() {
    let mut monitor = Monitor::new(start(3));
    monitor.step_at(Event::TickElapsed, at(2000));
    let step = monitor.step_at(Event::Sampled(reading("B2", 2000)), at(2001));
    assert_eq!(
        step,
        Step { action: Action::Persist, notice: Some(Notice::Rebooted { boot_count: 4 }) }
    );
    assert_eq!(monitor.state().boot_count, 4);
    assert_eq!(monitor.state().last_boot, at(2001));
    assert_eq!(monitor.state().first_seen, at(100));
    assert_eq!(monitor.state().dynamic_info, reading("B2", 2000));
}

#[test]
fn failures_are_noticed_and_the_loop_goes_on() {
    let mut monitor = Monitor::new(start(3));
    monitor.step_at(Event::TickElapsed, at(1));
    monitor.step_at(Event::Sampled(reading("B1", 1)), at(1));
    let held = monitor.state().clone();

    let step = monitor.step_at(Event::Persisted { ok: false }, at(2));
    assert_eq!(step, Step { action: Action::Report, notice: Some(Notice::PersistFailed) });
    assert_eq!(*monitor.state(), held);

    let step = monitor.step_at(Event::Reported { ok: false }, at(3));
    assert_eq!(step, Step { action: Action::ReadMemory, notice: Some(Notice::ReportFailed) });
    assert_eq!(*monitor.state(), held);

    let step = monitor.step_at(Event::MemoryRead(None), at(4));
    assert_eq!(step, Step { action: Action::AwaitTick, notice: None });
    assert_eq!(*monitor.state(), held);
}

#[test]
fn memory_over_budget_is_noticed() {
    let mut monitor = Monitor::new(start(3));
    monitor.step_at(Event::TickElapsed, at(1));
    monitor.step_at(Event::Sampled(reading("B1", 1)), at(1));
    monitor.step_at(Event::Persisted { ok: true }, at(1));
    monitor.step_at(Event::Reported { ok: true }, at(1));
    let step = monitor.step_at(Event::MemoryRead(status("52224")), at(1));
    assert_eq!(
        step,
        Step { action: Action::AwaitTick, notice: Some(Notice::MemoryOverBudget { used_mb: 51 }) }
    );

    monitor.step_at(Event::TickElapsed, at(2));
    monitor.step_at(Event::Sampled(reading("B1", 2)), at(2));
    monitor.step_at(Event::Persisted { ok: true }, at(2));
    monitor.step_at(Event::Reported { ok: true }, at(2));
    let step = monitor.step_at(Event::MemoryRead(status("52223")), at(2));
    assert_eq!(step, Step { action: Action::AwaitTick, notice: None });
}

#[test]
fn an_unexpected_event_changes_nothing() {
    let mut monitor = Monitor::new(start(3));
    let before = monitor.clone();
    let events = [
        Event::Sampled(reading("B9", 9)),
        Event::Persisted { ok: false },
        Event::Reported { ok: false },
        Event::MemoryRead(status("999999")),
    ];
    for event in events {
        let step = monitor.step_at(event, at(9));
        assert_eq!(step, Step { action: Action::AwaitTick, notice: None });
        assert_eq!(monitor, before);
    }

    monitor.step_at(Event::TickElapsed, at(10));
    let sampling = monitor.clone();
    let step = monitor.step_at(Event::TickElapsed, at(11));
    assert_eq!(step, Step { action: Action::Sample(RobotType::XLE), notice: None });
    assert_eq!(monitor, sampling);
}

#[test]
fn unreachable_endpoint_for_three_ticks_keeps_the_latest_state() {
    let mut monitor = Monitor::new(start(3));
    let mut expected = start(3);
    let boots = ["B1", "B2", "B2"];
    for (k, boot) in boots.iter().enumerate() {
        let secs = 2000 + 5 * k as i64;
        assert_eq!(monitor.step_at(Event::TickElapsed, at(secs)).action, Action::Sample(RobotType::XLE));
        monitor.step_at(Event::Sampled(reading(boot, secs)), at(secs));
        expected = merge_tick(expected, reading(boot, secs), at(secs));
        assert_eq!(*monitor.state(), expected);

        monitor.step_at(Event::Persisted { ok: true }, at(secs));
        let step = monitor.step_at(Event::Reported { ok: false }, at(secs + 5));
        assert_eq!(step, Step { action: Action::ReadMemory, notice: Some(Notice::ReportFailed) });
        assert_eq!(*monitor.state(), expected);

        let step = monitor.step_at(Event::MemoryRead(status("1024")), at(secs + 5));
        assert_eq!(step.action, Action::AwaitTick);
        assert_eq!(*monitor.state(), expected);
    }
    assert_eq!(monitor.state().boot_count, 4);
    assert_eq!(monitor.state().dynamic_info, reading("B2", 2010));
}

#[test]
fn a_reader_between_steps_never_sees_a_torn_snapshot() {
    let mut monitor = Monitor::new(start(3));
    let mut whole = vec![reading("B1", 1000)];
    let mut seen = Vec::new();
    for k in 0..4i64 {
        let boot = format!("B{}", k);
        let sample = reading(&boot, 3000 + k);
        whole.push(sample.clone());
        let events = vec![
            Event::TickElapsed,
            Event::Sampled(sample),
            Event::Persisted { ok: k % 2 == 0 },
            Event::Reported { ok: k % 2 == 1 },
            Event::MemoryRead(None),
        ];
        for event in events {
            seen.push(monitor.state().dynamic_info.clone());
            monitor.step_at(event, at(3000 + k));
            seen.push(monitor.state().dynamic_info.clone());
        }
    }
    for snapshot in seen {
        assert!(whole.contains(&snapshot));
        let pair = whole
            .iter()
            .find(|w| w.timestamp == snapshot.timestamp)
            .map(|w| w.boot_id.clone());
        assert_eq!(pair, Some(snapshot.boot_id.clone()));
    }
}

#[test]
fn accepts_guards_the_count_of_boots() {
    let mut monitor = Monitor::new(start(u32::MAX));
    assert!(monitor.accepts(&Event::TickElapsed));
    assert!(monitor.accepts(&Event::Sampled(reading("B2", 1))));
    monitor.step_at(Event::TickElapsed, at(1));
    assert!(!monitor.accepts(&Event::Sampled(reading("B2", 1))));
    assert!(monitor.accepts(&Event::Sampled(reading("B1", 1))));
    assert!(monitor.accepts(&Event::Reported { ok: false }));
}

#[test]
fn step_dates_a_reboot_by_the_clock() {
    let mut monitor = Monitor::new(start(3));
    let step = monitor.step(Event::TickElapsed);
    assert_eq!(step.action, Action::Sample(RobotType::XLE));
    let step = monitor.step(Event::Sampled(reading("B2", 1)));
    assert_eq!(step.notice, Some(Notice::Rebooted { boot_count: 4 }));
    assert!(monitor.state().last_boot.secs > 1_600_000_000);
    assert!(monitor.state().last_boot.later_than(&at(500)));
    assert_eq!(monitor.state().first_seen, at(100));
}
