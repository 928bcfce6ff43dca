use nelomai_app::core_state::Phase;
use nelomai_app::resource_usage::{
    average_cpu_basis_points, delta, filetime_millis, nonnegative, parse_proc_value,
    peak_rss_bytes, timeval_millis, AndroidUidCounters, ProcessCounters, ResourceSnapshot,
};
use nelomai_app::tray::{
    format_bytes, show_presentation, shutdown_failure_text, TrayPresentation,
};

fn counters(user: u64, system: u64, memory: u64, read: u64) -> ProcessCounters {
    let mut counters = ProcessCounters::new();
    counters.cpu_user_ms = Some(user);
    counters.cpu_system_ms = Some(system);
    counters.current_resident_memory_bytes = Some(memory);
    counters.read_bytes = Some(read);
    counters
}

#[test]
fn report_uses_deltas_and_absolute_memory() {
    let baseline = ResourceSnapshot {
        captured_at_nanos: 5_000_000_000,
        process: counters(10, 5, 100, 1_000),
        android_uid: None,
    };
    let current = ResourceSnapshot {
        captured_at_nanos: 7_000_000_000,
        process: counters(30, 15, 250, 1_500),
        android_uid: None,
    };

    let report = baseline.report(current);

    assert_eq!(report.session_duration_ms, 2_000);
    assert_eq!(report.components.len(), 1);
    assert_eq!(report.components[0].cpu_user_ms, Some(20));
    assert_eq!(report.components[0].cpu_average_basis_points, Some(150));
    assert_eq!(
        report.components[0].current_resident_memory_bytes,
        Some(250)
    );
    assert_eq!(report.components[0].read_bytes, Some(500));
}

#[test]
fn reset_counter_is_reported_as_unavailable() {
    assert_eq!(delta(Some(10), Some(5)), None);
}

#[test]
fn the_counters_of_android_are_a_second_component() {
    let uid = |received: u64| AndroidUidCounters {
        cpu_user_ms: Some(received),
        cpu_system_ms: None,
        network_rx_bytes: Some(received),
        network_tx_bytes: Some(7),
        cpu_charge_milliamp_milliseconds: None,
        mobile_charge_milliamp_milliseconds: None,
        wifi_charge_milliamp_milliseconds: Some(9),
    };
    let mut baseline = ResourceSnapshot::capture_for_test();
    baseline.android_uid = Some(uid(100));
    let mut current = ResourceSnapshot::capture_for_test();
    current.android_uid = Some(uid(150));
    let report = baseline.report(current);
    assert_eq!(report.components.len(), 2);
    assert_eq!(report.components[1].network_rx_bytes, Some(50));
    assert_eq!(report.components[1].cpu_average_basis_points, None);
}

#[test]
fn numbers_of_the_system_are_converted() {
    assert_eq!(average_cpu_basis_points(Some(20), Some(10), 2_000), Some(150));
    assert_eq!(average_cpu_basis_points(Some(20), None, 2_000), None);
    assert_eq!(timeval_millis(2, 345_678), Some(2_345));
    assert_eq!(timeval_millis(-1, 0), None);
    assert_eq!(nonnegative(-1), None);
    assert_eq!(nonnegative(7), Some(7));
    assert_eq!(peak_rss_bytes(3, true), Some(3_072));
    assert_eq!(peak_rss_bytes(3, false), Some(3));
    assert_eq!(filetime_millis(1, 0), 429_496);
    let status = "Name:\tapp\nVmRSS:\t  2048 kB\nThreads:\t7\n";
    assert_eq!(parse_proc_value(status, "VmRSS:", 1_024), Some(2_097_152));
    assert_eq!(parse_proc_value(status, "Threads:", 1), Some(7));
    assert_eq!(parse_proc_value(status, "Name:", 1), None);
    assert_eq!(parse_proc_value(status, "VmHWM:", 1), None);
}

#[test]
fn formats_session_traffic_for_the_tray() {
    assert_eq!(format_bytes(900), "900 Б");
    assert_eq!(format_bytes(1_536), "1,5 КБ");
    assert_eq!(format_bytes(5 * 1024 * 1024), "5,0 МБ");
}

#[test]
fn traffic_is_formatted_as_doubles_are() {
    for bytes in [
        0u64,
        1_023,
        1_024,
        1_075,
        1_076,
        1_280,
        1_408,
        1_792,
        10_239,
        1_048_575,
        1_048_576,
        1_073_741_823,
        5_368_709_120,
        1_099_511_627_775,
        u64::MAX,
    ] {
        let units = ["Б", "КБ", "МБ", "ГБ", "ТБ"];
        let mut value = bytes as f64;
        let mut unit = 0;
        while value >= 1024.0 && unit + 1 < units.len() {
            value /= 1024.0;
            unit += 1;
        }
        let expected = if unit == 0 {
            format!("{bytes} {}", units[unit])
        } else {
            format!("{value:.1} {}", units[unit]).replace('.', ",")
        };
        assert_eq!(format_bytes(bytes), expected, "{bytes}");
    }
}

#[test]
fn the_tray_is_changed_only_where_it_has_to_be() {
    let idle = TrayPresentation::new(Phase::Ready, None);
    assert_eq!(idle.toggle_text, "Включить VPN");
    assert_eq!(idle.traffic_text, "Трафик сессии: нет подключения");
    let connected = TrayPresentation::new(Phase::Connected, Some((1_536, 900)));
    assert!(connected.traffic_text.contains("1,5 КБ"));
    assert!(connected.traffic_text.contains("900 Б"));
    let mut last: Option<TrayPresentation> = None;
    assert!(show_presentation(&mut last, TrayPresentation::new(Phase::Ready, None)));
    assert!(!show_presentation(&mut last, TrayPresentation::new(Phase::Error, None)));
    assert!(show_presentation(&mut last, connected));
    assert_eq!(
        shutdown_failure_text("x"),
        "Не удалось завершить подключение: x"
    );
}
