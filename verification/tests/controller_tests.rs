use shell_sorter::config::ConfigSnapshot;
use shell_sorter::controller_monitor::{
    binary_sensor_url, device_info_url, health_check_url, next_case_url, parse_binary_sensor,
    servo_url, vibration_url, ControllerMonitor, ControllerStep, ProbeOutcome,
};
use shell_sorter::protocol::GlobalMessage;

fn config(hostname: &str) -> ConfigSnapshot {
    ConfigSnapshot {
        host: "127.0.0.1".to_string(),
        port: 8000,
        machine_name: "Shell Sorter v1.0".to_string(),
        esphome_hostname: hostname.to_string(),
        network_camera_hostnames: vec!["esp32cam1.local".to_string()],
        auto_detect_cameras: false,
        auto_start_esp32_cameras: true,
    }
}

fn running_monitor(hostname: &str) -> ControllerMonitor {
    let mut monitor = ControllerMonitor::new(&config(hostname));
    monitor.begin_running();
    monitor
}

#[test]
fn test_new_monitor_starts_offline() {
    let monitor = ControllerMonitor::new(&config("ctl.local"));
    let status = monitor.get_status();
    assert!(!status.online);
    assert_eq!(status.hostname, "ctl.local");
    assert_eq!(status.last_seen, None);
    assert_eq!(status.response_time_ms, None);
    assert_eq!(status.error_count, 0);
}

#[test]
fn test_health_check_success_resets_errors() {
    let mut monitor = running_monitor("ctl.local");
    monitor.apply_health_check(ProbeOutcome::Unreachable, 1_000);
    monitor.apply_health_check(ProbeOutcome::Unreachable, 2_000);
    assert_eq!(monitor.status.error_count, 2);

    let cooldown = monitor.apply_health_check(
        ProbeOutcome::Responded { success: true, response_time_ms: 12 },
        3_000,
    );
    assert!(!cooldown, "a healthy controller needs no cooldown");
    assert!(monitor.status.online);
    assert_eq!(monitor.status.last_seen, Some(3_000));
    assert_eq!(monitor.status.response_time_ms, Some(12));
    assert_eq!(monitor.status.error_count, 0);
}

#[test]
fn test_health_check_http_failure_counts_but_keeps_last_seen_fresh() {
    let mut monitor = running_monitor("ctl.local");
    let cooldown = monitor.apply_health_check(
        ProbeOutcome::Responded { success: false, response_time_ms: 40 },
        1_500,
    );
    assert!(cooldown);
    assert!(!monitor.status.online);
    assert_eq!(monitor.status.last_seen, Some(1_500));
    assert_eq!(monitor.status.response_time_ms, Some(40));
    assert_eq!(monitor.status.error_count, 1);
}

#[test]
fn test_health_check_unreachable_clears_response_time() {
    let mut monitor = running_monitor("ctl.local");
    monitor.apply_health_check(
        ProbeOutcome::Responded { success: true, response_time_ms: 9 },
        1_000,
    );
    let cooldown = monitor.apply_health_check(ProbeOutcome::Unreachable, 2_000);
    assert!(cooldown, "an unreachable controller asks for a cooldown pause");
    assert!(!monitor.status.online);
    assert_eq!(monitor.status.last_seen, Some(1_000), "last_seen keeps the last answer");
    assert_eq!(monitor.status.response_time_ms, None);
    assert_eq!(monitor.status.error_count, 1);
}

#[test]
fn test_record_response_refreshes_round_trip() {
    let mut monitor = running_monitor("ctl.local");
    monitor.record_response(25, 4_000);
    assert_eq!(monitor.status.response_time_ms, Some(25));
    assert_eq!(monitor.status.last_seen, Some(4_000));
}

#[test]
fn test_config_change_resets_health_facts() {
    let mut monitor = running_monitor("ctl.local");
    monitor.apply_health_check(
        ProbeOutcome::Responded { success: true, response_time_ms: 9 },
        1_000,
    );

    // Same hostname: nothing changes.
    monitor.update_config(&config("ctl.local"));
    assert!(monitor.status.online);

    // New hostname: cached health is stale and must be invalidated.
    monitor.update_config(&config("other.local"));
    assert_eq!(monitor.status.hostname, "other.local");
    assert!(!monitor.status.online);
    assert_eq!(monitor.status.last_seen, None);
    assert_eq!(monitor.status.response_time_ms, None);
    assert_eq!(monitor.status.error_count, 0);
}

#[test]
fn test_machine_status_tracks_health() {
    let mut monitor = running_monitor("ctl.local");
    let offline = monitor.machine_status_snapshot(10);
    assert_eq!(offline.status, "Offline");
    assert!(!offline.ready);
    assert_eq!(offline.active_jobs, 0);
    assert_eq!(offline.last_update, 10);

    monitor.apply_health_check(
        ProbeOutcome::Responded { success: true, response_time_ms: 5 },
        1_000,
    );
    let ready = monitor.machine_status_snapshot(20);
    assert_eq!(ready.status, "Ready");
    assert!(ready.ready);
}

#[test]
fn test_hardware_status_summary_entries() {
    let monitor = running_monitor("ctl.local");
    let rows = monitor.hardware_status_summary();
    assert_eq!(rows.len(), 2);
    assert_eq!(rows[0], ("controller".to_string(), "Disconnected".to_string()));
    assert_eq!(rows[1], ("esphome_hostname".to_string(), "ctl.local".to_string()));
}

#[test]
fn test_parse_binary_sensor_trims_and_ignores_case() {
    assert!(parse_binary_sensor("ON"));
    assert!(parse_binary_sensor(" on \r\n"));
    assert!(parse_binary_sensor("\tOn"));
    assert!(!parse_binary_sensor("OFF"));
    assert!(!parse_binary_sensor(""));
    assert!(!parse_binary_sensor("ONE"));
}

#[test]
fn test_controller_urls() {
    assert_eq!(
        next_case_url("ctl.local"),
        "http://ctl.local/button/trigger_next_case/press"
    );
    assert_eq!(health_check_url("ctl.local"), "http://ctl.local/");
    assert_eq!(
        binary_sensor_url("ctl.local", "case_ready_to_feed"),
        "http://ctl.local/binary_sensor/case_ready_to_feed/state"
    );
    assert_eq!(
        device_info_url("ctl.local"),
        "http://ctl.local/text_sensor/device_info/state"
    );
    assert_eq!(
        vibration_url("ctl.local"),
        "http://ctl.local/switch/vibration_motor/turn_on"
    );
    assert_eq!(
        servo_url("ctl.local", "feed_servo", 120),
        "http://ctl.local/number/feed_servo/set?value=120"
    );
}

#[test]
fn test_events_drive_controller_actions() {
    let mut monitor = running_monitor("ctl.local");
    match monitor.handle_event(&GlobalMessage::NextCase, 0) {
        ControllerStep::PressNextCase { url } => {
            assert_eq!(url, "http://ctl.local/button/trigger_next_case/press");
        }
        other => panic!("unexpected step: {other:?}"),
    }
    match monitor.handle_event(&GlobalMessage::GetSensors, 0) {
        ControllerStep::ReadSensors { case_ready_url, case_in_view_url } => {
            assert_eq!(
                case_ready_url,
                "http://ctl.local/binary_sensor/case_ready_to_feed/state"
            );
            assert_eq!(
                case_in_view_url,
                "http://ctl.local/binary_sensor/case_in_camera_view/state"
            );
        }
        other => panic!("unexpected step: {other:?}"),
    }
    match monitor.handle_event(&GlobalMessage::ControllerStatus, 0) {
        ControllerStep::ReplyStatus(status) => assert_eq!(status.hostname, "ctl.local"),
        other => panic!("unexpected step: {other:?}"),
    }
    match monitor.handle_event(&GlobalMessage::MachineStatus, 77) {
        ControllerStep::ReplyMachineStatus(status) => {
            assert_eq!(status.status, "Offline");
            assert_eq!(status.last_update, 77);
        }
        other => panic!("unexpected step: {other:?}"),
    }
}

#[test]
fn test_controller_no_command_honored_after_shutdown() {
    let mut monitor = running_monitor("ctl.local");
    assert!(matches!(
        monitor.handle_event(&GlobalMessage::Shutdown, 0),
        ControllerStep::Exit
    ));
    assert!(matches!(
        monitor.handle_event(&GlobalMessage::NextCase, 0),
        ControllerStep::Dropped
    ));
    assert!(matches!(
        monitor.handle_event(&GlobalMessage::ControllerStatus, 0),
        ControllerStep::Dropped
    ));
}
