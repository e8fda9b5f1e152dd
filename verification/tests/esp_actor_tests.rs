use shell_sorter::camera_manager::{
    classify_snapshot_response, probe_url, CameraInfo, EspCameraManager, EspStep,
};
use shell_sorter::error::SorterError;
use shell_sorter::protocol::GlobalMessage;

fn manager_with(hostnames: &[&str]) -> EspCameraManager {
    let mut manager =
        EspCameraManager::new(hostnames.iter().map(|h| h.to_string()).collect());
    manager.begin_running();
    manager
}

#[test]
fn test_new_directory_derives_urls() {
    let manager = manager_with(&["esp32cam1.local"]);
    let cameras = manager.list_cameras();
    assert_eq!(cameras.len(), 1);
    assert_eq!(cameras[0].hostname, "http://esp32cam1.local");
    assert_eq!(cameras[0].stream_url, "http://esp32cam1.local/camera/stream");
    assert_eq!(cameras[0].snapshot_url, "http://esp32cam1.local/camera/snapshot");
    assert!(cameras[0].online);
}

#[test]
fn test_new_directory_collapses_duplicate_hostnames() {
    let manager = manager_with(&["cam", "cam"]);
    assert_eq!(manager.list_cameras().len(), 1);
}

#[test]
fn test_camera_info_from_id() {
    let info = CameraInfo::from_id("cam9".to_string());
    assert_eq!(info.hostname, "http://cam9");
    assert_eq!(info.snapshot_url, "http://cam9/camera/snapshot");
    assert!(info.online);
}

#[test]
fn test_failed_probe_keeps_camera_marked_offline() {
    let mut manager = manager_with(&["cam-a", "cam-b"]);
    manager.record_probe("http://cam-a", false);

    let cameras = manager.list_cameras();
    assert_eq!(cameras.len(), 2, "a failed probe never removes a network camera");
    let cam_a = cameras.iter().find(|c| c.hostname == "http://cam-a").expect("still listed");
    assert!(!cam_a.online);
    let cam_b = cameras.iter().find(|c| c.hostname == "http://cam-b").expect("still listed");
    assert!(cam_b.online);

    manager.record_probe("http://cam-a", true);
    let cameras = manager.list_cameras();
    let cam_a = cameras.iter().find(|c| c.hostname == "http://cam-a").expect("still listed");
    assert!(cam_a.online, "a camera may come back online");
}

#[test]
fn test_esp_capture_plan_unknown_camera_fails_not_found() {
    let manager = manager_with(&["cam-a"]);
    let err = manager.capture_plan("ghost").expect_err("unknown camera");
    assert_eq!(err, SorterError::NotFound("ghost".to_string()));
}

#[test]
fn test_capture_plan_offline_camera_fails_before_any_network_call() {
    let mut manager = manager_with(&["cam-a"]);
    manager.record_probe("http://cam-a", false);
    let err = manager.capture_plan("cam-a").expect_err("offline camera");
    assert!(matches!(err, SorterError::InvalidState(_)));
}

#[test]
fn test_capture_plan_online_camera_yields_snapshot_url() {
    let manager = manager_with(&["cam-a"]);
    let url = manager.capture_plan("cam-a").expect("online camera");
    assert_eq!(url, "http://cam-a/camera/snapshot");
}

#[test]
fn test_classify_snapshot_response_by_status() {
    assert_eq!(classify_snapshot_response(200, vec![1, 2, 3]), Ok(vec![1, 2, 3]));
    assert_eq!(classify_snapshot_response(204, vec![]), Ok(vec![]));
    assert_eq!(
        classify_snapshot_response(404, vec![1]),
        Err(SorterError::Protocol(404))
    );
    assert_eq!(
        classify_snapshot_response(500, vec![]),
        Err(SorterError::Protocol(500))
    );
}

#[test]
fn test_select_unknown_id_leaves_selection_unchanged() {
    let mut manager = manager_with(&["cam-a", "cam-b"]);
    manager
        .select_cameras(vec!["cam-a".to_string(), "cam-b".to_string()])
        .expect("both cameras are known");

    let err = manager
        .select_cameras(vec!["unknown".to_string()])
        .expect_err("unknown id");
    assert_eq!(err, SorterError::NotFound("unknown".to_string()));
    assert_eq!(
        manager.status.selected_cameras,
        vec!["cam-a".to_string(), "cam-b".to_string()]
    );
}

#[test]
fn test_select_then_stream_then_status_scenario() {
    let mut manager = manager_with(&["cam-a", "cam-b"]);
    manager
        .select_cameras(vec!["cam-a".to_string(), "cam-b".to_string()])
        .expect("both cameras are known");
    manager.start_streaming().expect("starting always succeeds");

    let status = manager.get_status();
    assert_eq!(
        status.selected_cameras,
        vec!["cam-a".to_string(), "cam-b".to_string()]
    );
    assert!(status.streaming);

    let err = manager
        .select_cameras(vec!["unknown".to_string()])
        .expect_err("unknown id");
    assert!(matches!(err, SorterError::NotFound(_)));

    let after = manager.get_status();
    assert_eq!(
        after.selected_cameras,
        vec!["cam-a".to_string(), "cam-b".to_string()]
    );
    assert!(after.streaming);
}

#[test]
fn test_esp_start_then_stop_leaves_streaming_false() {
    let mut manager = manager_with(&["cam-a"]);
    manager.start_streaming().expect("starting with an empty selection is legal");
    manager.stop_streaming().expect("stopping always succeeds");
    assert!(!manager.get_status().streaming);
}

#[test]
fn test_events_drive_streaming_and_probing() {
    let mut manager = manager_with(&["cam-a"]);
    assert!(matches!(
        manager.handle_event(&GlobalMessage::StartCameras(vec![])),
        EspStep::Noop
    ));
    assert!(manager.status.streaming);
    assert!(matches!(
        manager.handle_event(&GlobalMessage::StopCameras),
        EspStep::Noop
    ));
    assert!(!manager.status.streaming);

    match manager.handle_event(&GlobalMessage::DetectCameras) {
        EspStep::Probe(targets) => assert_eq!(targets, vec!["http://cam-a".to_string()]),
        other => panic!("unexpected step: {other:?}"),
    }
}

#[test]
fn test_no_command_honored_after_shutdown() {
    let mut manager = manager_with(&["cam-a"]);
    assert!(matches!(
        manager.handle_event(&GlobalMessage::Shutdown),
        EspStep::Exit
    ));
    // Every later command is dropped rather than honored or left hanging.
    assert!(matches!(
        manager.handle_event(&GlobalMessage::StartCameras(vec![])),
        EspStep::Dropped
    ));
    assert!(!manager.status.streaming);
    assert!(matches!(
        manager.handle_event(&GlobalMessage::DetectCameras),
        EspStep::Dropped
    ));
}

#[test]
fn test_probe_url_prefixes_scheme_only_when_missing() {
    assert_eq!(
        probe_url("cam-a.local"),
        "http://cam-a.local/text_sensor/device_info"
    );
    assert_eq!(
        probe_url("http://cam-a.local"),
        "http://cam-a.local/text_sensor/device_info"
    );
}
