use shell_sorter::error::SorterError;
use shell_sorter::usb_camera_controller::{
    apply_gain, create_camera_info, default_formats, finish_capture, CameraFormatInfo,
    UsbCameraManager, UsbCameraRequest, UsbReply, UsbStep,
};

fn manager_with(cameras: &[(u32, &str, &str)]) -> UsbCameraManager {
    let mut manager = UsbCameraManager::new();
    let detected = cameras
        .iter()
        .map(|(index, name, desc)| create_camera_info(*index, name.to_string(), desc))
        .collect();
    manager.apply_detection(detected, 1_000);
    manager.begin_running();
    manager
}

#[test]
fn test_detection_builds_hardware_ids_from_description() {
    let info = create_camera_info(0, "Front Camera".to_string(), "VID_1234 PID_5678 SER_9ABC");
    assert_eq!(info.vendor_id.as_deref(), Some("1234"));
    assert_eq!(info.product_id.as_deref(), Some("5678"));
    assert_eq!(info.serial_number.as_deref(), Some("9ABC"));
    assert_eq!(info.hardware_id, "usb:1234:5678:9ABC");
    assert!(info.connected);
    assert_eq!(info.supported_formats.len(), 4);
    assert!(info.current_format.is_none());
}

#[test]
fn test_detection_falls_back_to_lowercased_name() {
    let info = create_camera_info(1, "My Camera".to_string(), "VID_1234 PID_5678");
    assert_eq!(info.serial_number, None);
    assert_eq!(info.hardware_id, "usb:1234:5678:my_camera");
}

#[test]
fn test_detection_falls_back_to_description_and_index() {
    let info = create_camera_info(3, "Webcam".to_string(), "Fancy Webcam");
    assert_eq!(info.vendor_id, None);
    assert_eq!(info.hardware_id, "usb:fancy_webcam:3");
}

#[test]
fn test_default_formats_table() {
    let formats = default_formats();
    let dims: Vec<(u32, u32, u32)> = formats.iter().map(|f| (f.width, f.height, f.fps)).collect();
    assert_eq!(
        dims,
        vec![(320, 240, 30), (640, 480, 30), (1280, 720, 30), (1920, 1080, 30)]
    );
    assert!(formats.iter().all(|f| f.format == "MJPEG"));
}

#[test]
fn test_redetection_drops_vanished_camera() {
    let mut manager = manager_with(&[
        (0, "Cam A", "VID_1111 PID_0001"),
        (1, "Cam B", "VID_2222 PID_0002"),
    ]);
    assert_eq!(manager.list_cameras().len(), 2);

    // Second enumeration no longer lists camera B.
    let second = vec![create_camera_info(0, "Cam A".to_string(), "VID_1111 PID_0001")];
    manager.apply_detection(second, 2_000);

    let listed = manager.list_cameras();
    assert_eq!(listed.len(), 1);
    assert_eq!(listed[0].hardware_id, "usb:1111:0001:cam_a");
    assert_eq!(manager.status.last_detection, Some(2_000));
}

#[test]
fn test_detection_collapses_duplicate_ids() {
    let mut manager = UsbCameraManager::new();
    let twin_a = create_camera_info(0, "Twin".to_string(), "VID_1111 PID_0001");
    let twin_b = create_camera_info(1, "Twin".to_string(), "VID_1111 PID_0001");
    let returned = manager.apply_detection(vec![twin_a, twin_b], 500);
    assert_eq!(returned.len(), 2);
    let listed = manager.list_cameras();
    assert_eq!(listed.len(), 1);
    // The last occurrence wins, as when entries share a key in a map.
    assert_eq!(listed[0].index, 1);
}

#[test]
fn test_select_unknown_id_changes_nothing() {
    let mut manager = manager_with(&[(0, "Cam A", "VID_1111 PID_0001")]);
    manager
        .select_cameras(vec!["usb:1111:0001:cam_a".to_string()])
        .expect("selection of a known camera succeeds");

    let err = manager
        .select_cameras(vec!["usb:1111:0001:cam_a".to_string(), "usb:unknown".to_string()])
        .expect_err("selection with an unknown id fails");
    assert_eq!(err, SorterError::NotFound("usb:unknown".to_string()));
    // All-or-nothing: the earlier selection still stands.
    assert_eq!(manager.status.selected_cameras, vec!["usb:1111:0001:cam_a".to_string()]);
}

#[test]
fn test_usb_start_then_stop_leaves_streaming_false() {
    let mut manager = manager_with(&[]);
    assert!(manager.status.selected_cameras.is_empty());
    manager.start_streaming().expect("starting with an empty selection is legal");
    assert!(manager.status.streaming);
    manager.stop_streaming().expect("stopping always succeeds");
    assert!(!manager.status.streaming);
}

#[test]
fn test_usb_capture_plan_unknown_camera_fails_not_found() {
    let manager = manager_with(&[(0, "Cam A", "VID_1111 PID_0001")]);
    let err = manager.capture_plan("usb:ghost").expect_err("unknown camera");
    assert_eq!(err, SorterError::NotFound("usb:ghost".to_string()));
}

#[test]
fn test_capture_plan_returns_index_and_brightness() {
    let mut manager = manager_with(&[(5, "Cam A", "VID_1111 PID_0001")]);
    manager
        .set_brightness("usb:1111:0001:cam_a", 80)
        .expect("brightness in range for a known camera");
    let plan = manager.capture_plan("usb:1111:0001:cam_a").expect("known camera");
    assert_eq!(plan, (5, 80));
}

#[test]
fn test_brightness_out_of_range_rejected_without_mutation() {
    let mut manager = manager_with(&[(0, "Cam A", "VID_1111 PID_0001")]);
    let id = "usb:1111:0001:cam_a";
    manager.set_brightness(id, 70).expect("in-range value accepted");
    assert_eq!(manager.get_brightness(id), Ok(70));

    let err = manager.set_brightness(id, 300).expect_err("out-of-range value rejected");
    assert!(matches!(err, SorterError::InvalidState(_)));
    // The stored value is unchanged by the rejected call.
    assert_eq!(manager.get_brightness(id), Ok(70));
}

#[test]
fn test_brightness_defaults_to_neutral() {
    let manager = manager_with(&[(0, "Cam A", "VID_1111 PID_0001")]);
    assert_eq!(manager.get_brightness("usb:1111:0001:cam_a"), Ok(50));
    assert!(matches!(
        manager.get_brightness("usb:ghost"),
        Err(SorterError::NotFound(_))
    ));
}

#[test]
fn test_brightness_unknown_camera_rejected() {
    let mut manager = manager_with(&[(0, "Cam A", "VID_1111 PID_0001")]);
    let err = manager.set_brightness("usb:ghost", 10).expect_err("unknown camera");
    assert_eq!(err, SorterError::NotFound("usb:ghost".to_string()));
}

#[test]
fn test_set_camera_format_records_choice() {
    let mut manager = manager_with(&[(0, "Cam A", "VID_1111 PID_0001")]);
    let format = CameraFormatInfo { width: 640, height: 480, fps: 30, format: "MJPEG".to_string() };
    manager
        .set_camera_format("usb:1111:0001:cam_a", format)
        .expect("format updates always succeed");
    let listed = manager.list_cameras();
    let current = listed[0].current_format.as_ref().expect("format was recorded");
    assert_eq!((current.width, current.height), (640, 480));
}

#[test]
fn test_apply_gain_neutral_and_extremes() {
    let mut pixels = vec![0u8, 50, 100, 200, 255];
    apply_gain(&mut pixels, 50);
    assert_eq!(pixels, vec![0, 50, 100, 200, 255]);

    let mut dark = vec![0u8, 50, 100, 200, 255];
    apply_gain(&mut dark, 0);
    assert_eq!(dark, vec![0, 0, 0, 0, 0]);

    let mut half = vec![100u8, 201];
    apply_gain(&mut half, 25);
    assert_eq!(half, vec![50, 100]);

    let mut bright = vec![10u8, 100];
    apply_gain(&mut bright, 100);
    // Factor 4: 10 -> 40, 100 -> 400 clamped to 255.
    assert_eq!(bright, vec![40, 255]);
}

#[test]
fn test_finish_capture_encodes_jpeg() {
    let rgb = vec![128u8; 3 * 4 * 2];
    let jpeg = finish_capture(4, 2, rgb.clone(), 50).expect("encoding a well-formed frame");
    assert!(jpeg.len() > 4);
    assert_eq!(&jpeg[0..2], &[0xFF, 0xD8]);
    assert_ne!(jpeg, rgb);
}

#[test]
fn test_dispatch_honors_commands_only_while_running() {
    let mut manager = manager_with(&[(0, "Cam A", "VID_1111 PID_0001")]);
    match manager.handle_request(UsbCameraRequest::StartStreaming) {
        UsbStep::Reply(UsbReply::Done) => {}
        other => panic!("unexpected step: {other:?}"),
    }
    assert!(manager.status.streaming);

    // After a shutdown no command is honored: the reply slot is dropped.
    manager.begin_draining();
    manager.stop();
    assert!(matches!(
        manager.handle_request(UsbCameraRequest::StopStreaming),
        UsbStep::Dropped
    ));
    assert!(manager.status.streaming, "a dropped command must not touch state");

    let listed = matches!(
        manager.handle_request(UsbCameraRequest::ListCameras),
        UsbStep::Dropped
    );
    assert!(listed);
}

#[test]
fn test_dispatch_detect_and_capture_steps() {
    let mut manager = manager_with(&[(7, "Cam A", "VID_1111 PID_0001")]);
    assert!(matches!(
        manager.handle_request(UsbCameraRequest::DetectCameras),
        UsbStep::Enumerate
    ));
    match manager.handle_request(UsbCameraRequest::CaptureImage {
        hardware_id: "usb:1111:0001:cam_a".to_string(),
    }) {
        UsbStep::Capture { index, brightness } => {
            assert_eq!(index, 7);
            assert_eq!(brightness, 50);
        }
        other => panic!("unexpected step: {other:?}"),
    }
    match manager.handle_request(UsbCameraRequest::CaptureImage {
        hardware_id: "usb:ghost".to_string(),
    }) {
        UsbStep::Reply(UsbReply::Failed(SorterError::NotFound(id))) => {
            assert_eq!(id, "usb:ghost");
        }
        other => panic!("unexpected step: {other:?}"),
    }
}

#[test]
fn test_dispatch_get_status_snapshot() {
    let mut manager = manager_with(&[(0, "Cam A", "VID_1111 PID_0001")]);
    manager
        .select_cameras(vec!["usb:1111:0001:cam_a".to_string()])
        .expect("known camera");
    match manager.handle_request(UsbCameraRequest::GetStatus) {
        UsbStep::Reply(UsbReply::Status(status)) => {
            assert_eq!(status.selected_cameras, vec!["usb:1111:0001:cam_a".to_string()]);
            assert!(!status.streaming);
            assert_eq!(status.cameras.len(), 1);
        }
        other => panic!("unexpected step: {other:?}"),
    }
}

#[test]
fn test_finish_capture_rejects_empty_dimensions() {
    // Outside JPEG's 1..=65535 dimension range nothing is owed, and the
    // encoder indeed refuses a zero-sized frame.
    assert!(finish_capture(0, 0, vec![], 50).is_err());
}
