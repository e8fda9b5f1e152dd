use shell_sorter::error::SorterError;
use shell_sorter::protocol::{
    reply_or_unavailable, ApiResponse, CameraType, EventBus, GlobalMessage,
};
use shell_sorter::web_server::{brightness_command, camera_types_of, split_camera_ids};

#[test]
fn test_camera_tyoe() {
    let camera_id = "usb:1234".to_string();
    let camera_type = CameraType::from_id(camera_id);
    assert!(matches!(camera_type, CameraType::Usb(_)));
    assert_eq!("usb:1234".to_string(), camera_type.to_id());

    let camera_id = "camera1".to_string();
    let camera_type = CameraType::from_id(camera_id);
    assert!(matches!(camera_type, CameraType::EspHome(_)));
    assert_eq!("camera1".to_string(), camera_type.to_id());
}

#[test]
fn test_camera_type_strips_usb_prefix() {
    match CameraType::from_id("usb:ABCD:1234:serial".to_string()) {
        CameraType::Usb(name) => assert_eq!(name, "ABCD:1234:serial"),
        CameraType::EspHome(_) => panic!("expected a USB camera"),
    }
}

#[test]
fn test_api_response_envelope() {
    let ok: ApiResponse<u32> = ApiResponse::success(7);
    assert!(ok.success);
    assert_eq!(ok.data, Some(7));
    assert_eq!(ok.message, "Success");

    let err: ApiResponse<u32> = ApiResponse::error("boom".to_string());
    assert!(!err.success);
    assert_eq!(err.data, None);
    assert_eq!(err.message, "boom");
}

#[test]
fn test_reply_or_unavailable_translation() {
    assert_eq!(reply_or_unavailable(Some(3u8)), Ok(3u8));
    assert_eq!(
        reply_or_unavailable::<u8>(None),
        Err(SorterError::ActorUnavailable)
    );
}

#[test]
fn test_event_bus_delivers_in_order_exactly_once() {
    let mut bus = EventBus::new();
    let mut sub = bus.subscribe();
    bus.publish(GlobalMessage::NextCase);
    bus.publish(GlobalMessage::StopCameras);

    let mut late = bus.subscribe();

    assert!(matches!(bus.next(&mut sub), Some(GlobalMessage::NextCase)));
    assert!(matches!(bus.next(&mut sub), Some(GlobalMessage::StopCameras)));
    assert!(bus.next(&mut sub).is_none());

    // A subscriber only ever sees events published after it subscribed.
    assert!(bus.next(&mut late).is_none());
}

#[test]
fn test_brightness_command_rejects_out_of_range() {
    assert!(matches!(
        brightness_command("usb:cam".to_string(), 256),
        Err(SorterError::InvalidState(_))
    ));
    assert!(matches!(
        brightness_command("usb:cam".to_string(), -1),
        Err(SorterError::InvalidState(_))
    ));
}

#[test]
fn test_brightness_command_rejects_network_cameras() {
    assert!(matches!(
        brightness_command("esp32cam1.local".to_string(), 100),
        Err(SorterError::InvalidState(_))
    ));
}

#[test]
fn test_brightness_command_targets_usb_camera() {
    match brightness_command("usb:cam".to_string(), 100) {
        Ok(GlobalMessage::SetCameraBrightness {
            camera_id: CameraType::Usb(name),
            brightness,
        }) => {
            assert_eq!(name, "cam");
            assert_eq!(brightness, 100);
        }
        other => panic!("unexpected command: {other:?}"),
    }
}

#[test]
fn test_split_camera_ids_partitions_by_prefix() {
    let ids = vec![
        "usb:a".to_string(),
        "cam1".to_string(),
        "usb:b".to_string(),
        "cam2".to_string(),
    ];
    let (usb, esp) = split_camera_ids(ids);
    assert_eq!(usb, vec!["usb:a".to_string(), "usb:b".to_string()]);
    assert_eq!(esp, vec!["cam1".to_string(), "cam2".to_string()]);
}

#[test]
fn test_camera_types_of_classifies_each_id() {
    let types = camera_types_of(vec!["usb:x".to_string(), "cam".to_string()]);
    assert_eq!(types.len(), 2);
    assert!(matches!(&types[0], CameraType::Usb(n) if n == "x"));
    assert!(matches!(&types[1], CameraType::EspHome(n) if n == "cam"));
}

#[test]
fn test_error_messages() {
    assert_eq!(
        SorterError::Transport("timed out".to_string()).message(),
        "Transport error: timed out"
    );
    assert_eq!(
        SorterError::Protocol(404).message(),
        "Device answered with status 404"
    );
    assert_eq!(
        SorterError::NotFound("usb:ghost".to_string()).message(),
        "Not found: usb:ghost"
    );
    assert_eq!(
        SorterError::InvalidState("offline".to_string()).message(),
        "Invalid state: offline"
    );
    assert_eq!(SorterError::ActorUnavailable.message(), "Actor is not available");
}
