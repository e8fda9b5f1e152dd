use shell_sorter::config::ViewType;
use shell_sorter::shell_data::{CameraRegion, CapturedImage, Shell, ShellDataManager};

#[test]
fn test_view_type_serialization() {
    assert_eq!(ViewType::Side.label(), "side");
    assert_eq!(ViewType::Tail.label(), "tail");
    assert_eq!(ViewType::Unknown.label(), "unknown");
}

#[test]
fn test_view_type_parsing() {
    assert_eq!(
        "side"
            .parse::<ViewType>()
            .expect("Test operation should succeed"),
        ViewType::Side
    );
    assert_eq!(
        "TAIL"
            .parse::<ViewType>()
            .expect("Test operation should succeed"),
        ViewType::Tail
    );
    assert!("invalid".parse::<ViewType>().is_err());
}

#[test]
fn test_camera_region_complete() {
    let region = CameraRegion::new(ViewType::Side, Some(10), Some(20), Some(100), Some(200));
    assert!(region.is_complete());
    assert_eq!(region.as_rect(), Some((10, 20, 100, 200)));

    let incomplete = CameraRegion::new(ViewType::Side, Some(10), None, Some(100), Some(200));
    assert!(!incomplete.is_complete());
    assert_eq!(incomplete.as_rect(), None);
}

#[test]
fn test_shell_case_type_key() {
    let shell = Shell::new("Winchester".to_string(), "9mm".to_string());
    assert_eq!(shell.get_case_type_key(), "Winchester_9mm");
}

#[test]
fn test_captured_image_region() {
    let mut image = CapturedImage::new(
        0,
        "test.jpg".to_string(),
        "Camera 1".to_string(),
        ViewType::Side,
    );

    assert!(!image.has_complete_region());

    let region = CameraRegion::new(ViewType::Tail, Some(5), Some(10), Some(50), Some(100));
    image.set_region(&region);

    assert!(image.has_complete_region());
    assert_eq!(image.view_type, ViewType::Tail);
    assert_eq!(image.region_x, Some(5));
}

#[test]
fn test_camera_region_default_is_empty() {
    let region = CameraRegion::default();
    assert_eq!(region.view_type, ViewType::Unknown);
    assert!(!region.is_complete());
    assert_eq!(region.as_rect(), None);
}

#[test]
fn test_captured_image_get_region_round_trip() {
    let mut image = CapturedImage::new(
        2,
        "shot.jpg".to_string(),
        "Camera 2".to_string(),
        ViewType::Unknown,
    );
    let region = CameraRegion::new(ViewType::Side, Some(1), Some(2), Some(3), Some(4));
    image.set_region(&region);
    assert_eq!(image.get_region(), region);
}

#[test]
fn test_shell_image_bookkeeping() {
    let mut shell = Shell::new("Federal".to_string(), "308win".to_string());
    assert_eq!(shell.image_count(), 0);
    assert!(!shell.has_complete_regions());

    shell.add_image("a.jpg".to_string());
    shell.add_image("b.jpg".to_string());
    assert_eq!(shell.image_filenames, vec!["a.jpg".to_string(), "b.jpg".to_string()]);

    let mut img = CapturedImage::new(0, "a.jpg".to_string(), "Camera 1".to_string(), ViewType::Side);
    shell.add_captured_image(img.clone());
    assert_eq!(shell.image_count(), 1);
    assert!(!shell.has_complete_regions());

    img.set_region(&CameraRegion::new(ViewType::Side, Some(0), Some(0), Some(8), Some(8)));
    shell.add_captured_image(img);
    assert_eq!(shell.image_count(), 2);
    assert!(!shell.has_complete_regions());
}

#[test]
fn test_shell_images_by_view_type_groups_in_order() {
    let mut shell = Shell::new("CCI".to_string(), "22lr".to_string());
    let side_a = CapturedImage::new(0, "s0.jpg".to_string(), "Camera 0".to_string(), ViewType::Side);
    let tail = CapturedImage::new(1, "t0.jpg".to_string(), "Camera 1".to_string(), ViewType::Tail);
    let side_b = CapturedImage::new(2, "s1.jpg".to_string(), "Camera 2".to_string(), ViewType::Side);
    shell.add_captured_image(side_a.clone());
    shell.add_captured_image(tail.clone());
    shell.add_captured_image(side_b.clone());

    let groups = shell.images_by_view_type();
    assert_eq!(groups.len(), 2);
    assert_eq!(groups[0].0, ViewType::Side);
    assert_eq!(groups[0].1, vec![side_a, side_b]);
    assert_eq!(groups[1].0, ViewType::Tail);
    assert_eq!(groups[1].1, vec![tail]);
}

#[test]
fn test_shell_default_included_and_empty() {
    let shell = Shell::default();
    assert_eq!(shell.brand, "");
    assert_eq!(shell.shell_type, "");
    assert!(shell.image_filenames.is_empty());
    assert!(shell.captured_images.is_none());
    assert!(shell.include_in_training);
}

#[test]
fn test_shell_file_path_layout() {
    let manager = ShellDataManager::new("/var/lib/sorter".to_string());
    assert_eq!(
        manager.shell_file_path("session-1"),
        "/var/lib/sorter/session-1.json"
    );
}

#[test]
fn test_generate_session_id_is_fresh() {
    let a = ShellDataManager::generate_session_id();
    let b = ShellDataManager::generate_session_id();
    assert_eq!(a.len(), 36);
    assert_ne!(a, b);
}
