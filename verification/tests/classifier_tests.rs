use lekiwi_agent::robot_type::{ProbeResults, RobotType};

fn nothing() -> ProbeResults {
    ProbeResults {
        depth_camera_node: false,
        video_device_names: Vec::new(),
        actuator_bus: false,
        actuator_probe: None,
        usb_listing: None,
    }
}

#[test]
fn no_evidence_is_unknown() {
    assert_eq!(RobotType::detect(&nothing()), RobotType::Unknown);
}

#[test]
fn depth_camera_node_means_dual_arm() {
    let mut probes = nothing();
    probes.depth_camera_node = true;
    assert_eq!(RobotType::detect(&probes), RobotType::XLE);
}

#[test]
fn depth_camera_name_means_dual_arm() {
    let mut probes = nothing();
    probes.video_device_names =
        vec!["bcm2835-codec".to_string(), "Intel(R) RealSense(TM) Depth Camera 435\n".to_string()];
    assert_eq!(RobotType::detect(&probes), RobotType::XLE);
}

#[test]
fn other_video_devices_are_no_evidence() {
    let mut probes = nothing();
    probes.video_device_names = vec!["bcm2835-codec".to_string(), "USB Webcam".to_string()];
    assert_eq!(RobotType::detect(&probes), RobotType::Unknown);
}

#[test]
fn actuator_bus_with_answer_means_mobile_base() {
    let mut probes = nothing();
    probes.actuator_bus = true;
    probes.actuator_probe = Some("     0  1  2\n40: 40\n".to_string());
    assert_eq!(RobotType::detect(&probes), RobotType::Lekiwi);
}

#[test]
fn actuator_bus_without_answer_is_no_evidence() {
    let mut probes = nothing();
    probes.actuator_bus = true;
    probes.actuator_probe = Some("     0  1  2\n30: --\n".to_string());
    assert_eq!(RobotType::detect(&probes), RobotType::Unknown);
    probes.actuator_probe = None;
    assert_eq!(RobotType::detect(&probes), RobotType::Unknown);
}

#[test]
fn probe_answer_without_bus_is_no_evidence() {
    let mut probes = nothing();
    probes.actuator_bus = false;
    probes.actuator_probe = Some("40: 40".to_string());
    assert_eq!(RobotType::detect(&probes), RobotType::Unknown);
}

#[test]
fn arm_controller_vendor_means_dual_arm() {
    let mut probes = nothing();
    probes.usb_listing =
        Some("Bus 001 Device 004: ID 0483:5740 STMicroelectronics Virtual COM Port".to_string());
    assert_eq!(RobotType::detect(&probes), RobotType::XLE);
    probes.usb_listing = Some("Bus 001 Device 005: ID 0403:6001 FTDI FT232".to_string());
    assert_eq!(RobotType::detect(&probes), RobotType::XLE);
    probes.usb_listing = Some("Bus 001 Device 001: ID 1d6b:0002 Linux Foundation".to_string());
    assert_eq!(RobotType::detect(&probes), RobotType::Unknown);
}

#[test]
fn depth_camera_wins_over_actuator_bus() {
    let mut probes = nothing();
    probes.video_device_names = vec!["Intel RealSense D435".to_string()];
    probes.actuator_bus = true;
    probes.actuator_probe = Some("40: 40".to_string());
    assert_eq!(RobotType::detect(&probes), RobotType::XLE);
    probes.video_device_names = Vec::new();
    probes.depth_camera_node = true;
    assert_eq!(RobotType::detect(&probes), RobotType::XLE);
}

#[test]
fn actuator_bus_wins_over_usb_vendor() {
    let mut probes = nothing();
    probes.actuator_bus = true;
    probes.actuator_probe = Some("40: 40".to_string());
    probes.usb_listing = Some("FTDI".to_string());
    assert_eq!(RobotType::detect(&probes), RobotType::Lekiwi);
}
