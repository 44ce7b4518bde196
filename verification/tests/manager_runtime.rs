use serial_core::config::{DeviceRole, SerialDeviceConfig};
use serial_core::manager::{SendError, SerialManager};

fn enabled_device(id: &str) -> SerialDeviceConfig {
    SerialDeviceConfig {
        device_id: id.to_string(),
        name: id.to_string(),
        role: DeviceRole::Light,
        port: "COM9".to_string(),
        baud_rate: 9600,
        data_bits: 8,
        stop_bits: 1,
        parity: "None".to_string(),
        enabled: true,
    }
}

#[test]
fn register_then_send_routes_to_handle() {
    let mut m: SerialManager<u32> = SerialManager::new();
    assert!(m.register("light_a", 7));
    assert_eq!(m.send_to_device("light_a"), Ok(&7));
    assert!(m.is_running("light_a"));
    assert_eq!(m.running_count(), 1);
}

#[test]
fn send_to_never_started_device_fails() {
    let m: SerialManager<u32> = SerialManager::new();
    assert_eq!(m.send_to_device("ghost"), Err(SendError::DeviceNotRunning));
}

#[test]
fn second_registration_is_refused() {
    let mut m: SerialManager<u32> = SerialManager::new();
    assert!(m.register("scanner_0", 1));
    assert!(!m.register("scanner_0", 2));
    assert_eq!(m.running_count(), 1);
    assert_eq!(m.send_to_device("scanner_0"), Ok(&1));
}

#[test]
fn start_decision_skips_running_and_disabled() {
    let mut m: SerialManager<u32> = SerialManager::new();
    let dev = enabled_device("plc_0");
    assert!(m.should_start(&dev));
    m.register("plc_0", 3);
    assert!(!m.should_start(&dev));
    let mut off = enabled_device("plc_1");
    off.enabled = false;
    assert!(!m.should_start(&off));
}

#[test]
fn stop_all_returns_handles_in_order_and_empties() {
    let mut m: SerialManager<u32> = SerialManager::new();
    m.register("a", 1);
    m.register("b", 2);
    m.register("c", 3);
    let handles = m.stop_all();
    assert_eq!(handles, vec![1, 2, 3]);
    assert_eq!(m.running_count(), 0);
}

#[test]
fn stop_then_send_fails_like_never_started() {
    let mut m: SerialManager<u32> = SerialManager::new();
    m.register("scanner_0", 11);
    m.register("robot_0", 12);
    m.stop_all();
    assert_eq!(m.send_to_device("scanner_0"), Err(SendError::DeviceNotRunning));
    assert_eq!(m.send_to_device("robot_0"), Err(SendError::DeviceNotRunning));
    assert_eq!(m.send_to_device("never_there"), Err(SendError::DeviceNotRunning));
}

#[test]
fn device_can_be_started_again_after_stop() {
    let mut m: SerialManager<u32> = SerialManager::new();
    let dev = enabled_device("camera_0");
    m.register("camera_0", 5);
    m.stop_all();
    assert!(m.should_start(&dev));
    assert!(m.register("camera_0", 6));
    assert_eq!(m.send_to_device("camera_0"), Ok(&6));
}
