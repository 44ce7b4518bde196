use serial_core::config::{DeviceRole, SerialConfig, SerialDeviceConfig, ValidationError};
use serial_core::log_config::LogConfig;

fn device(id: &str, name: &str, port: &str) -> SerialDeviceConfig {
    SerialDeviceConfig {
        device_id: id.to_string(),
        name: name.to_string(),
        role: DeviceRole::Scanner,
        port: port.to_string(),
        baud_rate: 9600,
        data_bits: 8,
        stop_bits: 1,
        parity: "None".to_string(),
        enabled: true,
    }
}

#[test]
fn valid_set_passes() {
    let cfg = SerialConfig {
        devices: vec![device("scanner_0", "Scanner", "COM3"), device("plc_0", "PLC", "COM4")],
    };
    assert_eq!(cfg.validate(), Ok(()));
}

#[test]
fn empty_set_passes() {
    let cfg = SerialConfig { devices: vec![] };
    assert_eq!(cfg.validate(), Ok(()));
}

#[test]
fn empty_device_id_rejected() {
    let cfg = SerialConfig { devices: vec![device("", "Nameless", "COM1")] };
    assert_eq!(cfg.validate(), Err(ValidationError::EmptyDeviceId));
}

#[test]
fn empty_port_rejected_with_name() {
    let cfg = SerialConfig { devices: vec![device("d1", "Scanner A", "")] };
    assert_eq!(cfg.validate(), Err(ValidationError::EmptyPort("Scanner A".to_string())));
}

#[test]
fn zero_baud_rejected_with_name() {
    let mut d = device("d1", "PLC B", "COM2");
    d.baud_rate = 0;
    let cfg = SerialConfig { devices: vec![d] };
    assert_eq!(cfg.validate(), Err(ValidationError::ZeroBaudRate("PLC B".to_string())));
}

#[test]
fn bad_data_bits_rejected() {
    let mut d = device("d1", "Light C", "COM2");
    d.data_bits = 9;
    let cfg = SerialConfig { devices: vec![d] };
    assert_eq!(cfg.validate(), Err(ValidationError::InvalidDataBits("Light C".to_string())));
}

#[test]
fn bad_stop_bits_rejected() {
    let mut d = device("d1", "Robot D", "COM2");
    d.stop_bits = 3;
    let cfg = SerialConfig { devices: vec![d] };
    assert_eq!(cfg.validate(), Err(ValidationError::InvalidStopBits("Robot D".to_string())));
}

#[test]
fn first_offending_device_reported() {
    let mut late = device("d2", "Second", "COM5");
    late.baud_rate = 0;
    let cfg = SerialConfig {
        devices: vec![device("d0", "First", "COM1"), device("d1", "Middle", ""), late],
    };
    assert_eq!(cfg.validate(), Err(ValidationError::EmptyPort("Middle".to_string())));
}

#[test]
fn first_failing_check_wins_within_device() {
    let mut d = device("d1", "Multi", "");
    d.baud_rate = 0;
    d.data_bits = 9;
    let cfg = SerialConfig { devices: vec![d] };
    assert_eq!(cfg.validate(), Err(ValidationError::EmptyPort("Multi".to_string())));
}

#[test]
fn find_device_returns_first_match() {
    let cfg = SerialConfig {
        devices: vec![device("a", "One", "COM1"), device("b", "Two", "COM2")],
    };
    let found = cfg.find_device("b").expect("device b should be found");
    assert_eq!(found.name, "Two");
    assert_eq!(found.port, "COM2");
}

#[test]
fn find_device_missing_is_none() {
    let cfg = SerialConfig { devices: vec![device("a", "One", "COM1")] };
    assert!(cfg.find_device("zzz").is_none());
}

#[test]
fn default_log_config_is_valid() {
    let cfg = LogConfig::default();
    assert_eq!(cfg.max_file_size, Some(10 * 1024 * 1024));
    assert_eq!(cfg.keep_files, 10);
    assert_eq!(cfg.level, "Info");
    assert!(cfg.to_stdout);
    assert_eq!(cfg.validate(), Ok(()));
}

#[test]
fn zero_keep_files_rejected() {
    let mut cfg = LogConfig::default();
    cfg.keep_files = 0;
    assert_eq!(cfg.validate(), Err("keep_files must be >= 1".to_string()));
}

#[test]
fn zero_max_file_size_rejected() {
    let mut cfg = LogConfig::default();
    cfg.max_file_size = Some(0);
    assert_eq!(cfg.validate(), Err("max_file_size must be > 0".to_string()));
}

#[test]
fn absent_max_file_size_accepted() {
    let mut cfg = LogConfig::default();
    cfg.max_file_size = None;
    assert_eq!(cfg.validate(), Ok(()));
}
