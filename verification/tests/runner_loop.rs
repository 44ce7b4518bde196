use serial_core::config::{DeviceRole, SerialDeviceConfig};
use serial_core::events::SerialEvent;
use serial_core::runner::{ReadEvent, RunnerState};

fn scanner() -> SerialDeviceConfig {
    SerialDeviceConfig {
        device_id: "scanner_0".to_string(),
        name: "Scanner".to_string(),
        role: DeviceRole::Scanner,
        port: "/dev/ttyUSB0".to_string(),
        baud_rate: 115200,
        data_bits: 8,
        stop_bits: 1,
        parity: "None".to_string(),
        enabled: true,
    }
}

#[test]
fn fault_emits_error_then_disconnect_and_exits() {
    let mut r = RunnerState::new(&scanner());
    let out = r.step(ReadEvent::Fault("device unplugged".to_string()), 1111);
    assert!(out.exit);
    assert!(!out.log_diagnostic);
    assert_eq!(out.events.len(), 2);
    match &out.events[0] {
        SerialEvent::Error(p) => {
            assert_eq!(p.device_id, "scanner_0");
            assert_eq!(p.port, "/dev/ttyUSB0");
            assert_eq!(p.error, "device unplugged");
            assert_eq!(p.timestamp_ms, 1111);
        },
        _ => panic!("first event must be the error"),
    }
    match &out.events[1] {
        SerialEvent::Status(p) => {
            assert_eq!(p.device_id, "scanner_0");
            assert_eq!(p.port, "/dev/ttyUSB0");
            assert!(!p.connected);
            assert_eq!(p.timestamp_ms, 1111);
        },
        _ => panic!("second event must be the disconnected status"),
    }
}

#[test]
fn cancellation_exits_without_events() {
    let mut r = RunnerState::new(&scanner());
    r.step(ReadEvent::Data(b"PART".to_vec()), 1);
    let out = r.step(ReadEvent::Cancelled, 2);
    assert!(out.exit);
    assert!(!out.log_diagnostic);
    assert!(out.events.is_empty());
}

#[test]
fn data_becomes_ordered_data_events() {
    let mut r = RunnerState::new(&scanner());
    let out = r.step(ReadEvent::Data(b"OK1\nOK2\r".to_vec()), 42);
    assert!(!out.exit);
    assert_eq!(out.events.len(), 2);
    let texts: Vec<String> = out
        .events
        .iter()
        .map(|ev| match ev {
            SerialEvent::Data(p) => p.data_str.clone().expect("ascii decodes"),
            _ => panic!("only data events expected"),
        })
        .collect();
    assert_eq!(texts, vec!["OK1".to_string(), "OK2".to_string()]);
    match &out.events[0] {
        SerialEvent::Data(p) => {
            assert_eq!(p.device_id, "scanner_0");
            assert_eq!(p.role, DeviceRole::Scanner);
            assert_eq!(p.port, "/dev/ttyUSB0");
            assert_eq!(p.data, b"OK1".to_vec());
            assert_eq!(p.timestamp_ms, 42);
        },
        _ => panic!("expected a data event"),
    }
}

#[test]
fn line_event_text_is_trimmed_size_event_text_is_not() {
    let mut r = RunnerState::new(&scanner());
    let out = r.step(ReadEvent::Data(b"  X  \n".to_vec()), 5);
    assert_eq!(out.events.len(), 1);
    match &out.events[0] {
        SerialEvent::Data(p) => {
            assert_eq!(p.data, b"  X  ".to_vec());
            assert_eq!(p.data_str, Some("X".to_string()));
        },
        _ => panic!("expected a data event"),
    }
    let mut r2 = RunnerState::new(&scanner());
    let out2 = r2.step(ReadEvent::Data(vec![b' '; 64]), 6);
    assert_eq!(out2.events.len(), 1);
    match &out2.events[0] {
        SerialEvent::Data(p) => {
            assert_eq!(p.data.len(), 64);
            assert_eq!(p.data_str, Some(" ".repeat(64)));
        },
        _ => panic!("expected a data event"),
    }
}

#[test]
fn empty_read_is_a_noop() {
    let mut r = RunnerState::new(&scanner());
    r.step(ReadEvent::Timeout, 1);
    let count_before = r.timeout_count;
    let out = r.step(ReadEvent::Data(Vec::new()), 2);
    assert!(!out.exit);
    assert!(out.events.is_empty());
    assert_eq!(r.timeout_count, count_before);
}

#[test]
fn diagnostic_every_fiftieth_consecutive_timeout() {
    let mut r = RunnerState::new(&scanner());
    for _ in 0..49 {
        let out = r.step(ReadEvent::Timeout, 7);
        assert!(!out.log_diagnostic);
        assert!(out.events.is_empty());
        assert!(!out.exit);
    }
    let out = r.step(ReadEvent::Timeout, 7);
    assert!(out.log_diagnostic);
    assert_eq!(r.timeout_count, 50);
}

#[test]
fn data_resets_the_consecutive_timeout_count() {
    let mut r = RunnerState::new(&scanner());
    for _ in 0..49 {
        r.step(ReadEvent::Timeout, 8);
    }
    r.step(ReadEvent::Data(b"X\n".to_vec()), 9);
    assert_eq!(r.timeout_count, 0);
    for _ in 0..49 {
        let out = r.step(ReadEvent::Timeout, 10);
        assert!(!out.log_diagnostic);
    }
    let out = r.step(ReadEvent::Timeout, 11);
    assert!(out.log_diagnostic);
}

#[test]
fn connected_event_reports_the_device() {
    let r = RunnerState::new(&scanner());
    match r.connected_event(99) {
        SerialEvent::Status(p) => {
            assert_eq!(p.device_id, "scanner_0");
            assert_eq!(p.port, "/dev/ttyUSB0");
            assert!(p.connected);
            assert_eq!(p.timestamp_ms, 99);
        },
        _ => panic!("expected a status event"),
    }
}
