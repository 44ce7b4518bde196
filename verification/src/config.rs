use vstd::prelude::*;
use crate::text::str_eq;

verus! {

/// A device's declared purpose. It is carried in events so that a downstream
/// consumer can route messages; the core itself treats every role alike.
#[derive(Debug, Clone, Copy, PartialEq, Eq, Structural)]
pub enum DeviceRole {
    /// Barcode scanner; its messages trigger an inspection downstream.
    Scanner,
    /// Programmable logic controller signalling production state.
    Plc,
    /// Light controller taking brightness and on/off commands.
    Light,
    /// Robot arm taking motion commands.
    Robot,
    /// Camera taking trigger commands.
    Camera,
}

/// The data-bits values a serial frame may use.
pub open spec fn valid_data_bits(bits: u8) -> bool {
    bits == 5 || bits == 6 || bits == 7 || bits == 8
}

/// The stop-bits values a serial frame may use.
pub open spec fn valid_stop_bits(bits: u8) -> bool {
    bits == 1 || bits == 2
}

/// Identity and wiring for one serial device. A value is immutable once a
/// device is started; changing parameters requires a full restart of that
/// device.
pub struct SerialDeviceConfig {
    /// Unique, stable key, e.g. "scanner_0".
    pub device_id: String,
    /// Display name used in error reports.
    pub name: String,
    /// Declared purpose, carried in events for downstream routing.
    pub role: DeviceRole,
    /// Platform port name, e.g. "COM3" or "/dev/ttyUSB0".
    pub port: String,
    /// Baud rate; must not be zero.
    pub baud_rate: u32,
    /// Data bits per frame: 5, 6, 7 or 8.
    pub data_bits: u8,
    /// Stop bits per frame: 1 or 2.
    pub stop_bits: u8,
    /// Parity name: "None", "Odd" or "Even"; interpreted by the transport.
    pub parity: String,
    /// Whether starting the fleet spawns this device.
    pub enabled: bool,
}

impl SerialDeviceConfig {
    /// The five field constraints: non-empty id, non-empty port, non-zero
    /// baud rate, data bits in the allowed set, stop bits in the allowed set.
    pub open spec fn spec_valid(self) -> bool {
        &&& self.device_id@.len() > 0
        &&& self.port@.len() > 0
        &&& self.baud_rate != 0
        &&& valid_data_bits(self.data_bits)
        &&& valid_stop_bits(self.stop_bits)
    }
}

/// Why a device set was rejected. Every variant but the missing id carries
/// the display name of the offending device.
#[derive(Debug, Clone, PartialEq, Eq)]
pub enum ValidationError {
    /// A device has an empty `device_id`.
    EmptyDeviceId,
    /// The named device has an empty `port`.
    EmptyPort(String),
    /// The named device has `baud_rate` zero.
    ZeroBaudRate(String),
    /// The named device has `data_bits` outside {5, 6, 7, 8}.
    InvalidDataBits(String),
    /// The named device has `stop_bits` outside {1, 2}.
    InvalidStopBits(String),
}

/// The error that describes the given invalid device: the first of the five
/// checks that fails, carrying the device's display name.
pub open spec fn spec_error_for(d: SerialDeviceConfig, e: ValidationError) -> bool {
    if d.device_id@.len() == 0 {
        e is EmptyDeviceId
    } else if d.port@.len() == 0 {
        e matches ValidationError::EmptyPort(n) && n@ == d.name@
    } else if d.baud_rate == 0 {
        e matches ValidationError::ZeroBaudRate(n) && n@ == d.name@
    } else if !valid_data_bits(d.data_bits) {
        e matches ValidationError::InvalidDataBits(n) && n@ == d.name@
    } else {
        e matches ValidationError::InvalidStopBits(n) && n@ == d.name@
    }
}

/// Ordered collection of device configurations.
pub struct SerialConfig {
    pub devices: Vec<SerialDeviceConfig>,
}

impl SerialConfig {
    /// Every device in the set satisfies its five field constraints.
    pub open spec fn spec_all_valid(self) -> bool {
        forall|i: int|
            0 <= i < self.devices@.len() ==> (#[trigger] self.devices@[i]).spec_valid()
    }

    /// Some device carries the given id.
    pub open spec fn spec_has_device(self, id: Seq<char>) -> bool {
        exists|i: int|
            0 <= i < self.devices@.len() && (#[trigger] self.devices@[i]).device_id@ == id
    }

    /// Checks the devices in order and reports the first offending one:
    /// success exactly when every device satisfies all five field
    /// constraints. Pure; performs no I/O.
    pub fn validate(&self) -> (r: Result<(), ValidationError>)
        ensures
            r is Ok <==> self.spec_all_valid(),
            r matches Err(e) ==> exists|i: int|
                {
                    &&& 0 <= i < self.devices@.len()
                    &&& !(#[trigger] self.devices@[i]).spec_valid()
                    &&& forall|j: int| 0 <= j < i ==> (#[trigger] self.devices@[j]).spec_valid()
                    &&& spec_error_for(self.devices@[i], e)
                },
    {
        let n = self.devices.len();
        for idx in 0..n
            invariant
                n == self.devices@.len(),
                forall|j: int| 0 <= j < idx ==> (#[trigger] self.devices@[j]).spec_valid(),
        {
            let dev = &self.devices[idx];
            if dev.device_id.as_str().is_empty() {
                return Err(ValidationError::EmptyDeviceId);
            }
            if dev.port.as_str().is_empty() {
                return Err(ValidationError::EmptyPort(dev.name.clone()));
            }
            if dev.baud_rate == 0 {
                return Err(ValidationError::ZeroBaudRate(dev.name.clone()));
            }
            if !(dev.data_bits == 5 || dev.data_bits == 6 || dev.data_bits == 7
                || dev.data_bits == 8) {
                return Err(ValidationError::InvalidDataBits(dev.name.clone()));
            }
            if !(dev.stop_bits == 1 || dev.stop_bits == 2) {
                return Err(ValidationError::InvalidStopBits(dev.name.clone()));
            }
        }
        Ok(())
    }

    /// The first device with the given id, if any.
    pub fn find_device(&self, device_id: &str) -> (r: Option<&SerialDeviceConfig>)
        ensures
            match r {
                Some(d) => exists|i: int|
                    {
                        &&& 0 <= i < self.devices@.len()
                        &&& *d == (#[trigger] self.devices@[i])
                        &&& d.device_id@ == device_id@
                        &&& forall|j: int|
                            0 <= j < i ==> (#[trigger] self.devices@[j]).device_id@ != device_id@
                    },
                None => !self.spec_has_device(device_id@),
            },
    {
        let n = self.devices.len();
        for idx in 0..n
            invariant
                n == self.devices@.len(),
                forall|j: int|
                    0 <= j < idx ==> (#[trigger] self.devices@[j]).device_id@ != device_id@,
        {
            let dev = &self.devices[idx];
            if str_eq(dev.device_id.as_str(), device_id) {
                return Some(dev);
            }
        }
        None
    }
}

} // verus!
