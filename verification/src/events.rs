use vstd::prelude::*;
use crate::config::DeviceRole;
use crate::framer::FlushKind;
use crate::text::{trim_spec, trim_string, utf8_string};

verus! {

/// The character sequence an optional string stands for.
pub open spec fn str_opt_view(s: Option<String>) -> Option<Seq<char>> {
    match s {
        Option::None => Option::<Seq<char>>::None,
        Option::Some(t) => Option::Some(t@),
    }
}

/// What a `serial:data` payload stands for.
pub struct DataPayloadSpec {
    pub device_id: Seq<char>,
    pub role: DeviceRole,
    pub port: Seq<char>,
    pub data: Seq<u8>,
    pub data_str: Option<Seq<char>>,
    pub timestamp_ms: u64,
}

/// A `serial:data` event: one framed message received from a device.
pub struct SerialDataPayload {
    pub device_id: String,
    pub role: DeviceRole,
    pub port: String,
    /// Raw payload bytes, terminators excluded.
    pub data: Vec<u8>,
    /// Best-effort UTF-8 decoding; see `spec_data_str` for when it is absent.
    pub data_str: Option<String>,
    /// Wall-clock milliseconds supplied by the caller.
    pub timestamp_ms: u64,
}

impl View for SerialDataPayload {
    type V = DataPayloadSpec;

    open spec fn view(&self) -> DataPayloadSpec {
        DataPayloadSpec {
            device_id: self.device_id@,
            role: self.role,
            port: self.port@,
            data: self.data@,
            data_str: str_opt_view(self.data_str),
            timestamp_ms: self.timestamp_ms,
        }
    }
}

/// What a `serial:error` payload stands for.
pub struct ErrorPayloadSpec {
    pub device_id: Seq<char>,
    pub port: Seq<char>,
    pub error: Seq<char>,
    pub timestamp_ms: u64,
}

/// A `serial:error` event: opening the port failed, or reading it failed hard
/// and the device's read loop is about to exit.
pub struct SerialErrorPayload {
    pub device_id: String,
    pub port: String,
    pub error: String,
    pub timestamp_ms: u64,
}

impl View for SerialErrorPayload {
    type V = ErrorPayloadSpec;

    open spec fn view(&self) -> ErrorPayloadSpec {
        ErrorPayloadSpec {
            device_id: self.device_id@,
            port: self.port@,
            error: self.error@,
            timestamp_ms: self.timestamp_ms,
        }
    }
}

/// What a `serial:status` payload stands for.
pub struct StatusPayloadSpec {
    pub device_id: Seq<char>,
    pub port: Seq<char>,
    pub connected: bool,
    pub timestamp_ms: u64,
}

/// A `serial:status` event: the device connected or disconnected.
pub struct SerialStatusPayload {
    pub device_id: String,
    pub port: String,
    pub connected: bool,
    pub timestamp_ms: u64,
}

impl View for SerialStatusPayload {
    type V = StatusPayloadSpec;

    open spec fn view(&self) -> StatusPayloadSpec {
        StatusPayloadSpec {
            device_id: self.device_id@,
            port: self.port@,
            connected: self.connected,
            timestamp_ms: self.timestamp_ms,
        }
    }
}

/// What an event stands for.
pub enum EventSpec {
    Data(DataPayloadSpec),
    Error(ErrorPayloadSpec),
    Status(StatusPayloadSpec),
}

/// One event for the external sink, delivered in order per device.
pub enum SerialEvent {
    Data(SerialDataPayload),
    Error(SerialErrorPayload),
    Status(SerialStatusPayload),
}

impl View for SerialEvent {
    type V = EventSpec;

    open spec fn view(&self) -> EventSpec {
        match self {
            SerialEvent::Data(p) => EventSpec::Data(p@),
            SerialEvent::Error(p) => EventSpec::Error(p@),
            SerialEvent::Status(p) => EventSpec::Status(p@),
        }
    }
}

/// The events a sequence of `SerialEvent`s stands for.
pub open spec fn events_view(s: Seq<SerialEvent>) -> Seq<EventSpec> {
    s.map_values(|ev: SerialEvent| ev@)
}

/// The text attached to a framed message. A line-framed payload is decoded as
/// UTF-8, trimmed, and treated as absent when empty after trimming; a
/// size-flushed payload keeps its raw decoding untrimmed. The asymmetry is
/// deliberate and preserved: binary bursts pass through unmassaged while
/// line traffic is tidied.
pub open spec fn spec_data_str(bytes: Seq<u8>, kind: FlushKind) -> Option<Seq<char>> {
    if vstd::utf8::valid_utf8(bytes) {
        match kind {
            FlushKind::Size => Option::Some(vstd::utf8::decode_utf8(bytes)),
            FlushKind::Line => {
                let t = trim_spec(vstd::utf8::decode_utf8(bytes));
                if t.len() == 0 {
                    Option::<Seq<char>>::None
                } else {
                    Option::Some(t)
                }
            },
        }
    } else {
        Option::<Seq<char>>::None
    }
}

/// Best-effort text for a framed message, per `spec_data_str`.
pub fn decode_data_str(bytes: &Vec<u8>, kind: FlushKind) -> (r: Option<String>)
    ensures
        str_opt_view(r) == spec_data_str(bytes@, kind),
{
    match utf8_string(bytes) {
        None => None,
        Some(s) => match kind {
            FlushKind::Size => Some(s),
            FlushKind::Line => {
                let t = trim_string(s.as_str());
                if t.as_str().is_empty() {
                    None
                } else {
                    Some(t)
                }
            },
        },
    }
}

} // verus!
