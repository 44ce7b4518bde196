use vstd::prelude::*;
use crate::config::{DeviceRole, SerialDeviceConfig};
use crate::events::{
    DataPayloadSpec, ErrorPayloadSpec, EventSpec, SerialDataPayload, SerialErrorPayload,
    SerialEvent, SerialStatusPayload, StatusPayloadSpec, decode_data_str, events_view,
    spec_data_str,
};
use crate::framer::{FramedMessage, Framer, MsgSpec, msgs_view, spec_feed};

verus! {

/// Every this many consecutive timeouts the loop logs a waiting diagnostic.
pub const DIAGNOSTIC_PERIOD: u32 = 50;

/// What one iteration of a device's read loop observed. The caller owns the
/// transport: it performs the bounded read, checks the shared cancellation
/// flag before each iteration, and hands the outcome here.
pub enum ReadEvent {
    /// The transport returned bytes; an empty chunk is a transient no-op,
    /// not end-of-stream.
    Data(Vec<u8>),
    /// The bounded read timed out or would block; normal when the line is
    /// quiet.
    Timeout,
    /// A hard I/O failure, with its description; ends the loop.
    Fault(String),
    /// The shared cancellation flag was observed set; a clean, caller-initiated
    /// shutdown.
    Cancelled,
}

/// What the read loop must do after one step: emit these events in order,
/// optionally log the periodic waiting diagnostic, and exit if told to.
pub struct StepOutcome {
    pub events: Vec<SerialEvent>,
    pub log_diagnostic: bool,
    pub exit: bool,
}

/// The data event carrying one framed message of the given device.
pub open spec fn spec_data_event(
    device_id: Seq<char>,
    role: DeviceRole,
    port: Seq<char>,
    m: MsgSpec,
    timestamp_ms: u64,
) -> EventSpec {
    EventSpec::Data(
        DataPayloadSpec {
            device_id: device_id,
            role: role,
            port: port,
            data: m.bytes,
            data_str: spec_data_str(m.bytes, m.kind),
            timestamp_ms: timestamp_ms,
        },
    )
}

/// The data events carrying the given framed messages of one device, in
/// order.
pub open spec fn spec_data_events(
    device_id: Seq<char>,
    role: DeviceRole,
    port: Seq<char>,
    msgs: Seq<MsgSpec>,
    timestamp_ms: u64,
) -> Seq<EventSpec> {
    msgs.map_values(|m: MsgSpec| spec_data_event(device_id, role, port, m, timestamp_ms))
}

/// Per-device read-loop state: the device's identity for events, its framer,
/// and the consecutive-timeout counter. One value per running device, owned
/// by that device's loop alone.
pub struct RunnerState {
    pub device_id: String,
    pub role: DeviceRole,
    pub port: String,
    pub framer: Framer,
    pub timeout_count: u32,
}

impl RunnerState {
    pub open spec fn wf(self) -> bool {
        self.framer.wf()
    }

    /// The identity fields never change over a device's lifetime.
    pub open spec fn same_device(self, other: RunnerState) -> bool {
        &&& self.device_id@ == other.device_id@
        &&& self.role == other.role
        &&& self.port@ == other.port@
    }

    /// Fresh loop state for one device: empty framer, no timeouts counted.
    pub fn new(dev: &SerialDeviceConfig) -> (r: RunnerState)
        ensures
            r.device_id@ == dev.device_id@,
            r.role == dev.role,
            r.port@ == dev.port@,
            r.framer.pending() == Seq::<u8>::empty(),
            r.timeout_count == 0,
            r.wf(),
    {
        RunnerState {
            device_id: dev.device_id.clone(),
            role: dev.role,
            port: dev.port.clone(),
            framer: Framer::new(),
            timeout_count: 0,
        }
    }

    /// The `serial:status(connected = true)` event emitted once the port is
    /// open, before the first read.
    pub fn connected_event(&self, timestamp_ms: u64) -> (ev: SerialEvent)
        ensures
            ev@ == EventSpec::Status(
                StatusPayloadSpec {
                    device_id: self.device_id@,
                    port: self.port@,
                    connected: true,
                    timestamp_ms: timestamp_ms,
                },
            ),
    {
        SerialEvent::Status(
            SerialStatusPayload {
                device_id: self.device_id.clone(),
                port: self.port.clone(),
                connected: true,
                timestamp_ms,
            },
        )
    }

    /// The data event for one framed message of this device.
    fn data_event(&self, m: &FramedMessage, timestamp_ms: u64) -> (ev: SerialEvent)
        ensures
            ev@ == spec_data_event(self.device_id@, self.role, self.port@, m@, timestamp_ms),
    {
        let bytes = m.bytes.clone();
        proof {
            assert(bytes@ =~= m.bytes@);
        }
        let data_str = decode_data_str(&bytes, m.kind);
        SerialEvent::Data(
            SerialDataPayload {
                device_id: self.device_id.clone(),
                role: self.role,
                port: self.port.clone(),
                data: bytes,
                data_str,
                timestamp_ms,
            },
        )
    }

    /// One decision of the read loop. Cancellation exits at once with nothing
    /// emitted; a hard fault emits one error event, then one disconnected
    /// status event, and exits; received bytes run through the framer and
    /// each completed message becomes one data event, in order; a timeout
    /// counts toward the periodic diagnostic and flushes a threshold-full
    /// pending buffer. The caller performs the emissions and obeys `exit`.
    pub fn step(&mut self, event: ReadEvent, timestamp_ms: u64) -> (r: StepOutcome)
        requires
            old(self).wf(),
        ensures
            final(self).wf(),
            old(self).same_device(*final(self)),
            event is Cancelled ==> {
                &&& r.exit
                &&& !r.log_diagnostic
                &&& r.events@.len() == 0
                &&& final(self).framer.pending() == old(self).framer.pending()
                &&& final(self).timeout_count == old(self).timeout_count
            },
            event matches ReadEvent::Fault(e) ==> {
                &&& r.exit
                &&& !r.log_diagnostic
                &&& r.events@.len() == 2
                &&& r.events@[0]@ == EventSpec::Error(
                    ErrorPayloadSpec {
                        device_id: old(self).device_id@,
                        port: old(self).port@,
                        error: e@,
                        timestamp_ms: timestamp_ms,
                    },
                )
                &&& r.events@[1]@ == EventSpec::Status(
                    StatusPayloadSpec {
                        device_id: old(self).device_id@,
                        port: old(self).port@,
                        connected: false,
                        timestamp_ms: timestamp_ms,
                    },
                )
                &&& final(self).framer.pending() == old(self).framer.pending()
            },
            event matches ReadEvent::Data(bytes) ==> {
                &&& !r.exit
                &&& !r.log_diagnostic
                &&& final(self).framer.pending() == spec_feed(
                    old(self).framer.pending(),
                    bytes@,
                ).0
                &&& events_view(r.events@) == spec_data_events(
                    old(self).device_id@,
                    old(self).role,
                    old(self).port@,
                    spec_feed(old(self).framer.pending(), bytes@).1,
                    timestamp_ms,
                )
                &&& final(self).timeout_count == (if bytes@.len() > 0 {
                    0u32
                } else {
                    old(self).timeout_count
                })
            },
            event is Timeout ==> {
                &&& !r.exit
                &&& final(self).timeout_count == vstd::wrapping::u32_specs::wrapping_add(
                    old(self).timeout_count,
                    1,
                )
                &&& r.log_diagnostic == (final(self).timeout_count % DIAGNOSTIC_PERIOD == 0)
                &&& r.events@.len() == 0
                &&& final(self).framer.pending() == old(self).framer.pending()
            },
    {
        match event {
            ReadEvent::Cancelled => StepOutcome {
                events: Vec::new(),
                log_diagnostic: false,
                exit: true,
            },
            ReadEvent::Fault(e) => {
                let mut events: Vec<SerialEvent> = Vec::new();
                events.push(
                    SerialEvent::Error(
                        SerialErrorPayload {
                            device_id: self.device_id.clone(),
                            port: self.port.clone(),
                            error: e,
                            timestamp_ms,
                        },
                    ),
                );
                events.push(
                    SerialEvent::Status(
                        SerialStatusPayload {
                            device_id: self.device_id.clone(),
                            port: self.port.clone(),
                            connected: false,
                            timestamp_ms,
                        },
                    ),
                );
                StepOutcome { events, log_diagnostic: false, exit: true }
            },
            ReadEvent::Data(bytes) => {
                let got_bytes = bytes.len() > 0;
                let msgs = self.framer.feed(bytes.as_slice());
                let ghost fed: Seq<MsgSpec> = msgs_view(msgs@);
                let ghost did: Seq<char> = self.device_id@;
                let ghost rl: DeviceRole = self.role;
                let ghost pt: Seq<char> = self.port@;
                let mut events: Vec<SerialEvent> = Vec::new();
                let k = msgs.len();
                proof {
                    assert(events_view(events@) =~= spec_data_events(
                        did,
                        rl,
                        pt,
                        fed.take(0),
                        timestamp_ms,
                    ));
                }
                for i in 0..k
                    invariant
                        k == msgs@.len(),
                        fed == msgs_view(msgs@),
                        self.device_id@ == did,
                        self.role == rl,
                        self.port@ == pt,
                        events_view(events@) == spec_data_events(
                            did,
                            rl,
                            pt,
                            fed.take(i as int),
                            timestamp_ms,
                        ),
                {
                    let ev = self.data_event(&msgs[i], timestamp_ms);
                    proof {
                        assert(msgs@[i as int]@ == fed[i as int]);
                        assert(ev@ == spec_data_event(did, rl, pt, fed[i as int], timestamp_ms));
                    }
                    let ghost pre: Seq<SerialEvent> = events@;
                    events.push(ev);
                    proof {
                        assert(events@ =~= pre.push(ev));
                        assert(events_view(events@) =~= events_view(pre).push(ev@));
                        assert(fed.take(i as int).push(fed[i as int]) =~= fed.take(i + 1));
                        assert(events_view(pre).push(ev@) =~= spec_data_events(
                            did,
                            rl,
                            pt,
                            fed.take(i + 1),
                            timestamp_ms,
                        ));
                    }
                }
                if got_bytes {
                    self.timeout_count = 0;
                }
                proof {
                    assert(fed.take(k as int) =~= fed);
                }
                StepOutcome { events, log_diagnostic: false, exit: false }
            },
            ReadEvent::Timeout => {
                self.timeout_count = self.timeout_count.wrapping_add(1);
                let log_diagnostic = self.timeout_count % DIAGNOSTIC_PERIOD == 0;
                let mut events: Vec<SerialEvent> = Vec::new();
                if let Some(m) = self.framer.take_full() {
                    let ev = self.data_event(&m, timestamp_ms);
                    events.push(ev);
                }
                StepOutcome { events, log_diagnostic, exit: false }
            },
        }
    }
}

} // verus!
