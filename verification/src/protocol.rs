//! The messages that clients and the daemon exchange.
use crate::config::Profile;
use vstd::prelude::*;

verus! {

/// The version that both sides must share.
pub const PROTOCOL_MAJOR: u16 = 1;

/// The version up to which optional features are offered.
pub const PROTOCOL_MINOR: u16 = 1;

/// The most bytes that one frame may hold, its delimiter not counted.
pub const MAX_FRAME_BYTES: usize = 65536;

/// The most devices that one connection may capture.
pub const MAX_CAPTURE_DEVICES: usize = 32;

/// The time of a report.
#[derive(Clone, Copy, Debug, PartialEq, Eq, Structural, Hash)]
pub struct Timestamp {
    pub seconds: i64,
    pub micros: u32,
}

/// One three-axis value.
#[derive(Clone, Copy, Debug, PartialEq, Eq, Structural, Hash)]
pub struct Axis3 {
    pub x: i32,
    pub y: i32,
    pub z: i32,
}

/// A button transition as numbers.
#[derive(Clone, Copy, Debug, PartialEq, Eq, Structural, Hash)]
pub struct ButtonEvent {
    pub code: u32,
    pub state: u32,
}

/// What an input report holds.
#[derive(Clone, Copy, Debug, PartialEq, Eq)]
pub enum InputPayload {
    Key(ButtonEvent),
    Accel(Axis3),
    Ir([Axis3; 4]),
    BalanceBoard([Axis3; 4]),
    MotionPlus(Axis3),
    ProControllerKey(ButtonEvent),
    ProControllerMove([Axis3; 2]),
    Watch,
    ClassicControllerKey(ButtonEvent),
    ClassicControllerMove([Axis3; 3]),
    NunchukKey(ButtonEvent),
    NunchukMove([Axis3; 2]),
    DrumsKey(ButtonEvent),
    DrumsMove([Axis3; 8]),
    GuitarKey(ButtonEvent),
    GuitarMove([Axis3; 3]),
    Gone,
    Unknown(u32),
}

impl InputPayload {
    /// The number of an event type.
    pub open spec fn spec_event_code(self) -> u32 {
        match self {
            InputPayload::Key(_) => 0,
            InputPayload::Accel(_) => 1,
            InputPayload::Ir(_) => 2,
            InputPayload::BalanceBoard(_) => 3,
            InputPayload::MotionPlus(_) => 4,
            InputPayload::ProControllerKey(_) => 5,
            InputPayload::ProControllerMove(_) => 6,
            InputPayload::Watch => 7,
            InputPayload::ClassicControllerKey(_) => 8,
            InputPayload::ClassicControllerMove(_) => 9,
            InputPayload::NunchukKey(_) => 10,
            InputPayload::NunchukMove(_) => 11,
            InputPayload::DrumsKey(_) => 12,
            InputPayload::DrumsMove(_) => 13,
            InputPayload::GuitarKey(_) => 14,
            InputPayload::GuitarMove(_) => 15,
            InputPayload::Gone => 16,
            InputPayload::Unknown(code) => code,
        }
    }

    /// Whether a payload is a sensor sample, of which only the latest matters.
    pub open spec fn is_sample(self) -> bool {
        self is Accel || self is Ir || self is BalanceBoard || self is MotionPlus
            || self is ProControllerMove || self is ClassicControllerMove || self is NunchukMove
            || self is DrumsMove || self is GuitarMove
    }

    /// The number of this event type.
    pub fn event_code(&self) -> (code: u32)
        ensures
            code == self.spec_event_code(),
    {
        match self {
            InputPayload::Key(_) => 0,
            InputPayload::Accel(_) => 1,
            InputPayload::Ir(_) => 2,
            InputPayload::BalanceBoard(_) => 3,
            InputPayload::MotionPlus(_) => 4,
            InputPayload::ProControllerKey(_) => 5,
            InputPayload::ProControllerMove(_) => 6,
            InputPayload::Watch => 7,
            InputPayload::ClassicControllerKey(_) => 8,
            InputPayload::ClassicControllerMove(_) => 9,
            InputPayload::NunchukKey(_) => 10,
            InputPayload::NunchukMove(_) => 11,
            InputPayload::DrumsKey(_) => 12,
            InputPayload::DrumsMove(_) => 13,
            InputPayload::GuitarKey(_) => 14,
            InputPayload::GuitarMove(_) => 15,
            InputPayload::Gone => 16,
            InputPayload::Unknown(code) => *code,
        }
    }

    /// Whether this is a sensor sample, of which only the latest matters.
    pub fn is_sensor(&self) -> (r: bool)
        ensures
            r == self.is_sample(),
    {
        match self {
            InputPayload::Accel(_)
            | InputPayload::Ir(_)
            | InputPayload::BalanceBoard(_)
            | InputPayload::MotionPlus(_)
            | InputPayload::ProControllerMove(_)
            | InputPayload::ClassicControllerMove(_)
            | InputPayload::NunchukMove(_)
            | InputPayload::DrumsMove(_)
            | InputPayload::GuitarMove(_) => true,
            _ => false,
        }
    }
}

/// Why a device went away.
#[derive(Clone, Copy, Debug, PartialEq, Eq, Structural, Hash)]
pub enum RemovalReason {
    Gone,
    Failed,
}

/// One device of the daemon.
#[derive(Debug)]
pub struct DeviceInfo {
    pub syspath: String,
    pub profile: Profile,
    pub opened_interfaces: u32,
    pub pending_interfaces: u32,
    pub gamepad_output: bool,
    pub desktop_output: bool,
}

impl Clone for DeviceInfo {
    fn clone(&self) -> (copy: DeviceInfo)
        ensures
            copy == *self,
    {
        DeviceInfo {
            syspath: self.syspath.clone(),
            profile: self.profile,
            opened_interfaces: self.opened_interfaces,
            pending_interfaces: self.pending_interfaces,
            gamepad_output: self.gamepad_output,
            desktop_output: self.desktop_output,
        }
    }
}

/// The daemon as a whole.
#[derive(Debug)]
pub struct Status {
    pub daemon_version: String,
    pub pid: u32,
    pub device_count: u32,
    pub dry_run: bool,
    pub socket_path: String,
}

impl Clone for Status {
    fn clone(&self) -> (copy: Status)
        ensures
            copy == *self,
    {
        Status {
            daemon_version: self.daemon_version.clone(),
            pid: self.pid,
            device_count: self.device_count,
            dry_run: self.dry_run,
            socket_path: self.socket_path.clone(),
        }
    }
}

/// Timing and loss counters of the daemon.
#[derive(Clone, Copy, Debug, PartialEq, Eq, Structural, Hash)]
pub struct Diagnostics {
    pub trace_records_dropped: u64,
    pub lifecycle_records_dropped: u64,
    pub max_pointer_lateness_us: u64,
    pub max_dispatch_duration_us: u64,
}

/// What a connection can be notified of.
#[derive(Clone, Copy, Debug, PartialEq, Eq, Structural, Hash)]
pub enum Subscription {
    All,
    Input,
    Devices,
    Unknown,
}

/// What a client asks for.
#[derive(Debug)]
pub enum Command {
    Hello { min_major: u16, max_major: u16 },
    Ping,
    Status,
    Devices,
    Subscribe { subscriptions: Vec<Subscription> },
    Unsubscribe { subscriptions: Vec<Subscription> },
    Diagnostics,
    Config,
    StartCapture { syspath: String },
    StopCapture,
    Unknown,
}

/// One request.
#[derive(Debug)]
pub struct Request {
    pub id: u64,
    pub command: Command,
}

/// What a request is answered with.
#[derive(Debug)]
pub enum ResponseResult {
    Hello { major: u16, minor: u16, daemon_version: String },
    Pong,
    Status(Status),
    Devices(Vec<DeviceInfo>),
    Subscribed,
    Unsubscribed,
    Diagnostics(Diagnostics),
    Config(String),
    CaptureStarted(DeviceInfo),
    CaptureStopped,
    Unknown,
}

/// Why a request was refused.
#[derive(Clone, Copy, Debug, PartialEq, Eq, Structural, Hash)]
pub enum ProtocolErrorCode {
    InvalidFrame,
    FrameTooLarge,
    InvalidRequest,
    UnsupportedVersion,
    UnknownCommand,
    Internal,
}

/// A refusal.
#[derive(Debug)]
pub struct ProtocolError {
    pub code: ProtocolErrorCode,
    pub message: String,
}

impl ProtocolError {
    /// Whether a refusal has this code and this text.
    pub open spec fn is(self, code: ProtocolErrorCode, message: Seq<char>) -> bool {
        self.code == code && self.message@ == message
    }
}

/// A refusal with this code and this text.
pub fn protocol_error(code: ProtocolErrorCode, message: &str) -> (error: ProtocolError)
    ensures
        error.is(code, message@),
{
    ProtocolError { code, message: message.to_owned() }
}

/// What the daemon tells without being asked.
#[derive(Debug)]
pub enum Notification {
    Input { sequence: u64, syspath: String, timestamp: Timestamp, payload: InputPayload },
    DeviceAdded { sequence: u64, device: DeviceInfo },
    DeviceRemoved { sequence: u64, syspath: String, reason: RemovalReason },
    Unsupported,
}

impl Notification {
    /// The device that a notification is about.
    pub open spec fn subject(self) -> Option<Seq<char>> {
        match self {
            Notification::Input { syspath, .. } => Some(syspath@),
            Notification::DeviceAdded { device, .. } => Some(device.syspath@),
            Notification::DeviceRemoved { syspath, .. } => Some(syspath@),
            Notification::Unsupported => None,
        }
    }
}

/// Everything the daemon sends.
#[allow(inconsistent_fields)]
#[derive(Debug)]
pub enum ServerMessage {
    Response { id: u64, result: ResponseResult },
    Error { id: Option<u64>, error: ProtocolError },
    Notification(Notification),
}

impl ServerMessage {
    /// Whether a message refuses a request with this code and this text.
    pub open spec fn refuses(
        self,
        request: Option<u64>,
        code: ProtocolErrorCode,
        message: Seq<char>,
    ) -> bool {
        self matches ServerMessage::Error { id, error } && id == request && error.is(code, message)
    }
}

} // verus!
