//! The daemon's side of one connection: framing, requests, subscriptions and bounded output.
use crate::frame;
use crate::frame::FrameBuffer;
use crate::protocol::{
    protocol_error, Command, DeviceInfo, Notification, ProtocolError, ProtocolErrorCode, Request,
    ResponseResult, Status, Subscription, MAX_CAPTURE_DEVICES, PROTOCOL_MAJOR, PROTOCOL_MINOR,
};
use std::collections::VecDeque;
use vstd::prelude::*;
use vstd::string::*;

verus! {

/// The version that the daemon tells its clients.
pub const DAEMON_VERSION: &'static str = "0.1.0";

/// The most bytes that may wait to be sent to one client.
pub const MAX_QUEUED_BYTES: usize = 262144;

/// How often one turn reads.
pub const READ_BUDGET: usize = 8;

/// How many bytes one read takes.
pub const READ_CHUNK: usize = 16384;

/// How many requests one turn handles, and how many may wait for the reactor.
pub const FRAME_BUDGET: usize = 8;

/// How many bytes one turn writes.
pub const WRITE_BUDGET: usize = 65536;

/// A frame that is being sent.
#[derive(Debug)]
pub struct Pending {
    pub bytes: Vec<u8>,
    /// How many of the bytes were sent.
    pub offset: usize,
}

impl Pending {
    /// The bytes that were not sent.
    pub open spec fn rest(self) -> Seq<u8> {
        self.bytes@.subrange(self.offset as int, self.bytes@.len() as int)
    }
}

/// The bytes that were not sent, in the order in which they will be.
pub open spec fn unsent(output: Seq<Pending>) -> Seq<u8>
    decreases output.len(),
{
    if output.len() == 0 {
        Seq::empty()
    } else {
        unsent(output.drop_last()) + output.last().rest()
    }
}

/// Whether a list of paths holds a path.
pub open spec fn holds_path(paths: Seq<String>, path: Seq<char>) -> bool {
    exists|i: int| 0 <= i < paths.len() && (#[trigger] paths[i])@ == path
}

/// Whether no path stands twice in a list.
pub open spec fn all_distinct(paths: Seq<String>) -> bool {
    forall|i: int, j: int|
        0 <= i < j < paths.len() ==> (#[trigger] paths[i])@ != (#[trigger] paths[j])@
}

/// Whether a list of subscriptions names input reports.
pub open spec fn names_input(subscriptions: Seq<Subscription>) -> bool {
    subscriptions.contains(Subscription::All) || subscriptions.contains(Subscription::Input)
}

/// Whether a list of subscriptions names devices.
pub open spec fn names_devices(subscriptions: Seq<Subscription>) -> bool {
    subscriptions.contains(Subscription::All) || subscriptions.contains(Subscription::Devices)
}

/// One connection.
#[derive(Debug)]
pub struct Client {
    pub frames: FrameBuffer,
    /// Frames that were received and not yet handled.
    pub pending_frames: VecDeque<Vec<u8>>,
    pub output: VecDeque<Pending>,
    pub queued_bytes: usize,
    /// Whether the greeting was exchanged.
    pub negotiated: bool,
    /// Whether the connection ends without sending what waits.
    pub immediate_close: bool,
    /// Whether the connection ends once what waits is sent.
    pub closing: bool,
    /// Whether input reports are wanted.
    pub input: bool,
    /// Whether arrivals and removals of devices are wanted.
    pub devices: bool,
    /// Requests that the reactor completes, with their numbers.
    pub commands: VecDeque<(u64, Command)>,
    /// The paths of the devices that this connection captures.
    pub capture: Vec<String>,
}

/// What the daemon tells of itself on request.
#[derive(Debug)]
pub enum Provided {
    Status(Status),
    Devices(Vec<DeviceInfo>),
}

/// What a request leads to.
#[derive(Debug)]
#[allow(inconsistent_fields)]
pub enum FrameStep {
    /// Answer the request.
    Respond { id: u64, result: ResponseResult },
    /// Refuse the request, if it could be told which it was.
    Refuse { id: Option<u64>, error: ProtocolError },
    /// Answer the request with the current status.
    Status(u64),
    /// Answer the request with the current devices.
    Devices(u64),
    /// Nothing is sent now.
    Nothing,
}

impl FrameStep {
    /// Whether a step refuses a request with this code and this text.
    pub open spec fn refuses(
        self,
        request: Option<u64>,
        code: ProtocolErrorCode,
        message: Seq<char>,
    ) -> bool {
        self matches FrameStep::Refuse { id, error } && id == request && error.is(code, message)
    }

    /// Whether a step answers the greeting.
    pub open spec fn greets(self, request: u64) -> bool {
        self matches FrameStep::Respond {
            id,
            result: ResponseResult::Hello { major, minor, daemon_version },
        } && id == request && major == PROTOCOL_MAJOR && minor == PROTOCOL_MINOR
            && daemon_version@ == DAEMON_VERSION@
    }

    /// The answer to a request for the status or the devices: what the daemon told is the result,
    /// under the number of the request.
    pub fn answer(id: u64, provided: Provided) -> (step: FrameStep)
        ensures
            step == (FrameStep::Respond {
                id,
                result: match provided {
                    Provided::Status(status) => ResponseResult::Status(status),
                    Provided::Devices(devices) => ResponseResult::Devices(devices),
                },
            }),
    {
        let result = match provided {
            Provided::Status(status) => ResponseResult::Status(status),
            Provided::Devices(devices) => ResponseResult::Devices(devices),
        };
        FrameStep::Respond { id, result }
    }
}

fn refuse(id: u64, code: ProtocolErrorCode, message: &str) -> (step: FrameStep)
    ensures
        step.refuses(Some(id), code, message@),
{
    FrameStep::Refuse { id: Some(id), error: protocol_error(code, message) }
}

fn has_path(paths: &Vec<String>, path: &String) -> (r: bool)
    ensures
        r == holds_path(paths@, path@),
{
    let mut i: usize = 0;
    while i < paths.len()
        invariant
            i <= paths.len(),
            forall|k: int| 0 <= k < i ==> (#[trigger] paths@[k])@ != path@,
        decreases paths.len() - i,
    {
        if paths[i] == *path {
            return true;
        }
        i = i + 1;
    }
    false
}

proof fn lemma_unsent_push(output: Seq<Pending>, pending: Pending)
    ensures
        unsent(output.push(pending)) == unsent(output) + pending.rest(),
{
    assert(output.push(pending).drop_last() =~= output);
}

proof fn lemma_unsent_front(output: Seq<Pending>)
    requires
        output.len() > 0,
    ensures
        unsent(output) == output[0].rest() + unsent(output.subrange(1, output.len() as int)),
    decreases output.len(),
{
    let tail = output.subrange(1, output.len() as int);
    if output.len() == 1 {
        assert(output.drop_last() =~= Seq::empty());
        assert(tail =~= Seq::empty());
        assert(unsent(output) =~= output[0].rest() + unsent(tail));
    } else {
        lemma_unsent_front(output.drop_last());
        assert(tail.drop_last() =~= output.drop_last().subrange(1, output.len() - 1));
        assert(tail.last() == output.last());
        assert(unsent(output) =~= output[0].rest() + unsent(tail));
    }
}

proof fn lemma_unsent_advance(output: Seq<Pending>, front: Pending)
    requires
        output.len() > 0,
    ensures
        unsent(output.update(0, front)) == front.rest() + unsent(
            output.subrange(1, output.len() as int),
        ),
{
    let updated = output.update(0, front);
    lemma_unsent_front(updated);
    assert(updated.subrange(1, updated.len() as int) =~= output.subrange(1, output.len() as int));
}

impl Client {
    /// Whether every bound holds and the byte count is that of what waits to be sent.
    pub open spec fn well_formed(self) -> bool {
        &&& self.frames.well_formed()
        &&& self.queued_bytes == unsent(self.output@).len()
        &&& self.queued_bytes <= MAX_QUEUED_BYTES
        &&& forall|i: int|
            0 <= i < self.output@.len() ==> (#[trigger] self.output@[i]).offset
                <= self.output@[i].bytes@.len()
        &&& self.commands@.len() <= FRAME_BUDGET
        &&& self.capture@.len() <= MAX_CAPTURE_DEVICES
        &&& all_distinct(self.capture@)
    }

    /// Whether the connection takes no more requests.
    pub open spec fn ending(self) -> bool {
        self.closing || self.immediate_close
    }

    /// Whether nothing has been received, queued, agreed on or leased yet.
    pub open spec fn is_fresh(self) -> bool {
        &&& self.frames@.len() == 0
        &&& self.pending_frames@.len() == 0
        &&& self.output@.len() == 0
        &&& !self.negotiated
        &&& !self.ending()
        &&& !self.input
        &&& !self.devices
        &&& self.commands@.len() == 0
        &&& self.capture@.len() == 0
    }

    /// A connection that was just accepted.
    pub fn new() -> (client: Client)
        ensures
            client.well_formed(),
            client.is_fresh(),
    {
        Client {
            frames: FrameBuffer::new(),
            pending_frames: VecDeque::new(),
            output: VecDeque::new(),
            queued_bytes: 0,
            negotiated: false,
            immediate_close: false,
            closing: false,
            input: false,
            devices: false,
            commands: VecDeque::new(),
            capture: Vec::new(),
        }
    }

    /// Whether a connection is subscribed to a notification.
    pub open spec fn subscribed_to(self, notification: Notification) -> bool {
        match notification {
            Notification::Input { .. } => self.input,
            Notification::DeviceAdded { .. } | Notification::DeviceRemoved { .. } => self.devices,
            Notification::Unsupported => false,
        }
    }

    /// Whether the connection is subscribed to a notification.
    pub fn wants(&self, notification: &Notification) -> (r: bool)
        ensures
            r == self.subscribed_to(*notification),
    {
        match notification {
            Notification::Input { .. } => self.input,
            Notification::DeviceAdded { .. } | Notification::DeviceRemoved { .. } => self.devices,
            Notification::Unsupported => false,
        }
    }

    /// Puts a frame behind what waits to be sent. Over the limit nothing is added, and the
    /// connection ends at once.
    pub fn queue_encoded(&mut self, bytes: Vec<u8>) -> (queued: bool)
        requires
            old(self).well_formed(),
        ensures
            final(self).well_formed(),
            queued == (unsent(old(self).output@).len() + bytes@.len() <= MAX_QUEUED_BYTES),
            queued ==> {
                &&& *final(self) == (Client {
                    output: final(self).output,
                    queued_bytes: final(self).queued_bytes,
                    ..*old(self)
                })
                &&& final(self).output@ == old(self).output@.push(Pending { bytes, offset: 0 })
                &&& unsent(final(self).output@) == unsent(old(self).output@) + bytes@
            },
            !queued ==> *final(self) == (Client { immediate_close: true, ..*old(self) }),
    {
        if bytes.len() > MAX_QUEUED_BYTES - self.queued_bytes {
            self.immediate_close = true;
            return false;
        }
        let ghost before = self.output@;
        let size: usize = bytes.len();
        let pending = Pending { bytes, offset: 0 };
        proof {
            lemma_unsent_push(before, pending);
            assert(pending.rest() =~= bytes@);
        }
        self.queued_bytes = self.queued_bytes + size;
        self.output.push_back(pending);
        true
    }

    /// Sends a message that was encoded. One that could not be ends the connection at once.
    pub fn queue(&mut self, encoded: Option<Vec<u8>>) -> (queued: bool)
        requires
            old(self).well_formed(),
        ensures
            final(self).well_formed(),
            match encoded {
                Some(bytes) => {
                    &&& queued == (unsent(old(self).output@).len() + bytes@.len()
                        <= MAX_QUEUED_BYTES)
                    &&& queued ==> *final(self) == (Client {
                        output: final(self).output,
                        queued_bytes: final(self).queued_bytes,
                        ..*old(self)
                    }) && final(self).output@ == old(self).output@.push(
                        Pending { bytes, offset: 0 },
                    )
                    &&& !queued ==> *final(self) == (Client {
                        immediate_close: true,
                        ..*old(self)
                    })
                },
                None => !queued && *final(self) == (Client { immediate_close: true, ..*old(self) }),
            },
    {
        match encoded {
            Some(bytes) => self.queue_encoded(bytes),
            None => {
                self.immediate_close = true;
                false
            },
        }
    }

    /// Sends an answer that was encoded. For one that could not be, gives the refusal to send in
    /// its place: the request is answered either way.
    pub fn queue_response(&mut self, id: u64, encoded: Option<Vec<u8>>) -> (fallback: Option<
        FrameStep,
    >)
        requires
            old(self).well_formed(),
        ensures
            final(self).well_formed(),
            match encoded {
                Some(bytes) => {
                    &&& fallback is None
                    &&& if unsent(old(self).output@).len() + bytes@.len() <= MAX_QUEUED_BYTES {
                        *final(self) == (Client {
                            output: final(self).output,
                            queued_bytes: final(self).queued_bytes,
                            ..*old(self)
                        }) && final(self).output@ == old(self).output@.push(
                            Pending { bytes, offset: 0 },
                        )
                    } else {
                        *final(self) == (Client { immediate_close: true, ..*old(self) })
                    }
                },
                None => {
                    &&& *final(self) == *old(self)
                    &&& fallback matches Some(step) && step.refuses(
                        Some(id),
                        ProtocolErrorCode::Internal,
                        "response exceeds the maximum IPC frame size"@,
                    )
                },
            },
    {
        match encoded {
            Some(bytes) => {
                self.queue_encoded(bytes);
                None
            },
            None => Some(
                refuse(
                    id,
                    ProtocolErrorCode::Internal,
                    "response exceeds the maximum IPC frame size",
                ),
            ),
        }
    }

    fn apply_subscriptions(&mut self, subscriptions: &Vec<Subscription>, enabled: bool)
        requires
            old(self).well_formed(),
        ensures
            final(self).well_formed(),
            *final(self) == old(self).with_subscriptions(subscriptions@, enabled),
    {
        let mut i: usize = 0;
        let ghost start = *self;
        proof {
            assert(subscriptions@.subrange(0, 0) =~= Seq::empty());
            assert(*self == start.with_subscriptions(subscriptions@.subrange(0, 0), enabled));
        }
        while i < subscriptions.len()
            invariant
                i <= subscriptions.len(),
                self.well_formed(),
                start == *old(self),
                *self == start.with_subscriptions(subscriptions@.subrange(0, i as int), enabled),
            decreases subscriptions.len() - i,
        {
            let ghost seen = subscriptions@.subrange(0, i as int);
            let ghost next = subscriptions@.subrange(0, i + 1);
            proof {
                let s = subscriptions@[i as int];
                assert(next =~= seen.push(s));
                assert forall|x: Subscription| #[trigger] next.contains(x) <==> (seen.contains(x)
                    || x == s) by {
                    if seen.contains(x) {
                        let k = choose|k: int| 0 <= k < seen.len() && seen[k] == x;
                        assert(next[k] == x);
                    }
                    if x == s {
                        assert(next[i as int] == x);
                    }
                }
            }
            match subscriptions[i] {
                Subscription::All => {
                    self.input = enabled;
                    self.devices = enabled;
                },
                Subscription::Input => {
                    self.input = enabled;
                },
                Subscription::Devices => {
                    self.devices = enabled;
                },
                Subscription::Unknown => {},
            }
            i = i + 1;
        }
        assert(subscriptions@.subrange(0, subscriptions@.len() as int) =~= subscriptions@);
    }

    /// A connection with the named subscriptions switched on or off, and the others as they were.
    pub open spec fn with_subscriptions(
        self,
        subscriptions: Seq<Subscription>,
        enabled: bool,
    ) -> Client {
        Client {
            input: if names_input(subscriptions) {
                enabled
            } else {
                self.input
            },
            devices: if names_devices(subscriptions) {
                enabled
            } else {
                self.devices
            },
            ..self
        }
    }

    /// Whether a request may start to capture a device: it is captured already, or there is room.
    pub open spec fn may_capture(self, path: Seq<char>) -> bool {
        self.capture@.len() < MAX_CAPTURE_DEVICES || holds_path(self.capture@, path)
    }

    /// Whether a request is one that the reactor completes.
    pub open spec fn is_deferred(command: Command) -> bool {
        command is Diagnostics || command is Config || command is StartCapture
            || command is StopCapture
    }

    /// What a request does to a connection before the greeting. Only a greeting of a supported
    /// version is accepted; anything else is refused and ends the connection.
    pub open spec fn greeting(self, request: Request, after: Client, step: FrameStep) -> bool {
        match request.command {
            Command::Hello { min_major, max_major } => if min_major <= PROTOCOL_MAJOR <= max_major {
                &&& after == (Client { negotiated: true, ..self })
                &&& step.greets(request.id)
            } else {
                &&& after == (Client { closing: true, ..self })
                &&& step.refuses(
                    Some(request.id),
                    ProtocolErrorCode::UnsupportedVersion,
                    "unsupported protocol version"@,
                )
            },
            _ => {
                &&& after == (Client { closing: true, ..self })
                &&& step.refuses(
                    Some(request.id),
                    ProtocolErrorCode::InvalidRequest,
                    "first request must be hello"@,
                )
            },
        }
    }

    /// What a request does to a connection after the greeting.
    pub open spec fn serving(self, request: Request, after: Client, step: FrameStep) -> bool {
        let id = request.id;
        match request.command {
            Command::Hello { .. } => after == self && step.refuses(
                Some(id),
                ProtocolErrorCode::InvalidRequest,
                "hello was already completed"@,
            ),
            Command::Ping => after == self && step == (FrameStep::Respond {
                id,
                result: ResponseResult::Pong,
            }),
            Command::Status => after == self && step == FrameStep::Status(id),
            Command::Devices => after == self && step == FrameStep::Devices(id),
            Command::Subscribe { subscriptions } => after == self.with_subscriptions(
                subscriptions@,
                true,
            ) && step == (FrameStep::Respond { id, result: ResponseResult::Subscribed }),
            Command::Unsubscribe { subscriptions } => after == self.with_subscriptions(
                subscriptions@,
                false,
            ) && step == (FrameStep::Respond { id, result: ResponseResult::Unsubscribed }),
            Command::Unknown => after == self && step.refuses(
                Some(id),
                ProtocolErrorCode::UnknownCommand,
                "unknown command"@,
            ),
            command => if command matches Command::StartCapture { syspath } && !self.may_capture(
                syspath@,
            ) {
                &&& after == self
                &&& step.refuses(
                    Some(id),
                    ProtocolErrorCode::InvalidRequest,
                    "capture device limit reached; stop capture before selecting new devices"@,
                )
            } else if self.commands@.len() >= FRAME_BUDGET {
                after == (Client { immediate_close: true, ..self }) && step == FrameStep::Nothing
            } else {
                &&& after == (Client { commands: after.commands, ..self })
                &&& after.commands@ == self.commands@.push((id, command))
                &&& step == FrameStep::Nothing
            },
        }
    }

    fn greet(&mut self, id: u64, command: Command) -> (step: FrameStep)
        requires
            old(self).well_formed(),
        ensures
            final(self).well_formed(),
            old(self).greeting(Request { id, command }, *final(self), step),
    {
        match command {
            Command::Hello { min_major, max_major } => {
                if min_major <= PROTOCOL_MAJOR && max_major >= PROTOCOL_MAJOR {
                    self.negotiated = true;
                    FrameStep::Respond {
                        id,
                        result: ResponseResult::Hello {
                            major: PROTOCOL_MAJOR,
                            minor: PROTOCOL_MINOR,
                            daemon_version: DAEMON_VERSION.to_owned(),
                        },
                    }
                } else {
                    self.closing = true;
                    refuse(
                        id,
                        ProtocolErrorCode::UnsupportedVersion,
                        "unsupported protocol version",
                    )
                }
            },
            _ => {
                self.closing = true;
                refuse(id, ProtocolErrorCode::InvalidRequest, "first request must be hello")
            },
        }
    }

    fn defer(&mut self, id: u64, command: Command) -> (step: FrameStep)
        requires
            old(self).well_formed(),
            Client::is_deferred(command),
        ensures
            final(self).well_formed(),
            old(self).serving(Request { id, command }, *final(self), step),
    {
        let over = match &command {
            Command::StartCapture { syspath } => self.capture.len() >= MAX_CAPTURE_DEVICES
                && !has_path(&self.capture, syspath),
            _ => false,
        };
        if over {
            return refuse(
                id,
                ProtocolErrorCode::InvalidRequest,
                "capture device limit reached; stop capture before selecting new devices",
            );
        }
        if self.commands.len() >= FRAME_BUDGET {
            self.immediate_close = true;
        } else {
            self.commands.push_back((id, command));
        }
        FrameStep::Nothing
    }

    /// Handles one request, or the error of a frame that holds none.
    pub fn handle_frame(&mut self, request: Result<Request, ProtocolError>) -> (step: FrameStep)
        requires
            old(self).well_formed(),
        ensures
            final(self).well_formed(),
            match request {
                Err(error) => *final(self) == *old(self) && step == (FrameStep::Refuse {
                    id: None,
                    error,
                }),
                Ok(request) => if old(self).negotiated {
                    old(self).serving(request, *final(self), step)
                } else {
                    old(self).greeting(request, *final(self), step)
                },
            },
    {
        let request = match request {
            Ok(request) => request,
            Err(error) => {
                return FrameStep::Refuse { id: None, error };
            },
        };
        let id = request.id;
        if !self.negotiated {
            return self.greet(id, request.command);
        }
        match request.command {
            Command::Hello { .. } => refuse(
                id,
                ProtocolErrorCode::InvalidRequest,
                "hello was already completed",
            ),
            Command::Ping => FrameStep::Respond { id, result: ResponseResult::Pong },
            Command::Status => FrameStep::Status(id),
            Command::Devices => FrameStep::Devices(id),
            Command::Subscribe { subscriptions } => {
                self.apply_subscriptions(&subscriptions, true);
                FrameStep::Respond { id, result: ResponseResult::Subscribed }
            },
            Command::Unsubscribe { subscriptions } => {
                self.apply_subscriptions(&subscriptions, false);
                FrameStep::Respond { id, result: ResponseResult::Unsubscribed }
            },
            Command::Diagnostics => self.defer(id, Command::Diagnostics),
            Command::Config => self.defer(id, Command::Config),
            Command::StartCapture { syspath } => self.defer(id, Command::StartCapture { syspath }),
            Command::StopCapture => self.defer(id, Command::StopCapture),
            Command::Unknown => refuse(id, ProtocolErrorCode::UnknownCommand, "unknown command"),
        }
    }

    /// The capture leases after a command was completed.
    pub open spec fn leases_after(self, result: ResponseResult, after: Seq<String>) -> bool {
        match result {
            ResponseResult::CaptureStarted(info) => if holds_path(
                self.capture@,
                info.syspath@,
            ) {
                after == self.capture@
            } else {
                after == self.capture@.push(info.syspath)
            },
            ResponseResult::CaptureStopped => after == Seq::<String>::empty(),
            _ => after == self.capture@,
        }
    }

    /// Takes the result of a command that the reactor completed. A capture over the limit is
    /// refused; otherwise the connection's leases follow the result.
    pub fn complete_command(&mut self, id: u64, result: Result<ResponseResult, ProtocolError>) -> (
        step: FrameStep)
        requires
            old(self).well_formed(),
        ensures
            final(self).well_formed(),
            *final(self) == (Client { capture: final(self).capture, ..*old(self) }),
            match result {
                Err(error) => final(self).capture@ == old(self).capture@ && step == (
                FrameStep::Refuse { id: Some(id), error }),
                Ok(result) => if result matches ResponseResult::CaptureStarted(info)
                    && !old(self).may_capture(info.syspath@) {
                    &&& final(self).capture@ == old(self).capture@
                    &&& step.refuses(
                        Some(id),
                        ProtocolErrorCode::InvalidRequest,
                        "capture device limit reached"@,
                    )
                } else {
                    &&& old(self).leases_after(result, final(self).capture@)
                    &&& step == (FrameStep::Respond { id, result })
                },
            },
    {
        let result = match result {
            Ok(result) => result,
            Err(error) => {
                return FrameStep::Refuse { id: Some(id), error };
            },
        };
        match &result {
            ResponseResult::CaptureStarted(info) => {
                if !has_path(&self.capture, &info.syspath) {
                    if self.capture.len() >= MAX_CAPTURE_DEVICES {
                        return refuse(
                            id,
                            ProtocolErrorCode::InvalidRequest,
                            "capture device limit reached",
                        );
                    }
                    let ghost before = self.capture@;
                    self.capture.push(info.syspath.clone());
                    assert(self.capture@ =~= before.push(info.syspath));
                    assert(all_distinct(self.capture@));
                }
            },
            ResponseResult::CaptureStopped => {
                self.capture.clear();
            },
            _ => {},
        }
        FrameStep::Respond { id, result }
    }
}

/// What a turn of reading does next.
#[derive(Debug)]
pub enum ReadStep {
    /// Decode this frame and handle it.
    Handle(Vec<u8>),
    /// Read from the connection.
    Read,
    /// The turn is over.
    Done,
}

/// What a read gave.
#[derive(Debug)]
pub enum ReadOutcome {
    /// The peer has closed.
    Closed,
    /// These bytes.
    Bytes(Vec<u8>),
    /// Nothing has arrived yet.
    WouldBlock,
    /// The connection is broken.
    Failed,
}

/// What follows a read.
#[derive(Debug)]
pub enum ReceiveStep {
    /// The turn goes on.
    Continue,
    /// The turn is over.
    Done,
    /// Send this refusal; the turn is over.
    Refuse(ProtocolError),
    /// The connection is removed.
    Remove,
}

/// One turn of reading from a connection, bounded in reads and in requests.
#[derive(Clone, Copy, Debug, PartialEq, Eq, Structural)]
pub struct ReadTurn {
    pub frame_budget: usize,
    pub read_budget: usize,
    /// Whether the last read took less than it could: nothing more has arrived.
    pub drained: bool,
}

impl ReadTurn {
    /// A turn that has its whole budget.
    pub fn new() -> (turn: ReadTurn)
        ensures
            turn == (ReadTurn {
                frame_budget: FRAME_BUDGET,
                read_budget: READ_BUDGET,
                drained: false,
            }),
    {
        ReadTurn { frame_budget: FRAME_BUDGET, read_budget: READ_BUDGET, drained: false }
    }

    /// Whether a frame that waits may be handled in this turn.
    pub open spec fn may_handle(self, client: Client) -> bool {
        self.frame_budget > 0 && client.pending_frames@.len() > 0 && !client.ending()
    }

    /// Whether the turn may read: every frame was handled and some budget is left.
    pub open spec fn may_read(self, client: Client) -> bool {
        self.frame_budget > 0 && client.pending_frames@.len() == 0 && !client.ending()
            && !self.drained && self.read_budget > 0
    }

    /// Says what to do next: handle the oldest frame that waits, else read, else stop.
    pub fn process_pending(&mut self, client: &mut Client) -> (step: ReadStep)
        requires
            old(client).well_formed(),
        ensures
            final(client).well_formed(),
            if old(self).may_handle(*old(client)) {
                &&& step matches ReadStep::Handle(frame) && frame == old(client).pending_frames@[0]
                &&& *final(self) == (ReadTurn {
                    frame_budget: (old(self).frame_budget - 1) as usize,
                    ..*old(self)
                })
                &&& *final(client) == (Client {
                    pending_frames: final(client).pending_frames,
                    ..*old(client)
                })
                &&& final(client).pending_frames@ == old(client).pending_frames@.subrange(
                    1,
                    old(client).pending_frames@.len() as int,
                )
            } else if old(self).may_read(*old(client)) {
                &&& step == ReadStep::Read
                &&& *final(self) == (ReadTurn {
                    read_budget: (old(self).read_budget - 1) as usize,
                    ..*old(self)
                })
                &&& *final(client) == *old(client)
            } else {
                step == ReadStep::Done
                    && *final(self) == *old(self)
                    && *final(client) == *old(client)
            },
    {
        if self.frame_budget == 0 || client.closing || client.immediate_close {
            return ReadStep::Done;
        }
        if client.pending_frames.len() > 0 {
            match client.pending_frames.pop_front() {
                Some(frame) => {
                    self.frame_budget = self.frame_budget - 1;
                    return ReadStep::Handle(frame);
                },
                None => {
                    return ReadStep::Done;
                },
            }
        }
        if self.drained || self.read_budget == 0 {
            return ReadStep::Done;
        }
        self.read_budget = self.read_budget - 1;
        ReadStep::Read
    }

    /// Takes what a read gave. A frame over the limit is refused, and the connection ends once the
    /// refusal is sent.
    pub fn read_client(&mut self, client: &mut Client, outcome: ReadOutcome) -> (step: ReceiveStep)
        requires
            old(client).well_formed(),
        ensures
            final(client).well_formed(),
            match outcome {
                ReadOutcome::Closed | ReadOutcome::Failed => step == ReceiveStep::Remove
                    && *final(client) == *old(client) && *final(self) == *old(self),
                ReadOutcome::WouldBlock => step == ReceiveStep::Done
                    && *final(client) == *old(client)
                    && *final(self) == *old(self),
                ReadOutcome::Bytes(bytes) => {
                    &&& *final(self) == (ReadTurn {
                        drained: bytes@.len() < READ_CHUNK,
                        ..*old(self)
                    })
                    &&& if frame::within_limit(old(client).frames@ + bytes@) {
                        &&& step == ReceiveStep::Continue
                        &&& *final(client) == (Client {
                            frames: final(client).frames,
                            pending_frames: final(client).pending_frames,
                            ..*old(client)
                        })
                        &&& final(client).frames@ == frame::split(old(client).frames@ + bytes@).1
                        &&& frame::contents(final(client).pending_frames@) == frame::contents(
                            old(client).pending_frames@,
                        ) + frame::split(old(client).frames@ + bytes@).0
                    } else {
                        &&& step matches ReceiveStep::Refuse(error) && error.is(
                            ProtocolErrorCode::FrameTooLarge,
                            "IPC frame exceeds the maximum size"@,
                        )
                        &&& *final(client) == (Client {
                            frames: final(client).frames,
                            closing: true,
                            ..*old(client)
                        })
                        &&& final(client).frames@ == old(client).frames@
                    }
                },
            },
    {
        match outcome {
            ReadOutcome::Closed => ReceiveStep::Remove,
            ReadOutcome::Failed => ReceiveStep::Remove,
            ReadOutcome::WouldBlock => ReceiveStep::Done,
            ReadOutcome::Bytes(bytes) => {
                self.drained = bytes.len() < READ_CHUNK;
                match client.frames.push(bytes.as_slice()) {
                    Ok(frames) => {
                        append_frames(&mut client.pending_frames, frames);
                        ReceiveStep::Continue
                    },
                    Err(error) => {
                        client.closing = true;
                        ReceiveStep::Refuse(error)
                    },
                }
            },
        }
    }
}

fn append_frames(queue: &mut VecDeque<Vec<u8>>, frames: Vec<Vec<u8>>)
    ensures
        final(queue)@ == old(queue)@ + frames@,
        frame::contents(final(queue)@) == frame::contents(old(queue)@) + frame::contents(frames@),
{
    let mut frames = frames;
    let ghost all = frames@;
    let count: usize = frames.len();
    let mut i: usize = 0;
    while frames.len() > 0
        invariant
            i <= all.len() == count,
            frames@ == all.subrange(i as int, all.len() as int),
            queue@ == old(queue)@ + all.subrange(0, i as int),
        decreases frames.len(),
    {
        let frame = frames.remove(0);
        queue.push_back(frame);
        assert(all.subrange(0, i + 1) =~= all.subrange(0, i as int).push(all[i as int]));
        i = i + 1;
        assert(frames@ =~= all.subrange(i as int, all.len() as int));
        assert(queue@ =~= old(queue)@ + all.subrange(0, i as int));
    }
    assert(all.subrange(0, i as int) =~= all);
    assert(frame::contents(queue@) =~= frame::contents(old(queue)@) + frame::contents(all));
}

/// What a write did.
#[derive(Clone, Copy, Debug, PartialEq, Eq, Structural)]
pub enum WriteOutcome {
    /// So many bytes were sent.
    Wrote(usize),
    /// The connection takes nothing now.
    WouldBlock,
    /// The connection is broken.
    Failed,
}

/// What follows a write.
#[derive(Clone, Copy, Debug, PartialEq, Eq, Structural)]
pub enum WriteStep {
    /// The turn goes on.
    Continue,
    /// The turn is over.
    Done,
    /// The connection is removed.
    Remove,
}

/// One turn of writing to a connection, bounded in bytes.
#[derive(Clone, Copy, Debug, PartialEq, Eq, Structural)]
pub struct WriteTurn {
    pub budget: usize,
}

impl WriteTurn {
    /// A turn that has its whole budget.
    pub fn new() -> (turn: WriteTurn)
        ensures
            turn.budget == WRITE_BUDGET,
    {
        WriteTurn { budget: WRITE_BUDGET }
    }

    /// The part of the first frame that is to be written next: where it begins, and where it ends.
    pub fn next_range(&self, client: &Client) -> (range: Option<(usize, usize)>)
        requires
            client.well_formed(),
        ensures
            match range {
                None => self.budget == 0 || client.output@.len() == 0,
                Some((from, to)) => {
                    &&& self.budget > 0
                    &&& client.output@.len() > 0
                    &&& from == client.output@[0].offset
                    &&& from <= to <= client.output@[0].bytes@.len()
                    &&& to - from == (if client.output@[0].rest().len() <= self.budget {
                        client.output@[0].rest().len() as int
                    } else {
                        self.budget as int
                    })
                },
            },
    {
        if self.budget == 0 || client.output.len() == 0 {
            return None;
        }
        let front = &client.output[0];
        let remaining: usize = front.bytes.len() - front.offset;
        let size: usize = if remaining < self.budget {
            remaining
        } else {
            self.budget
        };
        Some((front.offset, front.offset + size))
    }

    /// Takes what a write of the first frame did. What was sent is forgotten; nothing else is.
    pub fn write_ready(&mut self, client: &mut Client, outcome: WriteOutcome) -> (step: WriteStep)
        requires
            old(client).well_formed(),
            old(client).output@.len() > 0,
            outcome matches WriteOutcome::Wrote(n)
                ==> n <= old(self).budget && n <= old(client).output@[0].rest().len(),
        ensures
            final(client).well_formed(),
            match outcome {
                WriteOutcome::Wrote(n) => if n == 0 {
                    &&& step == WriteStep::Remove
                    &&& *final(client) == (Client { closing: true, ..*old(client) })
                    &&& *final(self) == *old(self)
                } else {
                    &&& step == WriteStep::Continue
                    &&& final(self).budget == old(self).budget - n
                    &&& *final(client) == (Client {
                        output: final(client).output,
                        queued_bytes: final(client).queued_bytes,
                        ..*old(client)
                    })
                    &&& unsent(final(client).output@) == unsent(old(client).output@).subrange(
                        n as int,
                        unsent(old(client).output@).len() as int,
                    )
                    &&& if n == old(client).output@[0].rest().len() {
                        final(client).output@ == old(client).output@.subrange(
                            1,
                            old(client).output@.len() as int,
                        )
                    } else {
                        final(client).output@ == old(client).output@.update(
                            0,
                            Pending {
                                offset: (old(client).output@[0].offset + n) as usize,
                                ..old(client).output@[0]
                            },
                        )
                    }
                },
                WriteOutcome::WouldBlock => step == WriteStep::Done
                    && *final(client) == *old(client)
                    && *final(self) == *old(self),
                WriteOutcome::Failed => step == WriteStep::Remove && *final(client) == (Client {
                    closing: true,
                    ..*old(client)
                }) && *final(self) == *old(self),
            },
    {
        match outcome {
            WriteOutcome::WouldBlock => WriteStep::Done,
            WriteOutcome::Failed => {
                client.closing = true;
                WriteStep::Remove
            },
            WriteOutcome::Wrote(n) => {
                if n == 0 {
                    client.closing = true;
                    return WriteStep::Remove;
                }
                let ghost before = client.output@;
                let ghost tail = before.subrange(1, before.len() as int);
                proof {
                    lemma_unsent_front(before);
                }
                match client.output.pop_front() {
                    Some(mut front) => {
                        let ghost rest = front.rest();
                        assert(front.offset + n <= front.bytes.len());
                        front.offset = front.offset + n;
                        assert(front.rest() =~= rest.subrange(n as int, rest.len() as int));
                        proof {
                            lemma_unsent_advance(before, front);
                            assert(unsent(before).subrange(n as int, unsent(before).len() as int)
                                =~= front.rest() + unsent(tail));
                        }
                        if front.offset < front.bytes.len() {
                            client.output.push_front(front);
                            assert(client.output@ =~= before.update(0, front));
                        } else {
                            assert(front.rest() =~= Seq::empty());
                            assert(front.rest() + unsent(tail) =~= unsent(tail));
                        }
                    },
                    None => {},
                }
                client.queued_bytes = client.queued_bytes - n;
                self.budget = self.budget - n;
                WriteStep::Continue
            },
        }
    }
}

/// Nothing is served before the greeting: every other request is refused and ends the connection.
pub proof fn nothing_is_served_before_the_greeting(
    client: Client,
    request: Request,
    after: Client,
    step: FrameStep,
)
    requires
        !client.negotiated,
        request.command !is Hello,
        client.greeting(request, after, step),
    ensures
        !after.negotiated,
        after.closing,
        step is Refuse,
{
}

/// Unsubscribing undoes subscribing to kinds of notification that were not subscribed to before.
pub proof fn unsubscribing_undoes_subscribing(client: Client, subscriptions: Seq<Subscription>)
    requires
        names_input(subscriptions) ==> !client.input,
        names_devices(subscriptions) ==> !client.devices,
    ensures
        client.with_subscriptions(subscriptions, true).with_subscriptions(subscriptions, false)
            == client,
{
}

} // verus!
