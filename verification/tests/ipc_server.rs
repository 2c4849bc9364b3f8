use std::collections::{HashMap, VecDeque};

use wiiland::config::Profile;
use wiiland::connection::{
    Client, FrameStep, Provided, ReadOutcome, ReadStep, ReadTurn, ReceiveStep, WriteOutcome, WriteStep,
    WriteTurn, FRAME_BUDGET, MAX_QUEUED_BYTES, READ_CHUNK,
};
use wiiland::protocol::{
    protocol_error, ButtonEvent, Command, DeviceInfo, InputPayload, Notification, ProtocolError,
    ProtocolErrorCode, Request, ResponseResult, ServerMessage, Status, Subscription, Timestamp,
    MAX_CAPTURE_DEVICES, MAX_FRAME_BYTES, PROTOCOL_MAJOR,
};
use wiiland::server::{
    AcceptOutcome, AcceptStep, IpcServer, PollSource, ReadyStage, ReadyStep, LISTENER_TOKEN,
    MAX_CLIENTS,
};

/// Messages stand for themselves: a frame is the place of its message in a table, filled up to the
/// length that the message would have.
#[derive(Default)]
struct Codec {
    requests: Vec<Option<Request>>,
    replies: Vec<Option<ServerMessage>>,
}

fn frame(place: usize, length: usize) -> Vec<u8> {
    let mut bytes = place.to_string().into_bytes();
    while bytes.len() < length {
        bytes.push(b' ');
    }
    bytes.push(b'\n');
    bytes
}

fn place(bytes: &[u8]) -> Option<usize> {
    std::str::from_utf8(bytes).ok()?.trim().parse().ok()
}

impl Codec {
    fn encode_request(&mut self, id: u64, command: Command) -> Vec<u8> {
        self.requests.push(Some(Request { id, command }));
        frame(self.requests.len() - 1, 0)
    }

    fn decode_request(&mut self, bytes: &[u8]) -> Result<Request, ProtocolError> {
        place(bytes)
            .and_then(|place| self.requests.get_mut(place))
            .and_then(Option::take)
            .ok_or_else(|| protocol_error(ProtocolErrorCode::InvalidFrame, "invalid frame"))
    }

    fn encode(&mut self, message: ServerMessage, length: usize) -> Option<Vec<u8>> {
        let text = format!("{message:?}");
        if text.len().max(length) > MAX_FRAME_BYTES {
            return None;
        }
        self.replies.push(Some(message));
        Some(frame(self.replies.len() - 1, length.saturating_sub(1)))
    }
}

#[derive(Default)]
struct Stream {
    incoming: VecDeque<u8>,
    outgoing: Vec<u8>,
    closed: bool,
}

struct Harness {
    server: IpcServer,
    codec: Codec,
    streams: HashMap<u64, Stream>,
    status_calls: usize,
    devices_calls: usize,
    status: Status,
    devices: Vec<DeviceInfo>,
}

fn status() -> Status {
    Status {
        daemon_version: "test".into(),
        pid: 7,
        device_count: 1,
        dry_run: true,
        socket_path: "/run/wiilandd.sock".into(),
    }
}

fn device() -> DeviceInfo {
    DeviceInfo {
        syspath: "/sys/test".into(),
        profile: Profile::Gamepad,
        opened_interfaces: 1,
        pending_interfaces: 0,
        gamepad_output: true,
        desktop_output: false,
    }
}

fn hello() -> Command {
    Command::Hello { min_major: PROTOCOL_MAJOR, max_major: PROTOCOL_MAJOR }
}

impl Harness {
    fn new() -> Harness {
        Harness {
            server: IpcServer::new(),
            codec: Codec::default(),
            streams: HashMap::new(),
            status_calls: 0,
            devices_calls: 0,
            status: status(),
            devices: vec![device()],
        }
    }

    fn connect(&mut self) -> u64 {
        assert!(matches!(
            IpcServer::handle_ready(LISTENER_TOKEN, None, libc::POLLIN, ReadyStage::Ready),
            Ok(ReadyStep::Accept)
        ));
        let outcome = AcceptOutcome::Stream { nonblocking: true };
        let AcceptStep::Serve(token) = self.server.accept_ready(outcome) else {
            panic!("client was not accepted");
        };
        assert!(!self.streams.contains_key(&token), "accepted client token must be unique");
        self.streams.insert(token, Stream::default());
        token
    }

    fn send(&mut self, client: &mut Client, step: FrameStep) {
        let message = match step {
            FrameStep::Nothing => return,
            FrameStep::Status(id) => {
                self.status_calls += 1;
                let step = FrameStep::answer(id, Provided::Status(self.status.clone()));
                return self.send(client, step);
            }
            FrameStep::Devices(id) => {
                self.devices_calls += 1;
                let step = FrameStep::answer(id, Provided::Devices(self.devices.clone()));
                return self.send(client, step);
            }
            FrameStep::Respond { id, result } => return self.respond(client, id, result),
            FrameStep::Refuse { id, error } => ServerMessage::Error { id, error },
        };
        let encoded = self.codec.encode(message, 0);
        client.queue(encoded);
    }

    fn respond(&mut self, client: &mut Client, id: u64, result: ResponseResult) {
        let encoded = self.codec.encode(ServerMessage::Response { id, result }, 0);
        if let Some(step) = client.queue_response(id, encoded) {
            self.send(client, step);
        }
    }

    fn read(&mut self, token: u64) -> ReadOutcome {
        let stream = self.streams.get_mut(&token).unwrap();
        if stream.incoming.is_empty() {
            return if stream.closed { ReadOutcome::Closed } else { ReadOutcome::WouldBlock };
        }
        let size = stream.incoming.len().min(READ_CHUNK);
        ReadOutcome::Bytes(stream.incoming.drain(..size).collect())
    }

    fn read_turn(&mut self, token: u64, client: &mut Client) -> bool {
        let mut turn = ReadTurn::new();
        loop {
            match turn.process_pending(client) {
                ReadStep::Done => return true,
                ReadStep::Handle(frame) => {
                    let request = self.codec.decode_request(&frame);
                    let step = client.handle_frame(request);
                    self.send(client, step);
                }
                ReadStep::Read => {
                    let outcome = self.read(token);
                    match turn.read_client(client, outcome) {
                        ReceiveStep::Continue => {}
                        ReceiveStep::Done => return true,
                        ReceiveStep::Remove => return false,
                        ReceiveStep::Refuse(error) => {
                            self.send(client, FrameStep::Refuse { id: None, error });
                            return true;
                        }
                    }
                }
            }
        }
    }

    fn write_turn(&mut self, token: u64, client: &mut Client) -> bool {
        let mut turn = WriteTurn::new();
        while let Some((from, to)) = turn.next_range(client) {
            let bytes = client.output[0].bytes[from..to].to_vec();
            self.streams.get_mut(&token).unwrap().outgoing.extend(&bytes);
            match turn.write_ready(client, WriteOutcome::Wrote(bytes.len())) {
                WriteStep::Continue => {}
                WriteStep::Done => return true,
                WriteStep::Remove => return false,
            }
        }
        true
    }

    fn ready(&mut self, token: u64, revents: i16) {
        let Some(mut client) = self.server.take(token) else {
            return;
        };
        let mut stage = ReadyStage::Ready;
        loop {
            stage = match IpcServer::handle_ready(token, Some(&client), revents, stage).unwrap() {
                ReadyStep::Read => ReadyStage::ReadDone(self.read_turn(token, &mut client)),
                ReadyStep::Write => ReadyStage::WriteDone(self.write_turn(token, &mut client)),
                ReadyStep::Keep => return self.server.put(token, client),
                _ => return,
            };
        }
    }

    fn write(&mut self, token: u64, bytes: &[u8]) {
        self.streams.get_mut(&token).unwrap().incoming.extend(bytes);
    }

    fn request(&mut self, token: u64, id: u64, command: Command) -> ServerMessage {
        let bytes = self.codec.encode_request(id, command);
        self.write(token, &bytes);
        self.ready(token, libc::POLLIN);
        self.ready(token, libc::POLLOUT);
        self.read_message(token)
    }

    fn request_in_one_turn(&mut self, token: u64, id: u64, command: Command) -> ServerMessage {
        let bytes = self.codec.encode_request(id, command);
        self.write(token, &bytes);
        self.ready(token, libc::POLLIN);
        self.read_message(token)
    }

    fn read_message(&mut self, token: u64) -> ServerMessage {
        let stream = self.streams.get_mut(&token).unwrap();
        let end = stream.outgoing.iter().position(|byte| *byte == b'\n').expect("a message");
        let bytes: Vec<u8> = stream.outgoing.drain(..=end).collect();
        self.codec.replies[place(&bytes).unwrap()].take().unwrap()
    }

    fn complete(&mut self, token: u64, id: u64, result: ResponseResult) {
        if let Some(step) = self.server.complete_command(token, id, Ok(result)) {
            let mut client = self.server.take(token).unwrap();
            self.send(&mut client, step);
            self.server.put(token, client);
        }
    }

    fn publish(&mut self, notification: Notification, length: usize) {
        let copy = clone_notification(&notification);
        let encoded = self.codec.encode(ServerMessage::Notification(copy), length);
        self.server.publish(&notification, encoded);
    }

    fn sources(&self) -> Vec<PollSource> {
        let mut sources = Vec::new();
        self.server.poll_sources(&mut sources);
        sources
    }
}

fn clone_notification(notification: &Notification) -> Notification {
    match notification {
        Notification::Input { sequence, syspath, timestamp, payload } => Notification::Input {
            sequence: *sequence,
            syspath: syspath.clone(),
            timestamp: *timestamp,
            payload: *payload,
        },
        Notification::DeviceAdded { sequence, device } => Notification::DeviceAdded {
            sequence: *sequence,
            device: device.clone(),
        },
        Notification::DeviceRemoved { sequence, syspath, reason } => Notification::DeviceRemoved {
            sequence: *sequence,
            syspath: syspath.clone(),
            reason: *reason,
        },
        Notification::Unsupported => Notification::Unsupported,
    }
}

fn input(sequence: u64) -> Notification {
    Notification::Input {
        sequence,
        syspath: "/sys/test".into(),
        timestamp: Timestamp { seconds: 1, micros: 2 },
        payload: InputPayload::Key(ButtonEvent { code: 1, state: 1 }),
    }
}

#[test]
fn capture_leases_are_per_connection_and_removed_on_stop_or_disconnect() {
    let mut harness = Harness::new();
    let a = harness.connect();
    let b = harness.connect();
    harness.complete(a, 1, ResponseResult::CaptureStarted(device()));
    harness.complete(a, 2, ResponseResult::CaptureStarted(device()));
    harness.complete(b, 1, ResponseResult::CaptureStarted(device()));
    assert_eq!(harness.server.capture_paths().len(), 2);
    harness.complete(a, 3, ResponseResult::CaptureStopped);
    assert_eq!(harness.server.capture_paths(), [device().syspath]);
    harness.streams.get_mut(&b).unwrap().closed = true;
    harness.ready(b, libc::POLLIN | libc::POLLHUP);
    assert!(harness.server.capture_paths().is_empty());
}

#[test]
fn deferred_controls_preserve_request_identity_and_bound_pending_work() {
    let mut client = Client::new();
    client.negotiated = true;
    for id in 1..=FRAME_BUDGET as u64 {
        let step = client.handle_frame(Ok(Request { id, command: Command::Diagnostics }));
        assert!(matches!(step, FrameStep::Nothing));
    }
    assert_eq!(client.commands.front().unwrap().0, 1);
    assert_eq!(client.commands.len(), FRAME_BUDGET);
    client.handle_frame(Ok(Request { id: 99, command: Command::Config }));
    assert!(client.immediate_close);
    assert_eq!(client.commands.len(), FRAME_BUDGET);
}

#[test]
fn hello_errors_are_correlated_and_status_devices_work() {
    let mut harness = Harness::new();
    let token = harness.connect();
    let error = harness.request(token, 9, Command::Ping);
    assert!(matches!(error, ServerMessage::Error { id: Some(9), .. }));

    let mut harness = Harness::new();
    let token = harness.connect();
    let error = harness.request(token, 8, Command::Hello { min_major: 9, max_major: 9 });
    assert!(matches!(
        error,
        ServerMessage::Error {
            id: Some(8),
            error: ProtocolError { code: ProtocolErrorCode::UnsupportedVersion, .. }
        }
    ));

    let mut harness = Harness::new();
    let token = harness.connect();
    let hello = harness.request(token, 1, Command::Hello { min_major: 1, max_major: 1 });
    assert!(matches!(
        hello,
        ServerMessage::Response { result: ResponseResult::Hello { .. }, .. }
    ));
    let status_message = harness.request(token, 2, Command::Status);
    assert!(matches!(
        status_message,
        ServerMessage::Response { result: ResponseResult::Status(_), .. }
    ));
    let devices_message = harness.request(token, 3, Command::Devices);
    assert!(matches!(
        devices_message,
        ServerMessage::Response { result: ResponseResult::Devices(_), .. }
    ));
}

#[test]
fn snapshot_providers_are_invoked_only_for_their_commands() {
    let mut harness = Harness::new();
    harness.status = Status {
        daemon_version: "lazy-status".into(),
        pid: 99,
        device_count: 1,
        dry_run: false,
        socket_path: "/run/lazy.sock".into(),
    };
    harness.devices[0].syspath = "/sys/lazy-device".into();
    let response = |id, result| format!("{:?}", ServerMessage::Response { id, result });
    let expected_status = response(4, ResponseResult::Status(harness.status.clone()));
    let expected_devices = response(5, ResponseResult::Devices(harness.devices.clone()));
    let token = harness.connect();
    assert_eq!((harness.status_calls, harness.devices_calls), (0, 0));
    for (id, command) in [
        (1, hello()),
        (2, Command::Ping),
        (3, Command::Subscribe { subscriptions: vec![Subscription::Input] }),
    ] {
        harness.request_in_one_turn(token, id, command);
        assert_eq!((harness.status_calls, harness.devices_calls), (0, 0));
    }
    let notification = Notification::Input {
        sequence: 1,
        syspath: "/sys/lazy-device".into(),
        timestamp: Timestamp { seconds: 1, micros: 2 },
        payload: InputPayload::Key(ButtonEvent { code: 1, state: 1 }),
    };
    harness.publish(notification, 0);
    harness.ready(token, libc::POLLOUT);
    assert!(matches!(
        harness.read_message(token),
        ServerMessage::Notification(Notification::Input { .. })
    ));
    assert_eq!((harness.status_calls, harness.devices_calls), (0, 0));
    let message = harness.request_in_one_turn(token, 4, Command::Status);
    assert_eq!(format!("{message:?}"), expected_status);
    assert_eq!((harness.status_calls, harness.devices_calls), (1, 0));
    let message = harness.request_in_one_turn(token, 5, Command::Devices);
    assert_eq!(format!("{message:?}"), expected_devices);
    assert_eq!((harness.status_calls, harness.devices_calls), (1, 1));
    harness.streams.get_mut(&token).unwrap().closed = true;
    harness.ready(token, libc::POLLHUP);
    assert_eq!((harness.status_calls, harness.devices_calls), (1, 1));
    assert!(!harness.server.contains(token));
}

#[test]
fn partial_multiple_frames_and_subscription_filtering() {
    let mut harness = Harness::new();
    let token = harness.connect();
    assert!(!harness.server.has_input_subscribers());
    let hello = harness.codec.encode_request(1, Command::Hello { min_major: 1, max_major: 1 });
    let ping = harness.codec.encode_request(2, Command::Ping);
    harness.write(token, &hello[..hello.len() / 2]);
    harness.ready(token, libc::POLLIN);
    harness.write(token, &[&hello[hello.len() / 2..], &ping].concat());
    harness.ready(token, libc::POLLIN);
    harness.ready(token, libc::POLLOUT);
    assert!(matches!(
        harness.read_message(token),
        ServerMessage::Response { result: ResponseResult::Hello { .. }, .. }
    ));
    assert!(matches!(
        harness.read_message(token),
        ServerMessage::Response { result: ResponseResult::Pong, .. }
    ));

    harness.request(token, 3, Command::Subscribe { subscriptions: vec![Subscription::Input] });
    assert!(harness.server.has_input_subscribers());
    harness.publish(Notification::DeviceAdded { sequence: 1, device: device() }, 0);
    harness.publish(input(2), 0);
    harness.ready(token, libc::POLLOUT);
    assert!(matches!(
        harness.read_message(token),
        ServerMessage::Notification(Notification::Input { sequence: 2, .. })
    ));
}

#[test]
fn buffered_frames_are_rescheduled_with_a_bounded_frame_budget() {
    let mut harness = Harness::new();
    let token = harness.connect();
    let request_count = FRAME_BUDGET * 3 + 1;
    let mut batch = Vec::new();
    for id in 1..=request_count as u64 {
        let command = if id == 1 { hello() } else { Command::Ping };
        batch.extend(harness.codec.encode_request(id, command));
    }
    harness.write(token, &batch);

    harness.ready(token, libc::POLLIN);
    let client = harness.server.client(token).unwrap();
    assert_eq!(client.pending_frames.len(), request_count - FRAME_BUDGET);
    assert!(client.output.is_empty());

    let max_iterations = request_count.div_ceil(FRAME_BUDGET);
    let mut iterations = 1;
    while !harness.server.client(token).unwrap().pending_frames.is_empty() {
        assert!(iterations < max_iterations);
        let sources = harness.sources();
        let source = sources.iter().find(|source| source.token == token).unwrap();
        assert_ne!(source.events & libc::POLLOUT, 0);
        harness.ready(token, libc::POLLOUT);
        iterations += 1;
    }
    assert_eq!(iterations, max_iterations);

    for expected_id in 1..=request_count as u64 {
        match harness.read_message(token) {
            ServerMessage::Response { id, result } => {
                assert_eq!(id, expected_id);
                if expected_id == 1 {
                    assert!(matches!(result, ResponseResult::Hello { .. }));
                } else {
                    assert!(matches!(result, ResponseResult::Pong));
                }
            }
            message => panic!("unexpected response: {message:?}"),
        }
    }
}

#[test]
fn oversized_client_isolated_without_blocking_the_test_writer() {
    let mut harness = Harness::new();
    let oversized = harness.connect();
    let healthy = harness.connect();
    let bytes = vec![b'x'; MAX_FRAME_BYTES + 1];
    for chunk in bytes.chunks(4 * 1024) {
        harness.write(oversized, chunk);
        harness.ready(oversized, libc::POLLIN);
    }
    assert!(!harness.sources().iter().any(|source| source.token == oversized));
    assert!(matches!(
        harness.read_message(oversized),
        ServerMessage::Error {
            id: None,
            error: ProtocolError { code: ProtocolErrorCode::FrameTooLarge, .. }
        }
    ));
    assert!(matches!(
        harness.request(healthy, 1, hello()),
        ServerMessage::Response { result: ResponseResult::Hello { .. }, .. }
    ));
}

#[test]
fn oversized_response_returns_correlated_internal_error_and_connection_survives() {
    let mut harness = Harness::new();
    let token = harness.connect();
    harness.request(token, 1, hello());
    harness.devices[0].syspath = "x".repeat(MAX_FRAME_BYTES);
    assert!(matches!(
        harness.request(token, 2, Command::Devices),
        ServerMessage::Error {
            id: Some(2),
            error: ProtocolError { code: ProtocolErrorCode::Internal, .. }
        }
    ));
    assert!(harness.server.contains(token));
    assert!(matches!(
        harness.request(token, 3, Command::Ping),
        ServerMessage::Response { id: 3, result: ResponseResult::Pong }
    ));
}

#[test]
fn protocol_error_is_flushed_before_client_close() {
    let mut harness = Harness::new();
    let token = harness.connect();
    let mut client = harness.server.take(token).unwrap();
    let step = client.handle_frame(Ok(Request { id: 7, command: Command::Ping }));
    harness.send(&mut client, step);
    assert!(client.closing);
    harness.server.put(token, client);
    let sources = harness.sources();
    let source = sources.iter().find(|source| source.token == token).unwrap();
    assert_eq!(source.events & libc::POLLIN, 0);
    assert_ne!(source.events & libc::POLLOUT, 0);

    harness.publish(Notification::DeviceAdded { sequence: 1, device: device() }, 0);
    assert!(harness.server.contains(token));
    harness.ready(token, libc::POLLOUT);
    assert!(!harness.server.contains(token));
    assert!(matches!(
        harness.read_message(token),
        ServerMessage::Error {
            id: Some(7),
            error: ProtocolError { code: ProtocolErrorCode::InvalidRequest, .. }
        }
    ));
}

#[test]
fn response_queue_overflow_removes_client_without_flushing() {
    let mut harness = Harness::new();
    let token = harness.connect();
    harness.request(token, 1, hello());

    let mut client = harness.server.take(token).unwrap();
    assert!(client.queue_encoded(vec![b'x'; MAX_QUEUED_BYTES]));
    assert!(!client.queue_encoded(vec![b'y']));
    harness.server.put(token, client);
    harness.ready(token, libc::POLLIN | libc::POLLOUT);
    assert!(!harness.server.contains(token));
    assert!(harness.streams[&token].outgoing.is_empty());
}

#[test]
fn queued_byte_limit_keeps_boundary_and_evicts_first_crossing_frame() {
    let mut harness = Harness::new();
    let token = harness.connect();
    harness.request(token, 1, hello());
    harness.request(token, 2, Command::Subscribe { subscriptions: vec![Subscription::Input] });

    const LARGE_FRAME: usize = 48 * 1024;
    for sequence in 0..5 {
        harness.publish(input(sequence), LARGE_FRAME);
        assert!(harness.server.contains(token));
    }
    let remainder = MAX_QUEUED_BYTES - 5 * LARGE_FRAME;
    harness.publish(input(5), remainder);
    assert_eq!(harness.server.client(token).unwrap().queued_bytes, MAX_QUEUED_BYTES);
    assert!(harness.sources().iter().any(|source| source.token == token));

    harness.publish(input(6), 1024);
    assert!(!harness.sources().iter().any(|source| source.token == token));
}

#[test]
fn a_capture_over_the_limit_is_refused() {
    let mut client = Client::new();
    client.negotiated = true;
    for n in 0..MAX_CAPTURE_DEVICES {
        let mut info = device();
        info.syspath = format!("/sys/{n}");
        let step = client.complete_command(n as u64, Ok(ResponseResult::CaptureStarted(info)));
        assert!(matches!(step, FrameStep::Respond { .. }));
    }
    let step = client.complete_command(99, Ok(ResponseResult::CaptureStarted(device())));
    assert!(matches!(
        step,
        FrameStep::Refuse {
            id: Some(99),
            error: ProtocolError { code: ProtocolErrorCode::InvalidRequest, .. }
        }
    ));
    assert_eq!(client.capture.len(), MAX_CAPTURE_DEVICES);
}

#[test]
fn unsubscribing_undoes_a_subscription() {
    let mut client = Client::new();
    client.negotiated = true;
    client.handle_frame(Ok(Request {
        id: 1,
        command: Command::Subscribe { subscriptions: vec![Subscription::All] },
    }));
    assert!(client.input && client.devices);
    client.handle_frame(Ok(Request {
        id: 2,
        command: Command::Unsubscribe { subscriptions: vec![Subscription::Devices] },
    }));
    assert!(client.input && !client.devices);
    assert!(matches!(
        client.handle_frame(Ok(Request { id: 3, command: Command::Unknown })),
        FrameStep::Refuse {
            id: Some(3),
            error: ProtocolError { code: ProtocolErrorCode::UnknownCommand, .. }
        }
    ));
}

#[test]
fn an_invalid_listener_fails() {
    let ready = |revents| IpcServer::handle_ready(LISTENER_TOKEN, None, revents, ReadyStage::Ready);
    assert!(ready(libc::POLLNVAL).is_err());
    assert!(matches!(ready(0), Ok(ReadyStep::Nothing)));
    assert_eq!(LISTENER_TOKEN, 1);
}

#[test]
fn no_more_clients_than_the_limit_are_accepted() {
    let mut server = IpcServer::new();
    let mut tokens = Vec::new();
    while let Some(token) = server.accept() {
        tokens.push(token);
    }
    assert_eq!(tokens.len(), 64);
    assert_eq!(tokens[0], 2);
    tokens.dedup();
    assert_eq!(tokens.len(), 64);
    server.remove(tokens[3]);
    assert_eq!(server.len(), 63);
    assert_eq!(server.accept(), Some(66));
}

#[test]
fn streams_that_cannot_be_served_are_closed() {
    let mut server = IpcServer::new();
    for token in 2..2 + MAX_CLIENTS as u64 {
        assert!(matches!(
            server.accept_ready(AcceptOutcome::Stream { nonblocking: true }),
            AcceptStep::Serve(own) if own == token
        ));
    }
    let outcome = AcceptOutcome::Stream { nonblocking: true };
    assert!(matches!(server.accept_ready(outcome), AcceptStep::Refuse));
    server.remove(9);
    let outcome = AcceptOutcome::Stream { nonblocking: false };
    assert!(matches!(server.accept_ready(outcome), AcceptStep::Refuse));
    assert!(matches!(server.accept_ready(AcceptOutcome::WouldBlock), AcceptStep::Done));
    assert_eq!(server.len(), MAX_CLIENTS - 1);
}

#[test]
fn a_connection_that_must_end_is_not_served() {
    let mut client = Client::new();
    client.immediate_close = true;
    let step = |client: &Client, stage| {
        IpcServer::handle_ready(2, Some(client), libc::POLLIN, stage)
    };
    assert!(matches!(step(&client, ReadyStage::Ready), Ok(ReadyStep::Remove)));
    client.immediate_close = false;
    assert!(matches!(step(&client, ReadyStage::Ready), Ok(ReadyStep::Read)));
    assert!(matches!(step(&client, ReadyStage::ReadDone(true)), Ok(ReadyStep::Keep)));
    assert!(matches!(step(&client, ReadyStage::ReadDone(false)), Ok(ReadyStep::Remove)));
    client.closing = true;
    assert!(matches!(step(&client, ReadyStage::WriteDone(true)), Ok(ReadyStep::Remove)));
}
