use wiiland::capture::{CaptureConnection, SetupAction, SetupEvent};
use wiiland::client::{
    default_socket_path, map_stream_io_error, user_config_path, Client, ClientError,
    MAX_NOTIFICATION_BACKLOG_BYTES,
};
use wiiland::config::Profile;
use wiiland::failure::{IoFailure, IoKind};
use wiiland::frame::{encode_frame, FrameBuffer};
use wiiland::protocol::{
    protocol_error, Command, DeviceInfo, Notification, ProtocolErrorCode, RemovalReason,
    ResponseResult, ServerMessage, Status, MAX_FRAME_BYTES,
};

fn device(path: &str) -> DeviceInfo {
    DeviceInfo {
        syspath: path.into(),
        profile: Profile::Desktop,
        opened_interfaces: 0,
        pending_interfaces: 0,
        gamepad_output: false,
        desktop_output: false,
    }
}

#[test]
fn frames_come_out_however_they_were_cut() {
    let bytes = b"one\ntwo\n\nrest";
    let mut whole = FrameBuffer::new();
    let expected = whole.push(bytes).unwrap();
    assert_eq!(expected, [b"one".to_vec(), b"two".to_vec(), b"".to_vec()]);
    let mut cut = FrameBuffer::new();
    let mut frames = Vec::new();
    for byte in bytes {
        frames.extend(cut.push(&[*byte]).unwrap());
    }
    assert_eq!(frames, expected);
    assert_eq!(cut.len(), 4);
}

#[test]
fn a_frame_over_the_limit_is_refused() {
    let mut buffer = FrameBuffer::new();
    assert!(buffer.push(&vec![b'x'; MAX_FRAME_BYTES]).unwrap().is_empty());
    let error = buffer.push(b"x").unwrap_err();
    assert_eq!(error.code, ProtocolErrorCode::FrameTooLarge);
}

#[test]
fn a_reply_must_belong_to_its_request() {
    let mut client = Client::new();
    let id = client.request().unwrap();
    assert_eq!(id, 1);
    let pong = |id| ServerMessage::Response { id, result: ResponseResult::Pong };
    assert!(matches!(client.read_response(id, pong(1), 9), Ok(Some(ResponseResult::Pong))));
    assert!(matches!(
        client.read_response(id, pong(2), 9),
        Err(ClientError::UnexpectedResponseId { expected: 1, actual: 2 })
    ));
    let error = protocol_error(ProtocolErrorCode::Internal, "no");
    assert!(matches!(
        client.read_response(id, ServerMessage::Error { id: Some(1), error }, 9),
        Err(ClientError::Server { error }) if error.message == "no"
    ));
    let notification = ServerMessage::Notification(Notification::Unsupported);
    assert!(matches!(client.read_response(id, notification, 9), Ok(None)));
    assert!(matches!(client.next_event(), Ok(Some(Notification::Unsupported))));
    assert!(matches!(client.next_event(), Ok(None)));
    assert_eq!(client.request().unwrap(), 2);
}

#[test]
fn too_many_waiting_notifications_end_the_client() {
    let mut client = Client::new();
    client
        .queue_notification(Notification::Unsupported, MAX_NOTIFICATION_BACKLOG_BYTES)
        .unwrap();
    assert!(matches!(
        client.queue_notification(Notification::Unsupported, 1),
        Err(ClientError::NotificationBacklogExceeded { .. })
    ));
    assert!(client.request().is_err());
    assert!(client.ensure_active().is_err());
}

#[test]
fn the_greeting_sets_the_version() {
    let mut client = Client::new();
    assert!(matches!(Client::hello_command(), Command::Hello { min_major: 1, max_major: 1 }));
    let hello = |major, minor| ResponseResult::Hello { major, minor, daemon_version: "1".into() };
    assert!(matches!(
        client.hello(hello(2, 0)),
        Err(ClientError::UnsupportedVersion { major: 2, minor: 0 })
    ));
    client.hello(hello(1, 1)).unwrap();
    assert_eq!(client.protocol_version(), (1, 1));
    assert!(client.require_minor(1).is_ok());
    assert_eq!(
        client.require_minor(2).unwrap_err().describe(),
        "operation requires daemon protocol 1.2; connected daemon provides 1.1"
    );
    assert!(client.hello(ResponseResult::Pong).is_err());
}

#[test]
fn a_closed_connection_is_told_apart() {
    for kind in [IoKind::BrokenPipe, IoKind::ConnectionReset, IoKind::UnexpectedEof] {
        assert!(matches!(
            map_stream_io_error(IoFailure::new(kind, "x")),
            ClientError::PrematureEof
        ));
    }
    assert!(matches!(
        map_stream_io_error(IoFailure::new(IoKind::TimedOut, "x")),
        ClientError::Io(_)
    ));
    assert!(matches!(Client::new().receive(b""), Err(ClientError::PrematureEof)));
}

#[test]
fn paths_follow_the_environment() {
    assert_eq!(
        default_socket_path(Some("/run/user/1000")).unwrap(),
        "/run/user/1000/wiiland/wiilandd.sock"
    );
    assert!(matches!(default_socket_path(None), Err(ClientError::RuntimeDirectoryMissing)));
    assert_eq!(
        default_socket_path(Some("run")).unwrap_err().describe(),
        "XDG_RUNTIME_DIR is not absolute: run"
    );
    assert_eq!(
        user_config_path(Some("/cfg"), Some("/home/u")).unwrap(),
        "/cfg/wiiland/wiilandd.conf"
    );
    assert_eq!(
        user_config_path(None, Some("/home/u")).unwrap(),
        "/home/u/.config/wiiland/wiilandd.conf"
    );
    assert_eq!(user_config_path(None, None), None);
}

fn status() -> Status {
    Status {
        daemon_version: "1".into(),
        pid: 1,
        device_count: 2,
        dry_run: false,
        socket_path: String::new(),
    }
}

#[test]
fn a_capture_is_set_up_one_command_at_a_time() {
    let mut capture = CaptureConnection::new(String::new(), false);
    let mut step = |event| capture.connect_cancellable(event, false);
    assert!(matches!(step(SetupEvent::Begin), Ok(SetupAction::Connect)));
    assert!(matches!(step(SetupEvent::Connected), Ok(SetupAction::RequestStatus)));
    assert!(matches!(step(SetupEvent::Status(status())), Ok(SetupAction::RequestDevices)));
    assert!(matches!(
        step(SetupEvent::Devices(vec![device("/a"), device("/b")])),
        Ok(SetupAction::Subscribe)
    ));
    assert!(matches!(
        step(SetupEvent::Subscribed),
        Ok(SetupAction::StartCapture(path)) if path == "/a"
    ));
    assert!(matches!(
        step(SetupEvent::CaptureStarted(device("/a"))),
        Ok(SetupAction::StartCapture(path)) if path == "/b"
    ));
    assert!(matches!(step(SetupEvent::CaptureStarted(device("/b"))), Ok(SetupAction::Ready)));
    let removed = |path: &str| Notification::DeviceRemoved {
        sequence: 1,
        syspath: path.into(),
        reason: RemovalReason::Failed,
    };
    assert!(capture.next_event(removed("/b")).is_some());
    assert!(capture.next_event(removed("/c")).is_none());
}

#[test]
fn a_cancelled_setup_goes_no_further() {
    let mut capture = CaptureConnection::new("/c".into(), true);
    let error = capture.connect_cancellable(SetupEvent::Begin, true).unwrap_err();
    assert_eq!(error.describe(), "IPC I/O error: capture cancelled");
    assert!(capture
        .connect_cancellable(SetupEvent::Devices(vec![device("/a")]), false)
        .is_err());
}

#[test]
fn a_reply_must_come_before_its_deadline() {
    assert!(matches!(Client::read_timeout(None, 9), Ok(None)));
    assert!(matches!(Client::read_timeout(Some(10), 4), Ok(Some(6))));
    let error = Client::read_timeout(Some(10), 10).unwrap_err();
    assert_eq!(error.describe(), "IPC I/O error: IPC response deadline exceeded");
    let failure = || IoFailure::new(IoKind::Other, "timeout");
    assert!(matches!(
        Client::finish_request(Ok(ResponseResult::Pong), Ok(())),
        Ok(ResponseResult::Pong)
    ));
    assert!(matches!(
        Client::finish_request(Ok(ResponseResult::Pong), Err(failure())),
        Err(ClientError::Io(_))
    ));
    assert!(matches!(
        Client::finish_request(Err(ClientError::PrematureEof), Err(failure())),
        Err(ClientError::PrematureEof)
    ));
}

#[test]
fn replies_of_another_kind_are_unexpected() {
    assert!(Client::ping(ResponseResult::Pong).is_ok());
    assert!(matches!(
        Client::ping(ResponseResult::Subscribed),
        Err(ClientError::UnexpectedMessage)
    ));
    assert!(Client::subscribe(ResponseResult::Subscribed).is_ok());
    assert!(Client::unsubscribe(ResponseResult::Unsubscribed).is_ok());
    assert!(Client::unsubscribe(ResponseResult::Subscribed).is_err());
    assert!(Client::stop_capture(ResponseResult::CaptureStopped).is_ok());
    assert!(Client::stop_capture(ResponseResult::Pong).is_err());
    assert!(Client::status(ResponseResult::Unknown).is_err());
    assert!(Client::devices(ResponseResult::Unknown).is_err());
    assert!(Client::config(ResponseResult::Config("x".into())).is_ok());
    assert!(Client::config(ResponseResult::Unknown).is_err());
    assert!(Client::start_capture(ResponseResult::Unknown).is_err());
    assert!(Client::diagnostics(ResponseResult::Unknown).is_err());
}

#[test]
fn written_frames_read_back() {
    let mut buffer = FrameBuffer::new();
    let frame = encode_frame(b"{}".to_vec()).unwrap();
    assert_eq!(frame, b"{}\n");
    assert_eq!(buffer.push(&frame).unwrap(), [b"{}".to_vec()]);
    assert!(encode_frame(vec![b'x'; MAX_FRAME_BYTES]).is_ok());
    let error = encode_frame(vec![b'x'; MAX_FRAME_BYTES + 1]).unwrap_err();
    assert_eq!(error.code, ProtocolErrorCode::FrameTooLarge);
}
