//! A client of the daemon: greeting, requests, replies and notifications.
use crate::capture::{CaptureConnection, SetupAction, SetupEvent};
use crate::client::{Client, ClientError};
use crate::frame;
use crate::protocol::{
    Command, DeviceInfo, Diagnostics, Notification, ProtocolError, ProtocolErrorCode,
    ResponseResult, ServerMessage, Status, Subscription,
};
use vstd::prelude::*;
use vstd::string::*;

verus! {

/// A client greets with version 1, and takes the daemon's minor version from an answer with version
/// 1; any other version and any other answer fail, and change nothing.
pub proof fn a_client_speaks_version_one(
    command: Command,
    client: &mut Client,
    reply: ResponseResult,
    result: Result<(), ClientError>,
)
    requires
        call_ensures(Client::hello_command, (), command),
        call_ensures(Client::hello, (client, reply), result),
    ensures
        command matches Command::Hello { min_major, max_major } && min_major == 1 && max_major == 1,
        reply matches ResponseResult::Hello { major, minor, .. } ==> if major == 1 {
            result is Ok && final(client)@.protocol_minor == minor
        } else {
            result == Err::<(), ClientError>(ClientError::UnsupportedVersion { major, minor })
                && final(client)@ == old(client)@
        },
        reply !is Hello ==> result == Err::<(), ClientError>(ClientError::UnexpectedMessage)
            && final(client)@ == old(client)@,
{
}

/// What the daemon tells arrives as it was told.
pub proof fn answers_arrive_unchanged(
    status: Status,
    devices: Vec<DeviceInfo>,
    diagnostics: Diagnostics,
    config: String,
    device: DeviceInfo,
    a: Result<Status, ClientError>,
    b: Result<Vec<DeviceInfo>, ClientError>,
    c: Result<Diagnostics, ClientError>,
    d: Result<String, ClientError>,
    e: Result<DeviceInfo, ClientError>,
)
    ensures
        call_ensures(Client::status, (ResponseResult::Status(status),), a) ==> a == Ok::<
            Status,
            ClientError,
        >(status),
        call_ensures(Client::devices, (ResponseResult::Devices(devices),), b) ==> b == Ok::<
            Vec<DeviceInfo>,
            ClientError,
        >(devices),
        call_ensures(Client::diagnostics, (ResponseResult::Diagnostics(diagnostics),), c) ==> c
            == Ok::<Diagnostics, ClientError>(diagnostics),
        call_ensures(Client::config, (ResponseResult::Config(config),), d) ==> d == Ok::<
            String,
            ClientError,
        >(config),
        call_ensures(Client::start_capture, (ResponseResult::CaptureStarted(device),), e) ==> e
            == Ok::<DeviceInfo, ClientError>(device),
{
}

/// An answer of another kind than the request is an error.
pub proof fn answers_of_another_kind_are_errors(
    reply: ResponseResult,
    a: Result<Status, ClientError>,
    b: Result<Vec<DeviceInfo>, ClientError>,
    c: Result<Diagnostics, ClientError>,
    d: Result<String, ClientError>,
    e: Result<DeviceInfo, ClientError>,
    f: Result<(), ClientError>,
)
    ensures
        call_ensures(Client::status, (reply,), a) && reply !is Status ==> a == Err::<
            Status,
            ClientError,
        >(ClientError::UnexpectedMessage),
        call_ensures(Client::devices, (reply,), b) && reply !is Devices ==> b == Err::<
            Vec<DeviceInfo>,
            ClientError,
        >(ClientError::UnexpectedMessage),
        call_ensures(Client::diagnostics, (reply,), c) && reply !is Diagnostics ==> c == Err::<
            Diagnostics,
            ClientError,
        >(ClientError::UnexpectedMessage),
        call_ensures(Client::config, (reply,), d) && reply !is Config ==> d == Err::<
            String,
            ClientError,
        >(ClientError::UnexpectedMessage),
        call_ensures(Client::start_capture, (reply,), e) && reply !is CaptureStarted ==> e
            == Err::<DeviceInfo, ClientError>(ClientError::UnexpectedMessage),
        call_ensures(Client::ping, (reply,), f) ==> f is Ok == reply is Pong,
        call_ensures(Client::subscribe, (reply,), f) ==> f is Ok == reply is Subscribed,
        call_ensures(Client::unsubscribe, (reply,), f) ==> f is Ok == reply is Unsubscribed,
        call_ensures(Client::stop_capture, (reply,), f) ==> f is Ok == reply is CaptureStopped,
{
}

/// A client subscribes to everything, and unsubscribes from everything.
pub proof fn clients_subscribe_to_everything(subscribe: Command, unsubscribe: Command)
    requires
        call_ensures(Client::subscribe_command, (), subscribe),
        call_ensures(Client::unsubscribe_command, (), unsubscribe),
    ensures
        subscribe matches Command::Subscribe { subscriptions } && subscriptions@.len() == 1
            && subscriptions@[0] == Subscription::All,
        unsubscribe matches Command::Unsubscribe { subscriptions } && subscriptions@.len() == 1
            && subscriptions@[0] == Subscription::All,
{
}

/// Two requests in a row have different numbers, and none has the number zero.
pub proof fn requests_are_numbered(
    first: &mut Client,
    second: &mut Client,
    a: Result<u64, ClientError>,
    b: Result<u64, ClientError>,
)
    requires
        call_ensures(Client::request, (first, ), a),
        call_ensures(Client::request, (second, ), b),
        *old(second) == *final(first),
        !old(first)@.terminated,
    ensures
        a matches Ok(m) && m != 0 && (b matches Ok(n) && n != 0 && n != m),
{
}

/// While a client waits for the reply to a request, the reply with its number ends the waiting with
/// what it holds, one with another number is an error, and a refusal is an error with its reason.
pub proof fn replies_end_the_waiting(
    client: &mut Client,
    id: u64,
    message: ServerMessage,
    bytes: usize,
    result: Result<Option<ResponseResult>, ClientError>,
)
    requires
        call_ensures(Client::read_response, (client, id, message, bytes), result),
    ensures
        message matches ServerMessage::Response { id: actual, result: answer } ==> {
            &&& actual == id ==> result == Ok::<Option<ResponseResult>, ClientError>(Some(answer))
            &&& actual != id ==> result == Err::<Option<ResponseResult>, ClientError>(
                ClientError::UnexpectedResponseId { expected: id, actual },
            )
        },
        message matches ServerMessage::Error { id: about, error } ==> {
            &&& about is None || about == Some(id) ==> result == Err::<
                Option<ResponseResult>,
                ClientError,
            >(ClientError::Server { error })
            &&& about is Some && about != Some(id) ==> result == Err::<
                Option<ResponseResult>,
                ClientError,
            >(ClientError::UnexpectedResponseId { expected: id, actual: about->0 })
        },
        message !is Notification ==> final(client)@ == old(client)@,
{
}

/// Notifications that arrive while a client waits for a reply are kept, in order, until it asks for
/// them: the first one that was kept is the first that comes out.
pub proof fn notifications_are_kept_in_order(
    client: &mut Client,
    id: u64,
    notification: Notification,
    bytes: usize,
    result: Result<Option<ResponseResult>, ClientError>,
)
    requires
        call_ensures(
            Client::read_response,
            (client, id, ServerMessage::Notification(notification), bytes),
            result,
        ),
        crate::client::backlog(old(client)@.notifications) + bytes <= 262144,
    ensures
        result == Ok::<Option<ResponseResult>, ClientError>(None),
        final(client)@.notifications.len() == old(client)@.notifications.len() + 1,
        final(client)@.notifications.last().0 == notification,
        forall|k: int|
            0 <= k < old(client)@.notifications.len() ==> #[trigger] final(client)@.notifications[k]
                == old(client)@.notifications[k],
        final(client)@.terminated == old(client)@.terminated,
{
}

/// A client that asks for a notification gets the oldest that was kept, and that one is kept no
/// longer; it gets none exactly where none is kept.
pub proof fn kept_notifications_come_out_in_order(
    client: &mut Client,
    result: Result<Option<Notification>, ClientError>,
)
    requires
        call_ensures(Client::next_event, (client, ), result),
        !old(client)@.terminated,
    ensures
        old(client)@.notifications.len() == 0 ==> result == Ok::<
            Option<Notification>,
            ClientError,
        >(None) && final(client)@ == old(client)@,
        old(client)@.notifications.len() > 0 ==> {
            &&& result == Ok::<Option<Notification>, ClientError>(
                Some(old(client)@.notifications[0].0),
            )
            &&& final(client)@.notifications.len() == old(client)@.notifications.len() - 1
            &&& forall|k: int|
                0 <= k < final(client)@.notifications.len()
                    ==> #[trigger] final(client)@.notifications[k]
                        == old(client)@.notifications[k + 1]
        },
{
}

/// More notifications than a quarter of a megabyte end the client: it fails from then on, and says
/// why.
pub proof fn a_backlog_ends_the_client(
    client: &mut Client,
    notification: Notification,
    bytes: usize,
    result: Result<(), ClientError>,
    later: &mut Client,
    request: Result<u64, ClientError>,
)
    requires
        call_ensures(Client::queue_notification, (client, notification, bytes), result),
        crate::client::backlog(old(client)@.notifications) + bytes > 262144,
        *old(later) == *final(client),
        call_ensures(Client::request, (later, ), request),
    ensures
        result == Err::<(), ClientError>(
            ClientError::NotificationBacklogExceeded { limit: 262144 },
        ),
        request == Err::<u64, ClientError>(
            ClientError::NotificationBacklogExceeded { limit: 262144 },
        ),
{
}

/// A message that arrives by itself is a notification, or an error.
pub proof fn only_notifications_arrive_by_themselves(
    message: ServerMessage,
    result: Result<Notification, ClientError>,
)
    requires
        call_ensures(Client::poll_event, (message,), result),
    ensures
        message matches ServerMessage::Notification(n) ==> result == Ok::<
            Notification,
            ClientError,
        >(n),
        message matches ServerMessage::Error { error, .. } ==> result == Err::<
            Notification,
            ClientError,
        >(ClientError::Server { error }),
        message is Response ==> result == Err::<Notification, ClientError>(
            ClientError::UnexpectedMessage,
        ),
{
}

/// A client takes messages off the stream in the order in which they came.
pub proof fn messages_come_out_in_order(
    client: &mut Client,
    bytes: &Vec<u8>,
    message: ServerMessage,
    pushed: Result<(), ClientError>,
    later: &mut Client,
    polled: Option<(ServerMessage, usize)>,
)
    requires
        call_ensures(Client::push_message, (client, bytes, Ok(message)), pushed),
        *old(later) == *final(client),
        call_ensures(Client::poll_message, (later, ), polled),
    ensures
        pushed is Ok,
        polled matches Some((first, _)) && first == (if old(client)@.messages.len() == 0 {
            message
        } else {
            old(client)@.messages[0].0
        }),
        final(later)@.messages.len() == old(client)@.messages.len(),
{
}

/// A frame that arrives whole, with nothing waiting before it, comes out as its body.
pub proof fn whole_frames_come_out(
    client: &mut Client,
    chunk: &[u8],
    body: Seq<u8>,
    result: Result<Vec<Vec<u8>>, ClientError>,
)
    requires
        call_ensures(Client::receive, (client, chunk), result),
        old(client)@.partial.len() == 0,
        chunk@ == body.push(10),
        body.len() <= 65536,
        !body.contains(10),
    ensures
        result matches Ok(frames) && frames@.len() == 1 && frames@[0]@ == body,
        final(client)@.partial.len() == 0,
{
    frame::written_frames_read_back(body);
    assert(old(client)@.partial + chunk@ =~= body.push(10));
    if let Ok(frames) = result {
        assert(frame::contents(frames@) == seq![body]);
        assert(frame::contents(frames@).len() == frames@.len());
        assert(frame::contents(frames@)[0] == frames@[0]@);
    }
}

/// The end of the line is an error.
pub proof fn the_end_of_the_line_is_an_error(
    client: &mut Client,
    chunk: &[u8],
    result: Result<Vec<Vec<u8>>, ClientError>,
)
    requires
        call_ensures(Client::receive, (client, chunk), result),
        chunk@.len() == 0,
    ensures
        result == Err::<Vec<Vec<u8>>, ClientError>(ClientError::PrematureEof),
{
}

/// A body is framed by one line feed behind it, unless it is longer than 65536 bytes.
pub proof fn frames_end_with_a_line_feed(body: Vec<u8>, result: Result<Vec<u8>, ProtocolError>)
    requires
        call_ensures(frame::encode_frame, (body,), result),
    ensures
        body@.len() <= 65536 ==> (result matches Ok(bytes) && bytes@ == body@.push(10)),
        body@.len() > 65536 ==> (result matches Err(error) && error.code
            == ProtocolErrorCode::FrameTooLarge),
{
}

/// Frames that come in are those between the line feeds: what was cut apart by them is put together
/// by them, and nothing else is cut.
pub proof fn frames_are_cut_at_line_feeds(bytes: Seq<u8>, i: int, k: int)
    ensures
        frame::join(frame::split(bytes).0) + frame::split(bytes).1 == bytes,
        0 <= i < frame::split(bytes).0.len() && 0 <= k < frame::split(bytes).0[i].len()
            ==> frame::split(bytes).0[i][k] != 10,
        0 <= k < frame::split(bytes).1.len() ==> frame::split(bytes).1[k] != 10,
        frame::join(Seq::empty()) == Seq::<u8>::empty(),
        frame::split(bytes).0.len() > 0 ==> frame::join(frame::split(bytes).0) == frame::join(
            frame::split(bytes).0.drop_last(),
        ) + frame::split(bytes).0.last() + seq![10u8],
{
    frame::frames_conserve_bytes(bytes);
    let frames = frame::split(bytes).0;
    if frames.len() > 0 {
        assert(frames.last().push(10) =~= frames.last() + seq![10u8]);
        assert(frame::join(frames) =~= frame::join(frames.drop_last()) + frames.last() + seq![
            10u8,
        ]);
    }
}

/// The daemon's socket is in the directory of the session, which must be an absolute path.
pub proof fn the_socket_is_in_the_runtime_directory(
    runtime: Option<&str>,
    result: Result<String, ClientError>,
)
    requires
        call_ensures(crate::client::default_socket_path, (runtime,), result),
    ensures
        runtime is None ==> result == Err::<String, ClientError>(
            ClientError::RuntimeDirectoryMissing,
        ),
        runtime matches Some(dir) ==> {
            &&& dir@.len() > 1 && dir@[0] == '/' && dir@.last() != '/' ==> (result matches Ok(
                path,
            ) && path@ == dir@ + "/wiiland/wiilandd.sock"@)
            &&& dir@.len() == 0 || dir@[0] != '/' ==> (result matches Err(
                ClientError::RuntimeDirectoryRelative(path),
            ) && path@ == dir@)
        },
{
    if let Some(dir) = runtime {
        if dir@.len() > 1 && dir@[0] == '/' && dir@.last() != '/' {
            reveal_strlit("/wiiland/wiilandd.sock");
            reveal_strlit("wiilandd.sock");
            reveal_strlit("wiiland");
            reveal_strlit("/");
            let base = dir@ + "/"@ + "wiiland"@;
            assert(base.last() == 'd');
            assert(base + "/"@ + "wiilandd.sock"@ =~= dir@ + "/wiiland/wiilandd.sock"@);
        }
    }
}

/// The user's configuration is in the configuration directory, or else in `.config` under the home
/// directory; relative paths are no directories.
pub proof fn the_users_file_is_in_the_config_directory(
    xdg: Option<&str>,
    home: Option<&str>,
    path: Option<String>,
)
    requires
        call_ensures(crate::client::user_config_path, (xdg, home), path),
    ensures
        xdg matches Some(dir) ==> (dir@.len() > 1 && dir@[0] == '/' && dir@.last() != '/' ==> (
        path matches Some(p) && p@ == dir@ + "/wiiland/wiilandd.conf"@)),
        (xdg is None || xdg->0@.len() == 0 || xdg->0@[0] != '/') ==> {
            &&& home matches Some(dir) ==> (dir@.len() > 1 && dir@[0] == '/' && dir@.last() != '/'
                ==> (path matches Some(p) && p@ == dir@ + "/.config/wiiland/wiilandd.conf"@))
            &&& (home is None || home->0@.len() == 0 || home->0@[0] != '/') ==> path is None
        },
{
    reveal_strlit("/wiiland/wiilandd.conf");
    reveal_strlit("/.config/wiiland/wiilandd.conf");
    reveal_strlit("wiilandd.conf");
    reveal_strlit("wiiland");
    reveal_strlit(".config");
    reveal_strlit("/");
    if let Some(dir) = xdg {
        let base = dir@ + "/"@ + "wiiland"@;
        assert(base.last() == 'd');
        assert(base + "/"@ + "wiilandd.conf"@ =~= dir@ + "/wiiland/wiilandd.conf"@);
    }
    if let Some(dir) = home {
        let config = dir@ + "/"@ + ".config"@;
        assert(config.last() == 'g');
        let base = config + "/"@ + "wiiland"@;
        assert(base.last() == 'd');
        assert(base + "/"@ + "wiilandd.conf"@ =~= dir@ + "/.config/wiiland/wiilandd.conf"@);
    }
}

/// A capture is set up in one order: connect, ask for the status, ask for the devices, subscribe and
/// capture each chosen device; a cancellation ends it at any point.
pub proof fn captures_are_set_up_in_order(
    capture: &mut CaptureConnection,
    event: SetupEvent,
    result: Result<SetupAction, ClientError>,
)
    requires
        call_ensures(CaptureConnection::connect_cancellable, (capture, event, false), result),
    ensures
        event is Begin ==> result == Ok::<SetupAction, ClientError>(SetupAction::Connect),
        event is Connected ==> result == Ok::<SetupAction, ClientError>(
            SetupAction::RequestStatus,
        ),
        event matches SetupEvent::Status(status) ==> result == Ok::<SetupAction, ClientError>(
            SetupAction::RequestDevices,
        ) && final(capture).status == Some(status),
        event is Subscribed && old(capture).devices@.len() > old(capture).captured ==> (
        result matches Ok(SetupAction::StartCapture(path)) && path@
            == old(capture).devices@[old(capture).captured as int].syspath@),
        event is CaptureStarted && old(capture).devices@.len() > old(capture).captured + 1 ==> (
        result matches Ok(SetupAction::StartCapture(path)) && path@
            == old(capture).devices@[old(capture).captured + 1].syspath@),
        event matches SetupEvent::CaptureStarted(device) ==> (old(capture).devices@.len()
            == old(capture).captured + 1 ==> result
                == Ok::<SetupAction, ClientError>(SetupAction::Ready)
            && final(capture).devices@.last() == device),
{
}

/// A setup that is cancelled does not go on.
pub proof fn cancelled_captures_end(
    capture: &mut CaptureConnection,
    event: SetupEvent,
    result: Result<SetupAction, ClientError>,
)
    requires
        call_ensures(CaptureConnection::connect_cancellable, (capture, event, true), result),
    ensures
        result is Err,
{
}

/// A capture hears of the devices that it captures, and of no other.
pub proof fn captures_hear_of_their_devices(
    capture: &CaptureConnection,
    event: Notification,
    kept: Option<Notification>,
    path: Seq<char>,
)
    requires
        call_ensures(CaptureConnection::next_event, (capture, event), kept),
        event matches Notification::Input { syspath, .. } ==> syspath@ == path,
        event matches Notification::DeviceRemoved { syspath, .. } ==> syspath@ == path,
        event matches Notification::DeviceAdded { device, .. } ==> device.syspath@ == path,
        event !is Unsupported,
    ensures
        (exists|i: int|
            0 <= i < capture.devices@.len() && (#[trigger] capture.devices@[i]).syspath@ == path)
            ==> kept == Some(event),
        (forall|i: int|
            0 <= i < capture.devices@.len() ==> (#[trigger] capture.devices@[i]).syspath@ != path)
            ==> kept is None,
{
}

/// A stream that was cut anywhere gives the same frames as the whole.
pub proof fn streams_may_be_cut_anywhere(
    first: &mut frame::FrameBuffer,
    a: &[u8],
    early: Result<Vec<Vec<u8>>, ProtocolError>,
    second: &mut frame::FrameBuffer,
    b: &[u8],
    late: Result<Vec<Vec<u8>>, ProtocolError>,
)
    requires
        call_ensures(frame::FrameBuffer::push, (first, a), early),
        *old(second) == *final(first),
        call_ensures(frame::FrameBuffer::push, (second, b), late),
        early is Ok,
        late is Ok,
    ensures
        frame::contents(early->Ok_0@) + frame::contents(late->Ok_0@) == frame::split(
            old(first)@ + a@ + b@,
        ).0,
        final(second)@ == frame::split(old(first)@ + a@ + b@).1,
{
    frame::chunking_does_not_matter(old(first)@ + a@, b@);
}

/// A client starts with nothing kept, nothing waiting and the first number.
pub proof fn clients_start_with_nothing(client: Client)
    requires
        call_ensures(Client::new, (), client),
    ensures
        client@.notifications.len() == 0 && client@.messages.len() == 0 && client@.partial.len()
            == 0,
        !client@.terminated && client@.next_id == 1 && client@.protocol_minor == 0,
{
}

/// What is kept counts by the bytes of its frames.
pub proof fn backlogs_count_bytes(kept: Seq<(Notification, usize)>, next: Notification, bytes: usize)
    ensures
        crate::client::backlog(Seq::empty()) == 0,
        crate::client::backlog(kept.push((next, bytes))) == crate::client::backlog(kept) + bytes,
{
    assert(kept.push((next, bytes)).drop_last() =~= kept);
}

} // verus!
