//! The client's side of the protocol: request numbers, replies, and notifications that arrive
//! early.
use crate::failure::{IoFailure, IoKind};
use crate::frame;
use crate::frame::FrameBuffer;
use crate::protocol::{
    Command, DeviceInfo, Diagnostics, Notification, ProtocolError, ProtocolErrorCode,
    ResponseResult, ServerMessage, Status, Subscription, PROTOCOL_MAJOR,
};
use crate::text;
use std::collections::VecDeque;
use vstd::prelude::*;
use vstd::string::*;

verus! {

/// The most bytes of notifications that wait while a reply is read.
pub const MAX_NOTIFICATION_BACKLOG_BYTES: usize = 262144;

/// Why a client cannot go on.
#[derive(Debug)]
pub enum ClientError {
    Io(IoFailure),
    Frame(ProtocolError),
    Server { error: ProtocolError },
    UnexpectedResponseId { expected: u64, actual: u64 },
    UnexpectedMessage,
    UnsupportedVersion { major: u16, minor: u16 },
    NotificationBacklogExceeded { limit: usize },
    SessionBacklogExceeded { limit: usize },
    UnsupportedFeature { peer_minor: u16, required_minor: u16 },
    PrematureEof,
    RuntimeDirectoryMissing,
    RuntimeDirectoryRelative(String),
}

impl ClientError {
    /// The text for people.
    pub open spec fn text(self) -> Seq<char> {
        match self {
            ClientError::Io(failure) => "IPC I/O error: "@ + failure.message@,
            ClientError::Frame(error) => "IPC framing error: "@ + error.message@,
            ClientError::Server { error } => "IPC server error: "@ + error.message@,
            ClientError::UnexpectedResponseId { expected, actual } =>
                "IPC response id mismatch: expected "@ + text::decimal(expected as nat) + ", got "@
                + text::decimal(actual as nat),
            ClientError::UnexpectedMessage => "unexpected IPC message"@,
            ClientError::UnsupportedVersion { major, minor } =>
                "unsupported IPC protocol version "@ + text::decimal(major as nat) + "."@
                + text::decimal(minor as nat),
            ClientError::NotificationBacklogExceeded { limit } =>
                "IPC notification backlog exceeded the "@ + text::decimal(limit as nat)
                + "-byte limit"@,
            ClientError::SessionBacklogExceeded { limit } => "IPC session exceeded its "@
                + text::decimal(limit as nat) + "-event queue; reconnect to resume"@,
            ClientError::UnsupportedFeature { peer_minor, required_minor } =>
                "operation requires daemon protocol 1."@ + text::decimal(required_minor as nat)
                + "; connected daemon provides 1."@ + text::decimal(peer_minor as nat),
            ClientError::PrematureEof => "IPC peer closed the connection"@,
            ClientError::RuntimeDirectoryMissing => "XDG_RUNTIME_DIR is not set"@,
            ClientError::RuntimeDirectoryRelative(path) => "XDG_RUNTIME_DIR is not absolute: "@
                + path@,
        }
    }

    /// The text for people.
    pub fn describe(&self) -> (r: String)
        ensures
            r@ == self.text(),
    {
        let mut out = String::new();
        match self {
            ClientError::Io(failure) => {
                out.append("IPC I/O error: ");
                out.append(failure.message.as_str());
            },
            ClientError::Frame(error) => {
                out.append("IPC framing error: ");
                out.append(error.message.as_str());
            },
            ClientError::Server { error } => {
                out.append("IPC server error: ");
                out.append(error.message.as_str());
            },
            ClientError::UnexpectedResponseId { expected, actual } => {
                out.append("IPC response id mismatch: expected ");
                text::append_decimal(&mut out, *expected);
                out.append(", got ");
                text::append_decimal(&mut out, *actual);
            },
            ClientError::UnexpectedMessage => {
                out.append("unexpected IPC message");
            },
            ClientError::UnsupportedVersion { major, minor } => {
                out.append("unsupported IPC protocol version ");
                text::append_decimal(&mut out, *major as u64);
                out.append(".");
                text::append_decimal(&mut out, *minor as u64);
            },
            ClientError::NotificationBacklogExceeded { limit } => {
                out.append("IPC notification backlog exceeded the ");
                text::append_decimal(&mut out, *limit as u64);
                out.append("-byte limit");
            },
            ClientError::SessionBacklogExceeded { limit } => {
                out.append("IPC session exceeded its ");
                text::append_decimal(&mut out, *limit as u64);
                out.append("-event queue; reconnect to resume");
            },
            ClientError::UnsupportedFeature { peer_minor, required_minor } => {
                out.append("operation requires daemon protocol 1.");
                text::append_decimal(&mut out, *required_minor as u64);
                out.append("; connected daemon provides 1.");
                text::append_decimal(&mut out, *peer_minor as u64);
            },
            ClientError::PrematureEof => {
                out.append("IPC peer closed the connection");
            },
            ClientError::RuntimeDirectoryMissing => {
                out.append("XDG_RUNTIME_DIR is not set");
            },
            ClientError::RuntimeDirectoryRelative(path) => {
                out.append("XDG_RUNTIME_DIR is not absolute: ");
                out.append(path.as_str());
            },
        }
        assert(out@ =~= self.text());
        out
    }
}

/// Whether a failure means that the peer went away.
pub open spec fn is_disconnect(kind: IoKind) -> bool {
    kind is BrokenPipe || kind is ConnectionReset || kind is UnexpectedEof
}

/// What a failure of the stream means to a client: a peer that went away is an early end.
pub fn map_stream_io_error(failure: IoFailure) -> (error: ClientError)
    ensures
        error == (if is_disconnect(failure.kind) {
            ClientError::PrematureEof
        } else {
            ClientError::Io(failure)
        }),
{
    match failure.kind {
        IoKind::BrokenPipe
        | IoKind::ConnectionReset
        | IoKind::UnexpectedEof => ClientError::PrematureEof,
        _ => ClientError::Io(failure),
    }
}

/// Whether a path starts at the root.
pub open spec fn is_absolute(path: Seq<char>) -> bool {
    path.len() > 0 && path[0] == '/'
}

/// A path and a name below it.
pub open spec fn joined(base: Seq<char>, name: Seq<char>) -> Seq<char> {
    if base.len() > 0 && base.last() != '/' {
        base + "/"@ + name
    } else {
        base + name
    }
}

/// Whether a path starts at the root.
pub fn absolute(path: &str) -> (r: bool)
    ensures
        r == is_absolute(path@),
{
    !path.is_empty() && path.get_char(0) == '/'
}

/// A path and a name below it.
pub fn join_path(base: &str, name: &str) -> (r: String)
    ensures
        r@ == joined(base@, name@),
{
    let mut out = base.to_owned();
    let n: usize = base.unicode_len();
    if n > 0 && base.get_char(n - 1) != '/' {
        out.append("/");
    }
    out.append(name);
    out
}

/// The daemon's socket below the runtime directory that the environment names.
pub fn default_socket_path(runtime: Option<&str>) -> (result: Result<String, ClientError>)
    ensures
        match runtime {
            None => result == Err::<String, ClientError>(ClientError::RuntimeDirectoryMissing),
            Some(directory) => if is_absolute(directory@) {
                result matches Ok(path) && path@ == joined(
                    joined(directory@, "wiiland"@),
                    "wiilandd.sock"@,
                )
            } else {
                result matches Err(ClientError::RuntimeDirectoryRelative(path)) && path@
                    == directory@
            },
        },
{
    match runtime {
        None => Err(ClientError::RuntimeDirectoryMissing),
        Some(directory) => {
            if !absolute(directory) {
                return Err(ClientError::RuntimeDirectoryRelative(directory.to_owned()));
            }
            let base = join_path(directory, "wiiland");
            Ok(join_path(base.as_str(), "wiilandd.sock"))
        },
    }
}

/// The user's configuration file below the directories that the environment names. A directory
/// that is not absolute is ignored.
pub open spec fn user_path(xdg: Option<Seq<char>>, home: Option<Seq<char>>) -> Option<Seq<char>> {
    let base = match xdg {
        Some(directory) if is_absolute(directory) => Some(directory),
        _ => match home {
            Some(directory) if is_absolute(directory) => Some(joined(directory, ".config"@)),
            _ => None,
        },
    };
    match base {
        Some(directory) => Some(joined(joined(directory, "wiiland"@), "wiilandd.conf"@)),
        None => None,
    }
}

/// The user's configuration file below the directories that the environment names.
pub fn user_config_path(xdg: Option<&str>, home: Option<&str>) -> (path: Option<String>)
    ensures
        match path {
            Some(p) => user_path(
                crate::config::optional_text(xdg),
                crate::config::optional_text(home),
            ) == Some(p@),
            None => user_path(
                crate::config::optional_text(xdg),
                crate::config::optional_text(home),
            ) is None,
        },
{
    let mut base: Option<String> = None;
    if let Some(directory) = xdg {
        if absolute(directory) {
            base = Some(directory.to_owned());
        }
    }
    if base.is_none() {
        if let Some(directory) = home {
            if absolute(directory) {
                base = Some(join_path(directory, ".config"));
            }
        }
    }
    match base {
        Some(directory) => {
            let inner = join_path(directory.as_str(), "wiiland");
            Some(join_path(inner.as_str(), "wiilandd.conf"))
        },
        None => None,
    }
}

/// The bytes of a list of notifications.
pub open spec fn backlog(notifications: Seq<(Notification, usize)>) -> nat
    decreases notifications.len(),
{
    if notifications.len() == 0 {
        0
    } else {
        backlog(notifications.drop_last()) + notifications.last().1 as nat
    }
}

proof fn lemma_backlog_front(notifications: Seq<(Notification, usize)>)
    requires
        notifications.len() > 0,
    ensures
        backlog(notifications) == notifications[0].1 + backlog(
            notifications.subrange(1, notifications.len() as int),
        ),
    decreases notifications.len(),
{
    let tail = notifications.subrange(1, notifications.len() as int);
    if notifications.len() > 1 {
        lemma_backlog_front(notifications.drop_last());
        assert(tail.drop_last() =~= notifications.drop_last().subrange(
            1,
            notifications.len() - 1,
        ));
        assert(tail.last() == notifications.last());
    } else {
        assert(notifications.drop_last() =~= Seq::empty());
        assert(tail =~= Seq::empty());
    }
}

/// The state of a connection, as its client sees it.
#[verifier::ext_equal]
pub struct ClientView {
    /// The bytes of the frame that is being received.
    pub partial: Seq<u8>,
    /// Notifications that arrived while a reply was read, with the sizes of their frames.
    pub notifications: Seq<(Notification, usize)>,
    /// Messages that were received and not yet looked at, with the sizes of their frames.
    pub messages: Seq<(ServerMessage, usize)>,
    /// Whether too many notifications arrived.
    pub terminated: bool,
    /// The number of the next request.
    pub next_id: u64,
    /// The optional features that the daemon offers.
    pub protocol_minor: u16,
}

/// The protocol state of one connection.
pub struct Client {
    frames: FrameBuffer,
    notifications: VecDeque<(Notification, usize)>,
    notification_bytes: usize,
    messages: VecDeque<(ServerMessage, usize)>,
    terminated: bool,
    next_id: u64,
    protocol_minor: u16,
}

impl View for Client {
    type V = ClientView;

    closed spec fn view(&self) -> ClientView {
        ClientView {
            partial: self.frames@,
            notifications: self.notifications@,
            messages: self.messages@,
            terminated: self.terminated,
            next_id: self.next_id,
            protocol_minor: self.protocol_minor,
        }
    }
}

/// The number after `id`. Zero is left out.
pub open spec fn successor(id: u64) -> u64 {
    if id == u64::MAX {
        1
    } else {
        (id + 1) as u64
    }
}

/// What a message means to a client that waits for the reply to a request.
pub open spec fn reply_to(id: u64, message: ServerMessage) -> Result<ResponseResult, ClientError> {
    match message {
        ServerMessage::Response { id: actual, result } => if actual == id {
            Ok(result)
        } else {
            Err(ClientError::UnexpectedResponseId { expected: id, actual })
        },
        ServerMessage::Error { id: Some(actual), error } if actual != id => Err(
            ClientError::UnexpectedResponseId { expected: id, actual },
        ),
        ServerMessage::Error { error, .. } => Err(ClientError::Server { error }),
        ServerMessage::Notification(_) => Err(ClientError::UnexpectedMessage),
    }
}

impl Client {
    /// Whether the byte count is that of the waiting notifications and within the limit.
    pub closed spec fn well_formed(self) -> bool {
        &&& self.frames.well_formed()
        &&& self.notification_bytes == backlog(self.notifications@)
        &&& self.notification_bytes <= MAX_NOTIFICATION_BACKLOG_BYTES
        &&& self.next_id != 0
    }

    /// A connection before anything was exchanged.
    pub fn new() -> (client: Client)
        ensures
            client.well_formed(),
            client@ == (ClientView {
                partial: Seq::empty(),
                notifications: Seq::empty(),
                messages: Seq::empty(),
                terminated: false,
                next_id: 1,
                protocol_minor: 0,
            }),
    {
        let client = Client {
            frames: FrameBuffer::new(),
            notifications: VecDeque::new(),
            notification_bytes: 0,
            messages: VecDeque::new(),
            terminated: false,
            next_id: 1,
            protocol_minor: 0,
        };
        assert(client@ =~= (ClientView {
            partial: Seq::empty(),
            notifications: Seq::empty(),
            messages: Seq::empty(),
            terminated: false,
            next_id: 1,
            protocol_minor: 0,
        }));
        client
    }

    /// The agreed version.
    pub fn protocol_version(&self) -> (version: (u16, u16))
        ensures
            version == (PROTOCOL_MAJOR, self@.protocol_minor),
    {
        (PROTOCOL_MAJOR, self.protocol_minor)
    }

    /// Fails where the daemon does not offer a feature.
    pub fn require_minor(&self, required_minor: u16) -> (result: Result<(), ClientError>)
        ensures
            result == (if self@.protocol_minor < required_minor {
                Err(
                    ClientError::UnsupportedFeature {
                        peer_minor: self@.protocol_minor,
                        required_minor,
                    },
                )
            } else {
                Ok(())
            }),
    {
        if self.protocol_minor < required_minor {
            Err(
                ClientError::UnsupportedFeature {
                    peer_minor: self.protocol_minor,
                    required_minor,
                },
            )
        } else {
            Ok(())
        }
    }

    /// Fails once too many notifications have arrived.
    pub fn ensure_active(&self) -> (result: Result<(), ClientError>)
        ensures
            result == (if self@.terminated {
                Err(
                    ClientError::NotificationBacklogExceeded {
                        limit: MAX_NOTIFICATION_BACKLOG_BYTES,
                    },
                )
            } else {
                Ok(())
            }),
    {
        if self.terminated {
            Err(
                ClientError::NotificationBacklogExceeded { limit: MAX_NOTIFICATION_BACKLOG_BYTES },
            )
        } else {
            Ok(())
        }
    }

    fn allocate_id(&mut self) -> (id: u64)
        requires
            old(self).well_formed(),
        ensures
            final(self).well_formed(),
            id == old(self)@.next_id,
            id != 0,
            final(self)@ == (ClientView { next_id: successor(old(self)@.next_id), ..old(self)@ }),
    {
        let id: u64 = self.next_id;
        self.next_id = self.next_id.wrapping_add(1);
        if self.next_id == 0 {
            self.next_id = 1;
        }
        id
    }

    /// Takes the number for the next request. Numbers are given out in turn, and never zero.
    pub fn request(&mut self) -> (result: Result<u64, ClientError>)
        requires
            old(self).well_formed(),
        ensures
            final(self).well_formed(),
            if old(self)@.terminated {
                &&& final(self)@ == old(self)@
                &&& result == Err::<u64, ClientError>(
                    ClientError::NotificationBacklogExceeded {
                        limit: MAX_NOTIFICATION_BACKLOG_BYTES,
                    },
                )
            } else {
                &&& result == Ok::<u64, ClientError>(old(self)@.next_id)
                &&& final(self)@ == (ClientView {
                    next_id: successor(old(self)@.next_id),
                    ..old(self)@
                })
            },
            result matches Ok(id) ==> id != 0,
    {
        match self.ensure_active() {
            Err(error) => Err(error),
            Ok(()) => Ok(self.allocate_id()),
        }
    }

    /// How long the next read of a reply may take, with a deadline and the time now on one clock.
    /// Once the deadline has come, there is no further read.
    pub fn read_timeout(deadline: Option<u64>, now: u64) -> (result: Result<
        Option<u64>,
        ClientError,
    >)
        ensures
            match deadline {
                None => result == Ok::<Option<u64>, ClientError>(None),
                Some(deadline) => if deadline <= now {
                    result matches Err(ClientError::Io(failure)) && failure.is(
                        IoKind::TimedOut,
                        "IPC response deadline exceeded"@,
                    )
                } else {
                    result == Ok::<Option<u64>, ClientError>(Some((deadline - now) as u64))
                },
            },
    {
        match deadline {
            None => Ok(None),
            Some(deadline) => {
                if deadline <= now {
                    return Err(
                        ClientError::Io(
                            IoFailure::new(IoKind::TimedOut, "IPC response deadline exceeded"),
                        ),
                    );
                }
                Ok(Some(deadline - now))
            },
        }
    }

    /// The end of a request, once the caller's own timeout was set again: a failure to set it spoils
    /// a reply, and does not hide a failure of the request.
    pub fn finish_request(
        reply: Result<ResponseResult, ClientError>,
        restored: Result<(), IoFailure>,
    ) -> (result: Result<ResponseResult, ClientError>)
        ensures
            result == (match (reply, restored) {
                (Ok(_), Err(failure)) => Err(ClientError::Io(failure)),
                (reply, _) => reply,
            }),
    {
        match reply {
            Err(error) => Err(error),
            Ok(response) => match restored {
                Ok(()) => Ok(response),
                Err(failure) => Err(ClientError::Io(failure)),
            },
        }
    }

    /// Takes what one read of the stream gave, and gives the frames that it completes. Nothing read
    /// means that the peer has closed.
    pub fn receive(&mut self, chunk: &[u8]) -> (result: Result<Vec<Vec<u8>>, ClientError>)
        requires
            old(self).well_formed(),
        ensures
            final(self).well_formed(),
            chunk@.len() == 0 ==> result == Err::<Vec<Vec<u8>>, ClientError>(
                ClientError::PrematureEof,
            ) && final(self)@ == old(self)@,
            chunk@.len() > 0 ==> match result {
                Ok(frames) => {
                    &&& frame::within_limit(old(self)@.partial + chunk@)
                    &&& frame::contents(frames@) == frame::split(old(self)@.partial + chunk@).0
                    &&& final(self)@ == (ClientView {
                        partial: frame::split(old(self)@.partial + chunk@).1,
                        ..old(self)@
                    })
                },
                Err(error) => {
                    &&& !frame::within_limit(old(self)@.partial + chunk@)
                    &&& error matches ClientError::Frame(refusal) && refusal.is(
                        ProtocolErrorCode::FrameTooLarge,
                        "IPC frame exceeds the maximum size"@,
                    )
                    &&& final(self)@ == old(self)@
                },
            },
    {
        if chunk.len() == 0 {
            return Err(ClientError::PrematureEof);
        }
        match self.frames.push(chunk) {
            Ok(frames) => Ok(frames),
            Err(error) => Err(ClientError::Frame(error)),
        }
    }

    /// Keeps a decoded frame until it is looked at; a frame that does not decode ends the
    /// connection. The size that counts is that of the frame with its delimiter.
    pub fn push_message(
        &mut self,
        frame: &Vec<u8>,
        decoded: Result<ServerMessage, ProtocolError>,
    ) -> (result: Result<(), ClientError>)
        requires
            old(self).well_formed(),
            frame@.len() < usize::MAX,
        ensures
            final(self).well_formed(),
            match decoded {
                Ok(message) => result == Ok::<(), ClientError>(()) && final(self)@ == (ClientView {
                    messages: old(self)@.messages.push((message, (frame@.len() + 1) as usize)),
                    ..old(self)@
                }),
                Err(error) => result == Err::<(), ClientError>(ClientError::Frame(error))
                    && final(self)@ == old(self)@,
            },
    {
        match decoded {
            Ok(message) => {
                let size: usize = frame.len() + 1;
                self.messages.push_back((message, size));
                Ok(())
            },
            Err(error) => Err(ClientError::Frame(error)),
        }
    }

    /// The oldest message that was not yet looked at.
    pub fn poll_message(&mut self) -> (message: Option<(ServerMessage, usize)>)
        requires
            old(self).well_formed(),
        ensures
            final(self).well_formed(),
            if old(self)@.messages.len() == 0 {
                message is None && final(self)@ == old(self)@
            } else {
                message == Some(old(self)@.messages[0]) && final(self)@ == (ClientView {
                    messages: old(self)@.messages.subrange(
                        1,
                        old(self)@.messages.len() as int,
                    ),
                    ..old(self)@
                })
            },
    {
        self.messages.pop_front()
    }

    /// Keeps a notification that arrived while a reply was read. Over the limit the connection is
    /// at an end: nothing is dropped in silence.
    pub fn queue_notification(&mut self, notification: Notification, frame_bytes: usize) -> (result:
        Result<(), ClientError>)
        requires
            old(self).well_formed(),
        ensures
            final(self).well_formed(),
            if backlog(old(self)@.notifications) + frame_bytes <= MAX_NOTIFICATION_BACKLOG_BYTES {
                &&& result == Ok::<(), ClientError>(())
                &&& final(self)@ == (ClientView {
                    notifications: old(self)@.notifications.push((notification, frame_bytes)),
                    ..old(self)@
                })
            } else {
                &&& result == Err::<(), ClientError>(
                    ClientError::NotificationBacklogExceeded {
                        limit: MAX_NOTIFICATION_BACKLOG_BYTES,
                    },
                )
                &&& final(self)@ == (ClientView { terminated: true, ..old(self)@ })
            },
    {
        if frame_bytes > MAX_NOTIFICATION_BACKLOG_BYTES - self.notification_bytes {
            self.terminated = true;
            return Err(
                ClientError::NotificationBacklogExceeded { limit: MAX_NOTIFICATION_BACKLOG_BYTES },
            );
        }
        let ghost before = self.notifications@;
        self.notification_bytes = self.notification_bytes + frame_bytes;
        self.notifications.push_back((notification, frame_bytes));
        assert(self.notifications@.drop_last() =~= before);
        Ok(())
    }

    /// Takes a message while the reply to request `id` is awaited: gives the reply, or nothing yet
    /// where the message was a notification, which is kept.
    pub fn read_response(&mut self, id: u64, message: ServerMessage, frame_bytes: usize) -> (result:
        Result<Option<ResponseResult>, ClientError>)
        requires
            old(self).well_formed(),
        ensures
            final(self).well_formed(),
            match message {
                ServerMessage::Notification(notification) => if backlog(old(self)@.notifications)
                    + frame_bytes <= MAX_NOTIFICATION_BACKLOG_BYTES {
                    &&& result == Ok::<Option<ResponseResult>, ClientError>(None)
                    &&& final(self)@ == (ClientView {
                        notifications: old(self)@.notifications.push((notification, frame_bytes)),
                        ..old(self)@
                    })
                } else {
                    &&& result == Err::<Option<ResponseResult>, ClientError>(
                        ClientError::NotificationBacklogExceeded {
                            limit: MAX_NOTIFICATION_BACKLOG_BYTES,
                        },
                    )
                    &&& final(self)@ == (ClientView { terminated: true, ..old(self)@ })
                },
                _ => {
                    &&& final(self)@ == old(self)@
                    &&& result == (match reply_to(id, message) {
                        Ok(reply) => Ok::<Option<ResponseResult>, ClientError>(Some(reply)),
                        Err(error) => Err(error),
                    })
                },
            },
    {
        match message {
            ServerMessage::Notification(notification) => match self.queue_notification(
                notification,
                frame_bytes,
            ) {
                Ok(()) => Ok(None),
                Err(error) => Err(error),
            },
            ServerMessage::Response { id: actual, result } => {
                if actual != id {
                    return Err(ClientError::UnexpectedResponseId { expected: id, actual });
                }
                Ok(Some(result))
            },
            ServerMessage::Error { id: error_id, error } => {
                if let Some(actual) = error_id {
                    if actual != id {
                        return Err(ClientError::UnexpectedResponseId { expected: id, actual });
                    }
                }
                Err(ClientError::Server { error })
            },
        }
    }

    /// The oldest notification that was kept while a reply was read.
    pub fn next_event(&mut self) -> (result: Result<Option<Notification>, ClientError>)
        requires
            old(self).well_formed(),
        ensures
            final(self).well_formed(),
            if old(self)@.terminated {
                &&& final(self)@ == old(self)@
                &&& result == Err::<Option<Notification>, ClientError>(
                    ClientError::NotificationBacklogExceeded {
                        limit: MAX_NOTIFICATION_BACKLOG_BYTES,
                    },
                )
            } else if old(self)@.notifications.len() == 0 {
                &&& final(self)@ == old(self)@
                &&& result == Ok::<Option<Notification>, ClientError>(None)
            } else {
                &&& result == Ok::<Option<Notification>, ClientError>(
                    Some(old(self)@.notifications[0].0),
                )
                &&& final(self)@ == (ClientView {
                    notifications: old(self)@.notifications.subrange(
                        1,
                        old(self)@.notifications.len() as int,
                    ),
                    ..old(self)@
                })
            },
    {
        if let Err(error) = self.ensure_active() {
            return Err(error);
        }
        let ghost before = self.notifications@;
        match self.notifications.pop_front() {
            Some((notification, frame_bytes)) => {
                proof {
                    lemma_backlog_front(before);
                }
                self.notification_bytes = self.notification_bytes - frame_bytes;
                Ok(Some(notification))
            },
            None => Ok(None),
        }
    }

    /// What a message means to a client that waits for a notification.
    pub fn poll_event(message: ServerMessage) -> (result: Result<Notification, ClientError>)
        ensures
            result == (match message {
                ServerMessage::Notification(notification) => Ok::<Notification, ClientError>(
                    notification,
                ),
                ServerMessage::Response { .. } => Err(ClientError::UnexpectedMessage),
                ServerMessage::Error { error, .. } => Err(ClientError::Server { error }),
            }),
    {
        match message {
            ServerMessage::Notification(notification) => Ok(notification),
            ServerMessage::Response { .. } => Err(ClientError::UnexpectedMessage),
            ServerMessage::Error { error, .. } => Err(ClientError::Server { error }),
        }
    }

    /// The greeting that opens a connection.
    pub fn hello_command() -> (command: Command)
        ensures
            command == (Command::Hello { min_major: PROTOCOL_MAJOR, max_major: PROTOCOL_MAJOR }),
    {
        Command::Hello { min_major: PROTOCOL_MAJOR, max_major: PROTOCOL_MAJOR }
    }

    /// Takes the answer to the greeting. Only a daemon of the same major version is accepted.
    pub fn hello(&mut self, reply: ResponseResult) -> (result: Result<(), ClientError>)
        requires
            old(self).well_formed(),
        ensures
            final(self).well_formed(),
            match reply {
                ResponseResult::Hello { major, minor, .. } => if major == PROTOCOL_MAJOR {
                    &&& result == Ok::<(), ClientError>(())
                    &&& final(self)@ == (ClientView { protocol_minor: minor, ..old(self)@ })
                } else {
                    &&& result == Err::<(), ClientError>(
                        ClientError::UnsupportedVersion { major, minor },
                    )
                    &&& final(self)@ == old(self)@
                },
                _ => {
                    &&& result == Err::<(), ClientError>(ClientError::UnexpectedMessage)
                    &&& final(self)@ == old(self)@
                },
            },
    {
        match reply {
            ResponseResult::Hello { major, minor, .. } => {
                if major == PROTOCOL_MAJOR {
                    self.protocol_minor = minor;
                    Ok(())
                } else {
                    Err(ClientError::UnsupportedVersion { major, minor })
                }
            },
            _ => Err(ClientError::UnexpectedMessage),
        }
    }

    /// The status that a reply holds.
    pub fn status(reply: ResponseResult) -> (result: Result<Status, ClientError>)
        ensures
            result == (match reply {
                ResponseResult::Status(status) => Ok::<Status, ClientError>(status),
                _ => Err(ClientError::UnexpectedMessage),
            }),
    {
        match reply {
            ResponseResult::Status(status) => Ok(status),
            _ => Err(ClientError::UnexpectedMessage),
        }
    }

    /// The devices that a reply holds.
    pub fn devices(reply: ResponseResult) -> (result: Result<Vec<DeviceInfo>, ClientError>)
        ensures
            result == (match reply {
                ResponseResult::Devices(devices) => Ok::<Vec<DeviceInfo>, ClientError>(devices),
                _ => Err(ClientError::UnexpectedMessage),
            }),
    {
        match reply {
            ResponseResult::Devices(devices) => Ok(devices),
            _ => Err(ClientError::UnexpectedMessage),
        }
    }

    /// Whether a reply shows that the daemon is responsive.
    pub fn ping(reply: ResponseResult) -> (result: Result<(), ClientError>)
        ensures
            result == (match reply {
                ResponseResult::Pong => Ok::<(), ClientError>(()),
                _ => Err(ClientError::UnexpectedMessage),
            }),
    {
        match reply {
            ResponseResult::Pong => Ok(()),
            _ => Err(ClientError::UnexpectedMessage),
        }
    }

    /// The command that subscribes to every notification.
    pub fn subscribe_command() -> (command: Command)
        ensures
            command matches Command::Subscribe { subscriptions } && subscriptions@
                == seq![Subscription::All],
    {
        let mut subscriptions: Vec<Subscription> = Vec::new();
        subscriptions.push(Subscription::All);
        assert(subscriptions@ =~= seq![Subscription::All]);
        Command::Subscribe { subscriptions }
    }

    /// The command that ends every subscription.
    pub fn unsubscribe_command() -> (command: Command)
        ensures
            command matches Command::Unsubscribe { subscriptions } && subscriptions@
                == seq![Subscription::All],
    {
        let mut subscriptions: Vec<Subscription> = Vec::new();
        subscriptions.push(Subscription::All);
        assert(subscriptions@ =~= seq![Subscription::All]);
        Command::Unsubscribe { subscriptions }
    }

    /// Whether a reply confirms a subscription.
    pub fn subscribe(reply: ResponseResult) -> (result: Result<(), ClientError>)
        ensures
            result == (match reply {
                ResponseResult::Subscribed => Ok::<(), ClientError>(()),
                _ => Err(ClientError::UnexpectedMessage),
            }),
    {
        match reply {
            ResponseResult::Subscribed => Ok(()),
            _ => Err(ClientError::UnexpectedMessage),
        }
    }

    /// Whether a reply confirms the end of a subscription.
    pub fn unsubscribe(reply: ResponseResult) -> (result: Result<(), ClientError>)
        ensures
            result == (match reply {
                ResponseResult::Unsubscribed => Ok::<(), ClientError>(()),
                _ => Err(ClientError::UnexpectedMessage),
            }),
    {
        match reply {
            ResponseResult::Unsubscribed => Ok(()),
            _ => Err(ClientError::UnexpectedMessage),
        }
    }

    /// The counters that a reply holds.
    pub fn diagnostics(reply: ResponseResult) -> (result: Result<Diagnostics, ClientError>)
        ensures
            result == (match reply {
                ResponseResult::Diagnostics(value) => Ok::<Diagnostics, ClientError>(value),
                _ => Err(ClientError::UnexpectedMessage),
            }),
    {
        match reply {
            ResponseResult::Diagnostics(value) => Ok(value),
            _ => Err(ClientError::UnexpectedMessage),
        }
    }

    /// The running configuration that a reply holds.
    pub fn config(reply: ResponseResult) -> (result: Result<String, ClientError>)
        ensures
            result == (match reply {
                ResponseResult::Config(value) => Ok::<String, ClientError>(value),
                _ => Err(ClientError::UnexpectedMessage),
            }),
    {
        match reply {
            ResponseResult::Config(value) => Ok(value),
            _ => Err(ClientError::UnexpectedMessage),
        }
    }

    /// The device whose capture a reply confirms.
    pub fn start_capture(reply: ResponseResult) -> (result: Result<DeviceInfo, ClientError>)
        ensures
            result == (match reply {
                ResponseResult::CaptureStarted(value) => Ok::<DeviceInfo, ClientError>(value),
                _ => Err(ClientError::UnexpectedMessage),
            }),
    {
        match reply {
            ResponseResult::CaptureStarted(value) => Ok(value),
            _ => Err(ClientError::UnexpectedMessage),
        }
    }

    /// Whether a reply confirms that every capture has ended.
    pub fn stop_capture(reply: ResponseResult) -> (result: Result<(), ClientError>)
        ensures
            result == (match reply {
                ResponseResult::CaptureStopped => Ok::<(), ClientError>(()),
                _ => Err(ClientError::UnexpectedMessage),
            }),
    {
        match reply {
            ResponseResult::CaptureStopped => Ok(()),
            _ => Err(ClientError::UnexpectedMessage),
        }
    }
}

/// A request number is never zero, and differs from the one before it.
pub proof fn request_numbers_differ(id: u64)
    ensures
        successor(id) != 0,
        id != 0 ==> successor(id) != id,
{
}

/// A reply is only ever taken for the request that it answers.
pub proof fn replies_are_correlated(id: u64, message: ServerMessage)
    requires
        reply_to(id, message) is Ok,
    ensures
        message matches ServerMessage::Response { id: actual, .. } && actual == id,
{
}

/// The bytes of what waits never exceed the limit: keeping one more notification either stays
/// within it or keeps nothing.
pub proof fn waiting_notifications_are_bounded(client: Client)
    requires
        client.well_formed(),
    ensures
        backlog(client@.notifications) <= MAX_NOTIFICATION_BACKLOG_BYTES,
        client@.next_id != 0,
{
}

} // verus!
