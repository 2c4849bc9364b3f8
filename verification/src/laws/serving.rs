//! The daemon's clients: what requests are answered, and who is told of what.
use crate::connection;
use crate::connection::{Client, FrameStep};
use crate::protocol::{
    Command, DeviceInfo, Notification, ProtocolError, ProtocolErrorCode, Request, ResponseResult,
    Subscription,
};
use crate::server;
use crate::server::ReadyStage;
use vstd::prelude::*;

verus! {

/// Whether a list of subscriptions holds one of two.
pub open spec fn holds_either(list: Seq<Subscription>, a: Subscription, b: Subscription) -> bool {
    exists|k: int| 0 <= k < list.len() && (#[trigger] list[k] == a || list[k] == b)
}

/// Whether a connection was served and takes more requests.
pub open spec fn is_open(client: Client) -> bool {
    client.negotiated && !client.closing && !client.immediate_close
}

/// Whether a connection has exactly one frame more to send than before, behind the others.
pub open spec fn got(before: Client, after: Client, frame: Seq<u8>) -> bool {
    &&& after.output@.len() == before.output@.len() + 1
    &&& forall|k: int|
        0 <= k < before.output@.len() ==> #[trigger] after.output@[k] == before.output@[k]
    &&& after.output@.last().bytes@ == frame
    &&& after.output@.last().offset == 0
}

/// Whether a notification is about the arrival or the removal of a device.
pub open spec fn is_about_devices(notification: Notification) -> bool {
    notification is DeviceAdded || notification is DeviceRemoved
}

/// Every connection that need not end at once is still there, as it was.
pub proof fn connections_that_need_not_end_stay(clients: Seq<(u64, Client)>, i: int)
    requires
        0 <= i < clients.len(),
        !clients[i].1.immediate_close,
    ensures
        exists|k: int|
            0 <= k < server::survivors(clients).len() && #[trigger] server::survivors(clients)[k]
                == clients[i],
    decreases clients.len(),
{
    let rest = clients.drop_last();
    let kept = server::survivors(rest);
    if i == clients.len() - 1 {
        assert(server::survivors(clients)[kept.len() as int] == clients[i]);
    } else {
        connections_that_need_not_end_stay(rest, i);
        let k = choose|k: int| 0 <= k < kept.len() && #[trigger] kept[k] == rest[i];
        assert(server::survivors(clients)[k] == clients[i]);
    }
}

proof fn lemma_told(
    before: Seq<(u64, Client)>,
    after: Seq<(u64, Client)>,
    i: int,
    notification: Notification,
    frame: Seq<u8>,
)
    requires
        0 <= i < before.len(),
        server::all_notified(before, after, notification, frame),
        is_open(before[i].1),
        before[i].1.subscribed_to(notification),
        connection::unsent(before[i].1.output@).len() + frame.len() <= 262144,
    ensures
        exists|k: int|
            0 <= k < server::survivors(after).len() && (#[trigger] server::survivors(after)[k]).0
                == before[i].0 && got(before[i].1, server::survivors(after)[k].1, frame),
{
    assert(server::notified(before[i].1, after[i].1, notification, frame));
    assert(got(before[i].1, after[i].1, frame)) by {
        let b = before[i].1.output@;
        let a = after[i].1.output@;
        assert forall|k: int| 0 <= k < b.len() implies #[trigger] a[k] == b[k] by {
            assert(a.drop_last()[k] == a[k]);
        }
    }
    connections_that_need_not_end_stay(after, i);
}

proof fn lemma_not_told(
    before: Seq<(u64, Client)>,
    after: Seq<(u64, Client)>,
    i: int,
    notification: Notification,
    frame: Seq<u8>,
)
    requires
        0 <= i < before.len(),
        server::all_notified(before, after, notification, frame),
        !before[i].1.subscribed_to(notification) || !is_open(before[i].1),
        !before[i].1.immediate_close,
    ensures
        exists|k: int|
            0 <= k < server::survivors(after).len() && #[trigger] server::survivors(after)[k]
                == before[i],
{
    assert(server::notified(before[i].1, after[i].1, notification, frame));
    assert(after[i].0 == before[i].0);
    assert(after[i] == before[i]);
    connections_that_need_not_end_stay(after, i);
}

/// A client that subscribes to devices, or to everything, is told so, and from then on gets every
/// arrival and removal that is published: exactly the frame, behind what waits.
pub proof fn device_subscribers_are_told_of_devices(
    client: Client,
    request: Request,
    subscribed: Client,
    step: FrameStep,
    before: Seq<(u64, Client)>,
    after: Seq<(u64, Client)>,
    i: int,
    notification: Notification,
    frame: Seq<u8>,
)
    requires
        is_open(client),
        request.command matches Command::Subscribe { subscriptions } && holds_either(
            subscriptions@,
            Subscription::Devices,
            Subscription::All,
        ),
        client.serving(request, subscribed, step),
        0 <= i < before.len(),
        before[i].1 == subscribed,
        is_about_devices(notification),
        server::all_notified(before, after, notification, frame),
        connection::unsent(subscribed.output@).len() + frame.len() <= 262144,
    ensures
        step == (FrameStep::Respond { id: request.id, result: ResponseResult::Subscribed }),
        exists|k: int|
            0 <= k < server::survivors(after).len() && (#[trigger] server::survivors(after)[k]).0
                == before[i].0 && got(subscribed, server::survivors(after)[k].1, frame),
{
    lemma_named(request.command->Subscribe_subscriptions@);
    lemma_told(before, after, i, notification, frame);
}

/// A client that subscribes to input, or to everything, gets every input report that is published.
pub proof fn input_subscribers_are_told_of_input(
    client: Client,
    request: Request,
    subscribed: Client,
    step: FrameStep,
    before: Seq<(u64, Client)>,
    after: Seq<(u64, Client)>,
    i: int,
    notification: Notification,
    frame: Seq<u8>,
)
    requires
        is_open(client),
        request.command matches Command::Subscribe { subscriptions } && holds_either(
            subscriptions@,
            Subscription::Input,
            Subscription::All,
        ),
        client.serving(request, subscribed, step),
        0 <= i < before.len(),
        before[i].1 == subscribed,
        notification is Input,
        server::all_notified(before, after, notification, frame),
        connection::unsent(subscribed.output@).len() + frame.len() <= 262144,
    ensures
        step == (FrameStep::Respond { id: request.id, result: ResponseResult::Subscribed }),
        exists|k: int|
            0 <= k < server::survivors(after).len() && (#[trigger] server::survivors(after)[k]).0
                == before[i].0 && got(subscribed, server::survivors(after)[k].1, frame),
{
    lemma_named(request.command->Subscribe_subscriptions@);
    lemma_told(before, after, i, notification, frame);
}

proof fn lemma_named(list: Seq<Subscription>)
    ensures
        connection::names_devices(list) == holds_either(
            list,
            Subscription::Devices,
            Subscription::All,
        ),
        connection::names_input(list) == holds_either(
            list,
            Subscription::Input,
            Subscription::All,
        ),
{
    if holds_either(list, Subscription::Devices, Subscription::All) {
        let k = choose|k: int|
            0 <= k < list.len() && (#[trigger] list[k] == Subscription::Devices || list[k]
                == Subscription::All);
        assert(list.contains(list[k]));
    }
    if holds_either(list, Subscription::Input, Subscription::All) {
        let k = choose|k: int|
            0 <= k < list.len() && (#[trigger] list[k] == Subscription::Input || list[k]
                == Subscription::All);
        assert(list.contains(list[k]));
    }
    if list.contains(Subscription::All) {
        let k = choose|k: int| 0 <= k < list.len() && list[k] == Subscription::All;
        assert(list[k] == Subscription::All);
    }
}

/// A client that unsubscribes from devices, or from everything, gets no arrival and no removal any
/// more, and one that unsubscribes from input, or from everything, no input: publishing one leaves
/// the connection as it was.
pub proof fn unsubscribed_clients_are_told_nothing(
    client: Client,
    request: Request,
    unsubscribed: Client,
    step: FrameStep,
    before: Seq<(u64, Client)>,
    after: Seq<(u64, Client)>,
    i: int,
    notification: Notification,
    frame: Seq<u8>,
)
    requires
        is_open(client),
        request.command matches Command::Unsubscribe { subscriptions } && ((is_about_devices(
            notification,
        ) && holds_either(subscriptions@, Subscription::Devices, Subscription::All)) || (
        notification is Input && holds_either(
            subscriptions@,
            Subscription::Input,
            Subscription::All,
        ))),
        client.serving(request, unsubscribed, step),
        0 <= i < before.len(),
        before[i].1 == unsubscribed,
        server::all_notified(before, after, notification, frame),
    ensures
        step == (FrameStep::Respond { id: request.id, result: ResponseResult::Unsubscribed }),
        exists|k: int|
            0 <= k < server::survivors(after).len() && #[trigger] server::survivors(after)[k]
                == before[i],
{
    lemma_named(request.command->Unsubscribe_subscriptions@);
    lemma_not_told(before, after, i, notification, frame);
}

/// A client that has just connected is told of nothing, whatever is published.
pub proof fn new_clients_are_told_nothing(
    before: Seq<(u64, Client)>,
    after: Seq<(u64, Client)>,
    i: int,
    notification: Notification,
    frame: Seq<u8>,
)
    requires
        0 <= i < before.len(),
        before[i].1.is_fresh(),
        server::all_notified(before, after, notification, frame),
    ensures
        exists|k: int|
            0 <= k < server::survivors(after).len() && #[trigger] server::survivors(after)[k]
                == before[i],
{
    lemma_not_told(before, after, i, notification, frame);
}

/// Subscribing to one kind of notification leaves the other as it was, and no other request changes
/// any subscription.
pub proof fn subscriptions_are_independent(
    client: Client,
    request: Request,
    after: Client,
    step: FrameStep,
)
    requires
        client.serving(request, after, step),
    ensures
        request.command matches Command::Subscribe { subscriptions } ==> {
            &&& !holds_either(subscriptions@, Subscription::Input, Subscription::All)
                ==> after.input == client.input
            &&& !holds_either(subscriptions@, Subscription::Devices, Subscription::All)
                ==> after.devices == client.devices
        },
        request.command matches Command::Unsubscribe { subscriptions } ==> {
            &&& !holds_either(subscriptions@, Subscription::Input, Subscription::All)
                ==> after.input == client.input
            &&& !holds_either(subscriptions@, Subscription::Devices, Subscription::All)
                ==> after.devices == client.devices
        },
        request.command !is Subscribe && request.command !is Unsubscribe ==> after.input
            == client.input && after.devices == client.devices,
        after.negotiated == client.negotiated,
        after.closing == client.closing,
        after.output@ == client.output@,
        after.capture@ == client.capture@,
{
    if let Command::Subscribe { subscriptions } = request.command {
        lemma_named(subscriptions@);
    }
    if let Command::Unsubscribe { subscriptions } = request.command {
        lemma_named(subscriptions@);
    }
}

/// A client that cannot take a notification any more is dropped, and the others are not touched by
/// that.
pub proof fn slow_clients_are_dropped(
    before: Seq<(u64, Client)>,
    after: Seq<(u64, Client)>,
    i: int,
    notification: Notification,
    frame: Seq<u8>,
)
    requires
        0 <= i < before.len(),
        is_open(before[i].1),
        (is_about_devices(notification) && before[i].1.devices) || (notification is Input
            && before[i].1.input),
        connection::unsent(before[i].1.output@).len() + frame.len() > 262144,
        server::all_notified(before, after, notification, frame),
    ensures
        after[i].1.immediate_close,
        forall|k: int|
            0 <= k < server::survivors(after).len() ==> !(#[trigger] server::survivors(
                after,
            )[k]).1.immediate_close,
{
    assert(server::notified(before[i].1, after[i].1, notification, frame));
    assert forall|k: int| 0 <= k < server::survivors(after).len() implies !(
    #[trigger] server::survivors(after)[k]).1.immediate_close by {
        server::notifications_connect_nobody(after, k);
    }
}

/// The first request is a greeting. One that admits version 1 is answered with version 1.1 and the
/// daemon's own version, and requests are served from then on; one that does not is refused as
/// unsupported, any other request as invalid, and both end the connection.
pub proof fn the_greeting_agrees_on_a_version(
    client: Client,
    request: Request,
    after: Client,
    step: FrameStep,
)
    requires
        client.greeting(request, after, step),
    ensures
        request.command matches Command::Hello { min_major, max_major } ==> {
            if min_major <= 1 && max_major >= 1 {
                &&& after.negotiated
                &&& after.closing == client.closing
                &&& step matches FrameStep::Respond {
                    id,
                    result: ResponseResult::Hello { major, minor, daemon_version },
                } && id == request.id && major == 1 && minor == 1 && daemon_version@ == "0.1.0"@
            } else {
                &&& after.negotiated == client.negotiated
                &&& after.closing
                &&& step matches FrameStep::Refuse { id, error } && id == Some(request.id)
                    && error.code == ProtocolErrorCode::UnsupportedVersion && error.message@
                    == "unsupported protocol version"@
            }
        },
        request.command !is Hello ==> {
            &&& after.negotiated == client.negotiated
            &&& after.closing
            &&& step matches FrameStep::Refuse { id, error } && id == Some(request.id)
                && error.code == ProtocolErrorCode::InvalidRequest && error.message@
                == "first request must be hello"@
        },
{
}

/// Whether a step refuses a request so.
pub open spec fn is_refusal(
    step: FrameStep,
    request: Request,
    expected: ProtocolErrorCode,
    text: Seq<char>,
) -> bool {
    step matches FrameStep::Refuse { id, error } && id == Some(request.id) && error.code == expected
        && error.message@ == text
}

/// Every request that is served is answered under its own number, in its own kind; what the daemon
/// does not know or has done already is refused.
pub proof fn requests_are_answered_in_kind(
    client: Client,
    request: Request,
    after: Client,
    step: FrameStep,
)
    requires
        client.serving(request, after, step),
    ensures
        request.command is Ping ==> after == client && step == (FrameStep::Respond {
            id: request.id,
            result: ResponseResult::Pong,
        }),
        request.command is Status ==> after == client && step == FrameStep::Status(request.id),
        request.command is Devices ==> after == client && step == FrameStep::Devices(request.id),
        request.command is Hello ==> after == client && is_refusal(
            step,
            request,
            ProtocolErrorCode::InvalidRequest,
            "hello was already completed"@,
        ),
        request.command is Unknown ==> after == client && is_refusal(
            step,
            request,
            ProtocolErrorCode::UnknownCommand,
            "unknown command"@,
        ),
{
}

/// Requests that only the daemon's loop can complete wait for it, in order and under their numbers,
/// up to eight; one more ends the connection.
pub proof fn deferred_requests_wait_in_order(
    client: Client,
    request: Request,
    after: Client,
    step: FrameStep,
)
    requires
        client.serving(request, after, step),
        request.command is Diagnostics || request.command is Config || request.command
            is StopCapture,
    ensures
        step is Nothing,
        client.commands@.len() < 8 ==> {
            &&& after.commands@.len() == client.commands@.len() + 1
            &&& after.commands@.last() == (request.id, request.command)
            &&& forall|k: int|
                0 <= k < client.commands@.len() ==> #[trigger] after.commands@[k]
                    == client.commands@[k]
            &&& after.immediate_close == client.immediate_close
        },
        client.commands@.len() >= 8 ==> after.immediate_close && after.commands@
            == client.commands@,
{
}

/// A capture waits for the daemon's loop like the others, unless the client captures as many devices
/// as it may and this is another one: then it is refused at once.
pub proof fn captures_are_limited(
    client: Client,
    request: Request,
    after: Client,
    step: FrameStep,
    path: Seq<char>,
)
    requires
        client.serving(request, after, step),
        request.command matches Command::StartCapture { syspath } && syspath@ == path,
    ensures
        ({
            let known = exists|k: int|
                0 <= k < client.capture@.len() && (#[trigger] client.capture@[k])@ == path;
            if client.capture@.len() >= 32 && !known {
                after == client && is_refusal(
                    step,
                    request,
                    ProtocolErrorCode::InvalidRequest,
                    "capture device limit reached; stop capture before selecting new devices"@,
                )
            } else if client.commands@.len() < 8 {
                &&& step is Nothing
                &&& after.commands@ == client.commands@.push((request.id, request.command))
            } else {
                step is Nothing && after.immediate_close
            }
        }),
{
}

/// A completed request is answered under its own number with its own result or error, on the
/// connection that asked.
pub proof fn completed_requests_are_answered(
    before: Seq<(u64, Client)>,
    after: Seq<(u64, Client)>,
    i: int,
    id: u64,
    result: Result<ResponseResult, ProtocolError>,
    step: FrameStep,
)
    requires
        0 <= i < before.len(),
        server::completed_at(before, after, i, id, result, step),
    ensures
        result matches Err(error) ==> step == (FrameStep::Refuse { id: Some(id), error }),
        result matches Ok(answer) ==> (answer !is CaptureStarted || before[i].1.capture@.len() < 32
            ==> step == (FrameStep::Respond { id, result: answer })),
        after.len() == before.len(),
        forall|k: int| 0 <= k < after.len() && k != i ==> #[trigger] after[k] == before[k],
        after[i].0 == before[i].0,
        after[i].1.output@ == before[i].1.output@,
{
}

/// The capture of a device is a lease of its client, until the capture is stopped: then the client
/// leases nothing.
pub proof fn captures_are_leases(
    before: Client,
    after: Client,
    id: u64,
    device: DeviceInfo,
    step: FrameStep,
)
    ensures
        server::completed(
            before,
            after,
            id,
            Ok(ResponseResult::CaptureStarted(device)),
            step,
        ) && before.capture@.len() < 32 ==> exists|k: int|
            0 <= k < after.capture@.len() && (#[trigger] after.capture@[k])@ == device.syspath@,
        server::completed(before, after, id, Ok(ResponseResult::CaptureStopped), step)
            ==> after.capture@.len() == 0,
{
    if server::completed(before, after, id, Ok(ResponseResult::CaptureStarted(device)), step)
        && before.capture@.len() < 32 {
        if !connection::holds_path(before.capture@, device.syspath@) {
            assert(after.capture@[before.capture@.len() as int]@ == device.syspath@);
        } else {
            let k = choose|k: int|
                0 <= k < before.capture@.len() && (#[trigger] before.capture@[k])@
                    == device.syspath@;
            assert(after.capture@[k]@ == device.syspath@);
        }
    }
}

/// The daemon waits for requests of every client that is not ending, and for room to write for every
/// one that something waits for.
pub proof fn clients_are_waited_for(client: Client)
    ensures
        (server::interest(client) & 0x1 != 0) == (!client.closing && !client.immediate_close),
        client.output@.len() > 0 && !client.immediate_close ==> server::interest(client) & 0x4
            != 0,
        client.pending_frames@.len() > 0 && !client.immediate_close ==> server::interest(client)
            & 0x4 != 0,
        client.output@.len() == 0 && client.pending_frames@.len() == 0 ==> server::interest(client)
            & 0x4 == 0,
{
    assert(0x1i16 & 0x1 != 0 && 0x4i16 & 0x1 == 0 && 0x1i16 & 0x4 == 0 && 0x4i16 & 0x4 != 0)
        by (bit_vector);
    assert((0x1i16 | 0x4i16) & 0x1 != 0 && (0x1i16 | 0x4i16) & 0x4 != 0) by (bit_vector);
    assert((0x1i16 | 0i16) & 0x1 != 0 && (0x1i16 | 0i16) & 0x4 == 0) by (bit_vector);
    assert((0i16 | 0x4i16) & 0x1 == 0 && (0i16 | 0x4i16) & 0x4 != 0) by (bit_vector);
    assert((0i16 | 0i16) & 0x1 == 0 && (0i16 | 0i16) & 0x4 == 0) by (bit_vector);
}

/// A client that something has arrived from is read from, what waits for one is written, and a
/// client stays unless it is ending or gone.
pub proof fn ready_clients_are_served(client: Client, revents: i16, kept: bool)
    ensures
        !client.closing && !client.immediate_close ==> {
            &&& revents & 0x1 != 0 ==> server::after_stage(client, revents, ReadyStage::Ready)
                is Read
            &&& client.pending_frames@.len() > 0 ==> server::after_stage(
                client,
                revents,
                ReadyStage::Ready,
            ) is Read
            &&& client.output@.len() > 0 ==> server::after_stage(
                client,
                revents,
                ReadyStage::ReadDone(true),
            ) is Write
            &&& client.output@.len() == 0 && revents & 0x4 == 0 ==> server::after_stage(
                client,
                revents,
                ReadyStage::ReadDone(true),
            ) is Keep
            &&& server::after_stage(client, revents, ReadyStage::WriteDone(true)) is Keep
        },
        server::after_stage(client, revents, ReadyStage::ReadDone(false)) is Remove,
        server::after_stage(client, revents, ReadyStage::WriteDone(false)) is Remove,
        client.closing && !client.immediate_close && client.output@.len() > 0 ==> {
            &&& server::after_stage(client, revents, ReadyStage::Ready) is Write
            &&& server::after_stage(client, revents, ReadyStage::ReadDone(true)) is Write
            &&& server::after_stage(client, revents, ReadyStage::WriteDone(true)) is Keep
        },
{
    let all = server::POLLIN | server::POLLERR | server::POLLHUP | server::POLLNVAL;
    assert(revents & 0x1 != 0 ==> revents & (0x1i16 | 0x8i16 | 0x10i16 | 0x20i16) != 0)
        by (bit_vector);
}

/// Every deferred request of a client that is not ending reaches the daemon's loop, with the token of
/// the client and the number of the request.
pub proof fn deferred_requests_reach_the_loop(clients: Seq<(u64, Client)>, n: nat, i: int, k: int)
    requires
        0 <= i < n <= clients.len(),
        !clients[i].1.closing,
        !clients[i].1.immediate_close,
        0 <= k < clients[i].1.commands@.len(),
    ensures
        server::deferred(clients, n).contains(
            (clients[i].0, clients[i].1.commands@[k].0, clients[i].1.commands@[k].1),
        ),
    decreases n,
{
    let client = clients[n - 1].1;
    let own = if client.ending() {
        Seq::empty()
    } else {
        client.commands@.map_values(|c: (u64, Command)| (clients[n - 1].0, c.0, c.1))
    };
    let before = server::deferred(clients, (n - 1) as nat);
    let wanted = (clients[i].0, clients[i].1.commands@[k].0, clients[i].1.commands@[k].1);
    assert(server::deferred(clients, n) == before + own);
    if i == n - 1 {
        assert(own[k] == wanted);
        assert((before + own)[before.len() + k] == wanted);
    } else {
        deferred_requests_reach_the_loop(clients, (n - 1) as nat, i, k);
        let j = choose|j: int| 0 <= j < before.len() && before[j] == wanted;
        assert((before + own)[j] == wanted);
    }
}

} // verus!
