//! The daemon's connections: who is let in, what is read, and what is written.
use crate::connection::{
    self, Client, FrameStep, Pending, Provided, ReadOutcome, ReadStep, ReadTurn, ReceiveStep,
    WriteOutcome, WriteStep, WriteTurn,
};
use crate::frame;
use crate::laws::serving::{got, is_open};
use crate::protocol::{
    Command, DeviceInfo, Notification, ProtocolError, ProtocolErrorCode, Request, ResponseResult,
    Status,
};
use crate::server::{self, AcceptOutcome, AcceptStep, IpcServer, PollSource, ReadyStage, ReadyStep};
use vstd::prelude::*;

verus! {

/// A connection wants what it has subscribed to: input, or the coming and going of devices.
pub proof fn connections_want_their_subscriptions(
    client: &Client,
    notification: &Notification,
    r: bool,
)
    requires
        call_ensures(Client::wants, (client, notification), r),
    ensures
        *notification is Input ==> r == client.input,
        *notification is DeviceAdded || *notification is DeviceRemoved ==> r == client.devices,
        *notification is Unsupported ==> !r,
{
}

/// A new connection has nothing: no greeting, no subscription, nothing to send and nothing captured.
pub proof fn connections_start_with_nothing(client: Client)
    requires
        call_ensures(Client::new, (), client),
    ensures
        !client.negotiated && !client.closing && !client.immediate_close,
        !client.input && !client.devices,
        client.output@.len() == 0 && client.pending_frames@.len() == 0,
        client.commands@.len() == 0 && client.capture@.len() == 0,
{
}

/// The first request of a connection must be the greeting; later requests are served; what cannot be
/// read is refused, and changes nothing.
pub proof fn requests_need_a_greeting(
    client: &mut Client,
    request: Result<Request, ProtocolError>,
    step: FrameStep,
)
    requires
        call_ensures(Client::handle_frame, (client, request), step),
    ensures
        request matches Err(error) ==> step == (FrameStep::Refuse { id: None, error })
            && *final(client) == *old(client),
        request matches Ok(r) ==> {
            &&& !old(client).negotiated && !(r.command is Hello) ==> final(client).closing
                && !final(client).negotiated && (step matches FrameStep::Refuse { id, error } && id
                == Some(r.id) && error.code == ProtocolErrorCode::InvalidRequest)
            &&& !old(client).negotiated && (r.command matches Command::Hello {
                min_major,
                max_major,
            } && min_major <= 1 && max_major >= 1) ==> final(client).negotiated
                && !(step is Refuse)
            &&& old(client).negotiated ==> old(client).serving(r, *final(client), step)
            &&& !old(client).negotiated ==> old(client).greeting(r, *final(client), step)
        },
{
}

/// A status and a list of devices answer the request that asked for them.
pub proof fn provided_answers_go_to_their_request(
    id: u64,
    status: Status,
    devices: Vec<DeviceInfo>,
    a: FrameStep,
    b: FrameStep,
)
    requires
        call_ensures(FrameStep::answer, (id, Provided::Status(status)), a),
        call_ensures(FrameStep::answer, (id, Provided::Devices(devices)), b),
    ensures
        a == (FrameStep::Respond { id, result: ResponseResult::Status(status) }),
        b == (FrameStep::Respond { id, result: ResponseResult::Devices(devices) }),
{
}

/// A frame waits behind the others to be sent, unless more than a quarter of a megabyte would wait:
/// then the connection ends.
pub proof fn frames_wait_to_be_sent(client: &mut Client, bytes: Vec<u8>, queued: bool)
    requires
        call_ensures(Client::queue_encoded, (client, bytes), queued),
    ensures
        connection::unsent(old(client).output@).len() + bytes@.len() <= 262144 ==> queued && got(
            *old(client),
            *final(client),
            bytes@,
        ) && final(client).immediate_close == old(client).immediate_close,
        connection::unsent(old(client).output@).len() + bytes@.len() > 262144 ==> !queued
            && final(client).immediate_close && final(client).output@ == old(client).output@,
{
}

/// A response that does not fit a frame is answered by an internal error instead.
pub proof fn oversized_responses_are_errors(
    client: &mut Client,
    id: u64,
    encoded: Option<Vec<u8>>,
    fallback: Option<FrameStep>,
)
    requires
        call_ensures(Client::queue_response, (client, id, encoded), fallback),
    ensures
        encoded is None ==> *final(client) == *old(client) && (fallback matches Some(
            FrameStep::Refuse { id: about, error },
        ) && about == Some(id) && error.code == ProtocolErrorCode::Internal),
        encoded matches Some(bytes) ==> fallback is None && (connection::unsent(
            old(client).output@,
        ).len() + bytes@.len() <= 262144 ==> got(*old(client), *final(client), bytes@)),
{
}

/// What is not encoded ends the connection.
pub proof fn unencoded_messages_end_the_connection(
    client: &mut Client,
    encoded: Option<Vec<u8>>,
    queued: bool,
)
    requires
        call_ensures(Client::queue, (client, encoded), queued),
    ensures
        encoded is None ==> !queued && final(client).immediate_close,
        encoded matches Some(bytes) ==> (connection::unsent(old(client).output@).len()
            + bytes@.len() <= 262144 ==> queued && got(*old(client), *final(client), bytes@)),
{
}

/// What waits to be sent is what was queued, in order.
pub proof fn waiting_bytes_are_in_order(output: Seq<Pending>, next: Pending)
    ensures
        connection::unsent(Seq::empty()) == Seq::<u8>::empty(),
        connection::unsent(output.push(next)) == connection::unsent(output)
            + next.bytes@.subrange(next.offset as int, next.bytes@.len() as int),
{
    assert(output.push(next).drop_last() =~= output);
}

proof fn lemma_front(output: Seq<Pending>)
    requires
        output.len() > 0,
    ensures
        connection::unsent(output) == output[0].rest() + connection::unsent(
            output.subrange(1, output.len() as int),
        ),
    decreases output.len(),
{
    let tail = output.subrange(1, output.len() as int);
    if output.len() == 1 {
        assert(tail =~= Seq::<Pending>::empty());
        assert(output.drop_last() =~= Seq::<Pending>::empty());
        assert(connection::unsent(output) =~= output[0].rest() + connection::unsent(tail));
    } else {
        lemma_front(output.drop_last());
        assert(output.drop_last().subrange(1, output.len() - 1) =~= tail.drop_last());
        assert(tail.last() == output.last());
        assert(connection::unsent(output) =~= output[0].rest() + connection::unsent(tail));
    }
}

/// A turn writes the first bytes that wait, at most sixty-four kilobytes of them, and forgets exactly
/// those that were written.
pub proof fn waiting_bytes_are_written_in_order(
    turn: &WriteTurn,
    client: &Client,
    range: Option<(usize, usize)>,
)
    requires
        call_ensures(WriteTurn::next_range, (turn, client), range),
        client.well_formed(),
    ensures
        range is None <==> turn.budget == 0 || client.output@.len() == 0,
        range matches Some((from, to)) ==> from <= to && to - from <= turn.budget
            && client.output@[0].bytes@.subrange(from as int, to as int) == connection::unsent(
            client.output@,
        ).subrange(0, to - from),
        range matches Some((from, to)) ==> (to - from < turn.budget ==> to
            == client.output@[0].bytes@.len()),
{
    if let Some((from, to)) = range {
        lemma_front(client.output@);
        assert(client.output@[0].bytes@.subrange(from as int, to as int) =~= connection::unsent(
            client.output@,
        ).subrange(0, to - from));
    }
}

/// Bytes that were written wait no longer; a write of nothing and a write that failed end the
/// connection; a write that must wait changes nothing.
pub proof fn written_bytes_wait_no_longer(
    turn: &mut WriteTurn,
    client: &mut Client,
    outcome: WriteOutcome,
    step: WriteStep,
)
    requires
        call_ensures(WriteTurn::write_ready, (turn, client, outcome), step),
    ensures
        outcome matches WriteOutcome::Wrote(n) ==> {
            &&& n > 0 ==> step is Continue && connection::unsent(final(client).output@)
                == connection::unsent(old(client).output@).subrange(
                n as int,
                connection::unsent(old(client).output@).len() as int,
            ) && final(turn).budget == old(turn).budget - n && !(final(client).closing
                && !old(client).closing)
            &&& n == 0 ==> step is Remove
        },
        outcome is Failed ==> step is Remove,
        outcome is WouldBlock ==> step is Done && *final(client) == *old(client),
{
}

/// A turn writes at most sixty-four kilobytes, and reads at most eight times and eight frames.
pub proof fn turns_have_budgets(write: WriteTurn, read: ReadTurn)
    requires
        call_ensures(WriteTurn::new, (), write),
        call_ensures(ReadTurn::new, (), read),
    ensures
        write.budget == 65536,
        read.frame_budget == 8,
        read.read_budget == 8,
        !read.drained,
{
}

/// Frames are handled in the order in which they came, before more is read; a connection that ends is
/// neither handled nor read.
pub proof fn frames_are_handled_in_order(
    turn: &mut ReadTurn,
    client: &mut Client,
    step: ReadStep,
)
    requires
        call_ensures(ReadTurn::process_pending, (turn, client), step),
    ensures
        old(client).closing || old(client).immediate_close || old(turn).frame_budget == 0
            ==> step is Done,
        !old(client).closing && !old(client).immediate_close && old(turn).frame_budget > 0 ==> {
            &&& old(client).pending_frames@.len() > 0 ==> (step matches ReadStep::Handle(f) && f
                == old(client).pending_frames@[0]) && final(client).pending_frames@
                    == old(client).pending_frames@.subrange(1, old(client).pending_frames@.len() as int)
                && final(turn).frame_budget == old(turn).frame_budget - 1
            &&& old(client).pending_frames@.len() == 0 ==> (step is Read <==> !old(turn).drained
                && old(turn).read_budget > 0) && !(step is Handle)
        },
        step is Read ==> final(turn).read_budget == old(turn).read_budget - 1,
{
}

/// The end of a connection and a failure to read remove it.
pub proof fn closed_connections_are_removed(
    turn: &mut ReadTurn,
    client: &mut Client,
    outcome: ReadOutcome,
    step: ReceiveStep,
)
    requires
        call_ensures(ReadTurn::read_client, (turn, client, outcome), step),
    ensures
        outcome is Closed || outcome is Failed <==> step is Remove,
        outcome is WouldBlock <==> step is Done,
        outcome matches ReadOutcome::Bytes(bytes) ==> {
            &&& final(turn).drained == (bytes@.len() < 16384)
            &&& step is Refuse ==> final(client).closing && final(client).pending_frames@
                == old(client).pending_frames@
            &&& step is Continue ==> final(client).closing == old(client).closing
        },
{
}

/// A frame that was read whole is the last that waits to be handled.
pub proof fn whole_frames_are_read(
    turn: &mut ReadTurn,
    client: &mut Client,
    bytes: Vec<u8>,
    body: Seq<u8>,
    step: ReceiveStep,
)
    requires
        call_ensures(ReadTurn::read_client, (turn, client, ReadOutcome::Bytes(bytes)), step),
        old(client).frames@.len() == 0,
        bytes@ == body.push(10),
        body.len() <= 65536,
        !body.contains(10),
    ensures
        step is Continue,
        final(client).pending_frames@.len() == old(client).pending_frames@.len() + 1,
        final(client).pending_frames@.last()@ == body,
{
    frame::written_frames_read_back(body);
    assert(old(client).frames@ + bytes@ =~= body.push(10));
    let before = frame::contents(old(client).pending_frames@);
    let after = frame::contents(final(client).pending_frames@);
    assert(after == before + seq![body]);
    assert(after.len() == before.len() + 1);
    assert(after.last() == body);
    assert(after.last() == final(client).pending_frames@.last()@);
}

/// Sixty-four connections are let in, each with a number of its own above that of the listener; the
/// next is refused.
pub proof fn connections_are_limited(
    ipc: &mut IpcServer,
    nonblocking: bool,
    step: AcceptStep,
    i: int,
)
    requires
        call_ensures(
            IpcServer::accept_ready,
            (ipc, AcceptOutcome::Stream { nonblocking }),
            step,
        ),
    ensures
        old(ipc)@.len() >= 64 || !nonblocking ==> step is Refuse && final(ipc)@ == old(ipc)@,
        old(ipc)@.len() < 64 && nonblocking ==> {
            &&& step matches AcceptStep::Serve(token) && token > 1 && final(ipc)@.last().0 == token
                && (0 <= i < old(ipc)@.len() ==> old(ipc)@[i].0 != token)
            &&& final(ipc)@.len() == old(ipc)@.len() + 1
            &&& 0 <= i < old(ipc)@.len() ==> final(ipc)@[i] == old(ipc)@[i]
            &&& !final(ipc)@.last().1.negotiated
        },
{
    if old(ipc)@.len() < 64 && nonblocking {
        assert(0 <= i < old(ipc)@.len() ==> final(ipc)@.drop_last()[i] == final(ipc)@[i]);
    }
}

/// A listener without more connections is left, and its failure is handed on.
pub proof fn listening_ends(
    ipc: &mut IpcServer,
    outcome: AcceptOutcome,
    step: AcceptStep,
)
    requires
        call_ensures(IpcServer::accept_ready, (ipc, outcome), step),
    ensures
        outcome is WouldBlock ==> step is Done,
        outcome matches AcceptOutcome::Failed(failure) ==> step == AcceptStep::Fail(failure),
{
}

/// A connection that was removed is there no longer, and the others are.
pub proof fn removed_connections_are_gone(ipc: &mut IpcServer, token: u64, i: int)
    requires
        call_ensures(IpcServer::remove, (ipc, token), ()),
        old(ipc).well_formed(),
        0 <= i < old(ipc)@.len(),
    ensures
        forall|k: int| 0 <= k < final(ipc)@.len() ==> (#[trigger] final(ipc)@[k]).0 != token,
        old(ipc)@[i].0 != token ==> final(ipc)@.contains(old(ipc)@[i]),
{
    if old(ipc)@[i].0 != token {
        if server::holds_token(old(ipc)@, token) {
            let j = choose|j: int|
                0 <= j < old(ipc)@.len() && (#[trigger] old(ipc)@[j]).0 == token && final(ipc)@
                    == old(ipc)@.remove(j);
            let k = if i < j {
                i
            } else {
                i - 1
            };
            assert(final(ipc)@[k] == old(ipc)@[i]);
        } else {
            assert(final(ipc)@[i] == old(ipc)@[i]);
        }
    }
    assert forall|k: int| 0 <= k < final(ipc)@.len() implies (#[trigger] final(ipc)@[k]).0
        != token by {
        if final(ipc)@[k].0 == token {
            assert(server::holds_token(final(ipc)@, token));
        }
    }
}

/// The daemon reads input exactly while a served connection has subscribed to it.
pub proof fn input_is_read_for_subscribers(ipc: &IpcServer, r: bool, i: int)
    requires
        call_ensures(IpcServer::has_input_subscribers, (ipc, ), r),
    ensures
        0 <= i < ipc@.len() && is_open(ipc@[i].1) && ipc@[i].1.input ==> r,
        (forall|k: int|
            0 <= k < ipc@.len() ==> !(is_open((#[trigger] ipc@[k]).1) && ipc@[k].1.input)) ==> !r,
{
    if r {
        let k = choose|k: int|
            0 <= k < ipc@.len() && (#[trigger] ipc@[k]).1.negotiated && ipc@[k].1.input
                && !ipc@[k].1.ending();
        assert(is_open(ipc@[k].1) && ipc@[k].1.input);
    }
}

/// The listener is waited for first, then each connection.
pub proof fn all_connections_are_waited_for(
    ipc: &IpcServer,
    sources: &mut Vec<PollSource>,
    i: int,
)
    requires
        call_ensures(IpcServer::poll_sources, (ipc, sources), ()),
    ensures
        final(sources)@.len() == ipc@.len() + 1,
        final(sources)@[0].token == 1 && final(sources)@[0].events == 1,
        0 <= i < ipc@.len() ==> final(sources)@[i + 1].token == ipc@[i].0,
        0 <= i < ipc@.len() ==> final(sources)@[i + 1].events == server::interest(ipc@[i].1),
{
    assert(0 <= i < ipc@.len() ==> final(sources)@[i + 1] == (PollSource {
        token: ipc@[i].0,
        events: server::interest(ipc@[i].1),
    }));
}

/// A published notification reaches the connections through their queues; where it cannot be encoded
/// nothing changes.
pub proof fn notifications_are_published(
    ipc: &mut IpcServer,
    notification: &Notification,
    encoded: Option<Vec<u8>>,
    i: int,
)
    requires
        call_ensures(IpcServer::publish, (ipc, notification, encoded), ()),
        0 <= i < old(ipc)@.len(),
        is_open(old(ipc)@[i].1),
    ensures
        encoded is None ==> final(ipc)@ == old(ipc)@,
        encoded matches Some(bytes) ==> {
            let told = (*notification is Input && old(ipc)@[i].1.input) || ((
            *notification is DeviceAdded || *notification is DeviceRemoved)
                && old(ipc)@[i].1.devices);
            &&& told && connection::unsent(old(ipc)@[i].1.output@).len() + bytes@.len() <= 262144
                ==> exists|k: int|
                0 <= k < final(ipc)@.len() && (#[trigger] final(ipc)@[k]).0 == old(ipc)@[i].0
                    && got(old(ipc)@[i].1, final(ipc)@[k].1, bytes@)
            &&& !told ==> final(ipc)@.contains(old(ipc)@[i])
        },
{
    if let Some(bytes) = encoded {
        let before = old(ipc)@;
        let after = choose|after: Seq<(u64, Client)>| #[trigger]
            server::all_notified(before, after, *notification, bytes@) && final(ipc)@
                == server::survivors(after);
        assert(after[i].0 == before[i].0);
        assert(server::notified(before[i].1, after[i].1, *notification, bytes@));
        if !after[i].1.immediate_close {
            crate::laws::serving::connections_that_need_not_end_stay(after, i);
            let k = choose|k: int|
                0 <= k < server::survivors(after).len() && #[trigger] server::survivors(after)[k]
                    == after[i];
            assert(final(ipc)@[k] == after[i]);
            if server::is_recipient(before[i].1, *notification) {
                let x = before[i].1;
                let y = after[i].1;
                assert forall|m: int| 0 <= m < x.output@.len() implies #[trigger] y.output@[m]
                    == x.output@[m] by {
                    assert(y.output@.drop_last()[m] == y.output@[m]);
                }
                assert(got(x, y, bytes@));
            }
        }
    }
}

proof fn lemma_captured(clients: Seq<(u64, Client)>, n: nat, i: int, k: int)
    requires
        0 <= i < n <= clients.len(),
        !clients[i].1.closing,
        !clients[i].1.immediate_close,
        0 <= k < clients[i].1.capture@.len(),
    ensures
        server::captured(clients, n).contains(clients[i].1.capture@[k]@),
    decreases n,
{
    let path = clients[i].1.capture@[k]@;
    let rest = server::captured(clients, (n - 1) as nat);
    let own = server::leases(clients[n - 1].1);
    if i == n - 1 {
        assert(own[k] == path);
        assert((rest + own)[rest.len() + k] == path);
    } else {
        lemma_captured(clients, (n - 1) as nat, i, k);
        let j = choose|j: int| 0 <= j < rest.len() && rest[j] == path;
        assert((rest + own)[j] == path);
    }
}

/// What any connection that stays captures is captured.
pub proof fn captures_of_all_connections_count(
    ipc: &IpcServer,
    paths: Vec<String>,
    i: int,
    k: int,
)
    requires
        call_ensures(IpcServer::capture_paths, (ipc, ), paths),
        0 <= i < ipc@.len(),
        !ipc@[i].1.closing,
        !ipc@[i].1.immediate_close,
        0 <= k < ipc@[i].1.capture@.len(),
    ensures
        exists|j: int|
            0 <= j < paths@.len() && (#[trigger] paths@[j])@ == ipc@[i].1.capture@[k]@,
{
    lemma_captured(ipc@, ipc@.len(), i, k);
    let all = server::texts(paths@);
    let path = ipc@[i].1.capture@[k]@;
    let j = choose|j: int| 0 <= j < all.len() && all[j] == path;
    assert(all[j] == paths@[j]@);
}

proof fn lemma_captured_by(clients: Seq<(u64, Client)>, n: nat, j: int)
    requires
        n <= clients.len(),
        0 <= j < server::captured(clients, n).len(),
    ensures
        exists|i: int, k: int|
            #![trigger clients[i].1.capture@[k]]
            0 <= i < n && 0 <= k < clients[i].1.capture@.len() && !clients[i].1.closing
                && !clients[i].1.immediate_close && clients[i].1.capture@[k]@ == server::captured(
                clients,
                n,
            )[j],
    decreases n,
{
    if n > 0 {
        let rest = server::captured(clients, (n - 1) as nat);
        let own = server::leases(clients[n - 1].1);
        if j < rest.len() {
            lemma_captured_by(clients, (n - 1) as nat, j);
        } else {
            let k = j - rest.len();
            assert(own[k] == clients[n - 1].1.capture@[k]@);
        }
    }
}

/// Nothing is captured that no connection captures.
pub proof fn only_captures_of_connections_count(ipc: &IpcServer, paths: Vec<String>, j: int)
    requires
        call_ensures(IpcServer::capture_paths, (ipc, ), paths),
        0 <= j < paths@.len(),
    ensures
        exists|i: int, k: int|
            #![trigger ipc@[i].1.capture@[k]]
            0 <= i < ipc@.len() && 0 <= k < ipc@[i].1.capture@.len() && !ipc@[i].1.closing
                && !ipc@[i].1.immediate_close && ipc@[i].1.capture@[k]@ == paths@[j]@,
{
    let all = server::texts(paths@);
    assert(all[j] == paths@[j]@);
    lemma_captured_by(ipc@, ipc@.len(), j);
}

/// A listener that something has come to accepts; one that is invalid is an error.
pub proof fn the_listener_accepts(
    client: Option<&Client>,
    revents: i16,
    stage: ReadyStage,
    result: Result<ReadyStep, crate::failure::IoFailure>,
)
    requires
        call_ensures(IpcServer::handle_ready, (1u64, client, revents, stage), result),
    ensures
        revents & 0x20 != 0 <==> result is Err,
        revents == 0x1 ==> result == Ok::<ReadyStep, crate::failure::IoFailure>(ReadyStep::Accept),
        revents == 0 ==> result == Ok::<ReadyStep, crate::failure::IoFailure>(ReadyStep::Nothing),
{
    assert(0x1i16 & 0x20 == 0 && 0i16 & 0x20 == 0 && 0x1i16 & (0x1i16 | 0x8i16 | 0x10i16) != 0
        && 0i16 & (0x1i16 | 0x8i16 | 0x10i16) == 0) by (bit_vector);
}

/// A connection that is ready goes through its stages.
pub proof fn ready_connections_go_on(
    token: u64,
    client: &Client,
    revents: i16,
    stage: ReadyStage,
    result: Result<ReadyStep, crate::failure::IoFailure>,
)
    requires
        call_ensures(IpcServer::handle_ready, (token, Some(client), revents, stage), result),
        token != 1,
    ensures
        result == Ok::<ReadyStep, crate::failure::IoFailure>(
            server::after_stage(*client, revents, stage),
        ),
{
}

/// A connection is let in where there are fewer than sixty-four, under a number of its own.
pub proof fn accepted_connections_have_a_number(ipc: &mut IpcServer, token: Option<u64>, i: int)
    requires
        call_ensures(IpcServer::accept, (ipc, ), token),
    ensures
        token is Some <==> old(ipc)@.len() < 64,
        token is None ==> final(ipc)@ == old(ipc)@,
        token matches Some(t) ==> t > 1 && final(ipc)@.len() == old(ipc)@.len() + 1
            && final(ipc)@.last().0 == t && (0 <= i < old(ipc)@.len() ==> old(ipc)@[i].0 != t
            && final(ipc)@[i] == old(ipc)@[i]),
{
    if token is Some {
        assert(0 <= i < old(ipc)@.len() ==> final(ipc)@.drop_last()[i] == final(ipc)@[i]);
    }
}

/// A connection that was taken out and put back is there, with its number.
pub proof fn connections_are_taken_and_put_back(
    ipc: &mut IpcServer,
    token: u64,
    taken: Option<Client>,
    later: &mut IpcServer,
    client: Client,
)
    requires
        call_ensures(IpcServer::take, (ipc, token), taken),
        call_ensures(IpcServer::put, (later, token, client), ()),
    ensures
        taken is None ==> final(ipc)@ == old(ipc)@,
        taken matches Some(c) ==> old(ipc)@.contains((token, c)) && final(ipc)@.len() + 1
            == old(ipc)@.len(),
        final(later)@ == old(later)@.push((token, client)),
{
    if let Some(c) = taken {
        let i = choose|i: int|
            0 <= i < old(ipc)@.len() && #[trigger] old(ipc)@[i] == (token, c) && final(ipc)@
                == old(ipc)@.remove(i);
        assert(old(ipc)@[i] == (token, c));
    }
}

/// A request that was completed is answered under its number; a device that was captured is leased,
/// of which there are thirty-two; and nothing else of the connection changes.
pub proof fn completed_commands_are_answered(
    client: &mut Client,
    id: u64,
    result: Result<ResponseResult, ProtocolError>,
    step: FrameStep,
)
    requires
        call_ensures(Client::complete_command, (client, id, result), step),
    ensures
        result matches Err(error) ==> step == (FrameStep::Refuse { id: Some(id), error })
            && final(client).capture@ == old(client).capture@,
        result matches Ok(answer) ==> {
            &&& !(answer is CaptureStarted) || old(client).capture@.len() < 32 ==> step == (
            FrameStep::Respond { id, result: answer })
            &&& answer is CaptureStopped ==> final(client).capture@.len() == 0
            &&& answer matches ResponseResult::CaptureStarted(info) ==> (old(client).capture@.len()
                < 32 ==> exists|k: int|
                0 <= k < final(client).capture@.len() && (#[trigger] final(client).capture@[k])@
                    == info.syspath@)
            &&& !(answer is CaptureStarted || answer is CaptureStopped) ==> final(client).capture@
                == old(client).capture@
        },
        final(client).output == old(client).output,
        final(client).input == old(client).input && final(client).devices == old(client).devices,
        final(client).negotiated == old(client).negotiated,
{
    if let Ok(ResponseResult::CaptureStarted(info)) = result {
        if old(client).capture@.len() < 32 {
            if connection::holds_path(old(client).capture@, info.syspath@) {
                let k = choose|k: int|
                    0 <= k < old(client).capture@.len() && (#[trigger] old(client).capture@[k])@
                        == info.syspath@;
                assert(final(client).capture@[k]@ == info.syspath@);
            } else {
                assert(final(client).capture@[old(client).capture@.len() as int]@ == info.syspath@);
            }
        }
    }
}

/// The requests that wait are taken, and wait no longer.
pub proof fn waiting_commands_are_taken(
    ipc: &mut IpcServer,
    commands: Vec<(u64, u64, Command)>,
    i: int,
)
    requires
        call_ensures(IpcServer::take_commands, (ipc, ), commands),
        0 <= i < old(ipc)@.len(),
    ensures
        commands@ == server::deferred(old(ipc)@, old(ipc)@.len()),
        final(ipc)@.len() == old(ipc)@.len(),
        final(ipc)@[i].0 == old(ipc)@[i].0,
        !old(ipc)@[i].1.closing && !old(ipc)@[i].1.immediate_close
            ==> final(ipc)@[i].1.commands@.len() == 0,
        final(ipc)@[i].1.capture == old(ipc)@[i].1.capture,
        final(ipc)@[i].1.output == old(ipc)@[i].1.output,
{
    assert(final(ipc)@[i].0 == old(ipc)@[i].0);
}

/// A request that was completed is answered by the connection that made it; one whose connection is
/// gone is not answered.
pub proof fn completions_find_their_connection(
    ipc: &mut IpcServer,
    token: u64,
    id: u64,
    result: Result<ResponseResult, ProtocolError>,
    step: Option<FrameStep>,
    known: bool,
    before: &IpcServer,
)
    requires
        *before == *old(ipc),
        call_ensures(IpcServer::complete_command, (ipc, token, id, result), step),
        call_ensures(IpcServer::contains, (before, token), known),
    ensures
        known <==> step is Some,
        step is None ==> final(ipc)@ == old(ipc)@,
        result matches Err(error) ==> (step matches Some(s) ==> s == (FrameStep::Refuse {
            id: Some(id),
            error,
        })),
        final(ipc)@.len() == old(ipc)@.len(),
{
    if step is Some {
        let i = choose|i: int|
            0 <= i < old(ipc)@.len() && (#[trigger] old(ipc)@[i]).0 == token
                && server::completed_at(old(ipc)@, final(ipc)@, i, id, result, step->0);
        assert(server::holds_token(old(ipc)@, token));
    }
}

} // verus!
