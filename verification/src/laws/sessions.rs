//! What a session delivers, in which order, and to whom it belongs.
use crate::client::ClientError;
use crate::protocol::{DeviceInfo, InputPayload, Notification, Status};
use crate::session::{
    self, DeliveryPolicy, EventQueue, Session, SessionEvent, TryRecvError, WorkerStep,
};
use crate::text;
use vstd::prelude::*;

verus! {

/// Whether an event is a reading that the next one of its sensor replaces.
pub open spec fn is_reading(event: SessionEvent) -> bool {
    event matches SessionEvent::Notification(notification)
        && notification matches Notification::Input {
        payload,
        ..
    } && (payload is Accel || payload is Ir || payload is MotionPlus || payload is BalanceBoard
        || payload is NunchukMove || payload is ProControllerMove
        || payload is ClassicControllerMove || payload is DrumsMove || payload is GuitarMove)
}

/// A number for each kind of report.
pub open spec fn report_number(payload: InputPayload) -> int {
    match payload {
        InputPayload::Key(_) => 0,
        InputPayload::Accel(_) => 1,
        InputPayload::Ir(_) => 2,
        InputPayload::BalanceBoard(_) => 3,
        InputPayload::MotionPlus(_) => 4,
        InputPayload::ProControllerKey(_) => 5,
        InputPayload::ProControllerMove(_) => 6,
        InputPayload::Watch => 7,
        InputPayload::ClassicControllerKey(_) => 8,
        InputPayload::ClassicControllerMove(_) => 9,
        InputPayload::NunchukKey(_) => 10,
        InputPayload::NunchukMove(_) => 11,
        InputPayload::DrumsKey(_) => 12,
        InputPayload::DrumsMove(_) => 13,
        InputPayload::GuitarKey(_) => 14,
        InputPayload::GuitarMove(_) => 15,
        InputPayload::Gone => 16,
        InputPayload::Unknown(code) => code as int,
    }
}

/// A report's code is the number of its kind.
pub proof fn reports_have_their_code(payload: &InputPayload, code: u32)
    requires
        call_ensures(InputPayload::event_code, (payload, ), code),
    ensures
        code == report_number(*payload),
{
}

/// Whether two readings are of one sensor of one device.
pub open spec fn same_reading(a: SessionEvent, b: SessionEvent) -> bool {
    match (a, b) {
        (
            SessionEvent::Notification(Notification::Input { syspath: p, payload: x, .. }),
            SessionEvent::Notification(Notification::Input { syspath: q, payload: y, .. }),
        ) => p@ == q@ && report_number(x) == report_number(y),
        _ => false,
    }
}

/// Readings of sensors may be replaced by newer ones; buttons, connections and the coming and going
/// of devices may not.
pub proof fn readings_are_those_of_sensors(event: SessionEvent)
    ensures
        session::sensor_of(event) is Some == is_reading(event),
{
}

/// Two readings compete exactly if they are of one sensor of one device.
pub proof fn readings_compete_within_a_sensor(a: SessionEvent, b: SessionEvent)
    requires
        is_reading(a),
        is_reading(b),
    ensures
        session::sensor_of(a) == session::sensor_of(b) <==> same_reading(a, b),
{
}

/// While fewer than sixty-four events wait, an event waits behind the others, whatever the policy.
pub proof fn events_wait_in_order(
    queue: &mut EventQueue,
    event: SessionEvent,
    result: Result<(), ClientError>,
)
    requires
        call_ensures(EventQueue::send, (queue, event), result),
        old(queue)@.events.len() < 64,
    ensures
        result is Ok,
        final(queue)@.events == old(queue)@.events.push(event),
        final(queue)@.coalesced == old(queue)@.coalesced,
        final(queue)@.policy == old(queue)@.policy,
        final(queue)@.closed == old(queue)@.closed,
{
}

/// An event that was sent to an empty queue is the one that is received.
pub proof fn sent_events_are_received(
    queue: &mut EventQueue,
    event: SessionEvent,
    sent: Result<(), ClientError>,
    later: &mut EventQueue,
    received: Result<SessionEvent, TryRecvError>,
)
    requires
        call_ensures(EventQueue::send, (queue, event), sent),
        *old(later) == *final(queue),
        call_ensures(EventQueue::try_recv, (later, ), received),
    ensures
        old(queue)@.events.len() == 0 ==> received == Ok::<SessionEvent, TryRecvError>(event)
            && final(later)@.events.len() == 0,
        0 < old(queue)@.events.len() < 64 ==> received == Ok::<SessionEvent, TryRecvError>(
            old(queue)@.events[0],
        ),
{
}

/// A full queue whose policy is strict refuses an event, and stays as it was.
pub proof fn strict_queues_refuse(
    queue: &mut EventQueue,
    event: SessionEvent,
    result: Result<(), ClientError>,
)
    requires
        call_ensures(EventQueue::send, (queue, event), result),
        old(queue)@.events.len() == 64,
        old(queue)@.policy is Strict,
    ensures
        result == Err::<(), ClientError>(ClientError::SessionBacklogExceeded { limit: 64 }),
        final(queue)@ == old(queue)@,
{
}

proof fn lemma_first_of(
    events: Seq<SessionEvent>,
    sensor: (Seq<char>, u32),
    from: nat,
)
    requires
        from <= events.len(),
    ensures
        match session::first_sample_of(events, sensor, from) {
            Some(i) => from <= i < events.len() && session::sensor_of(events[i as int]) == Some(
                sensor,
            ) && forall|k: int|
                from <= k < i ==> session::sensor_of(#[trigger] events[k]) != Some(sensor),
            None => forall|k: int|
                from <= k < events.len() ==> session::sensor_of(#[trigger] events[k]) != Some(
                    sensor,
                ),
        },
    decreases events.len() - from,
{
    if from < events.len() && session::sensor_of(events[from as int]) != Some(sensor) {
        lemma_first_of(events, sensor, from + 1);
    }
}

proof fn lemma_first(events: Seq<SessionEvent>, from: nat)
    requires
        from <= events.len(),
    ensures
        match session::first_sample(events, from) {
            Some(i) => from <= i < events.len() && session::sensor_of(events[i as int]) is Some
                && forall|k: int|
                from <= k < i ==> session::sensor_of(#[trigger] events[k]) is None,
            None => forall|k: int|
                from <= k < events.len() ==> session::sensor_of(#[trigger] events[k]) is None,
        },
    decreases events.len() - from,
{
    if from < events.len() && session::sensor_of(events[from as int]) is None {
        lemma_first(events, from + 1);
    }
}

/// A full queue that keeps the latest readings drops the oldest reading of the same sensor for a new
/// one, and counts it; the new one waits behind all others.
pub proof fn newer_readings_replace_older_ones(
    queue: &mut EventQueue,
    event: SessionEvent,
    result: Result<(), ClientError>,
    old_reading: int,
)
    requires
        call_ensures(EventQueue::send, (queue, event), result),
        old(queue)@.events.len() == 64,
        old(queue)@.policy is LatestSensors,
        is_reading(event),
        0 <= old_reading < 64,
        is_reading(old(queue)@.events[old_reading]),
        same_reading(old(queue)@.events[old_reading], event),
        forall|k: int|
            0 <= k < old_reading && is_reading(old(queue)@.events[k]) ==> !same_reading(
                #[trigger] old(queue)@.events[k],
                event,
            ),
    ensures
        result is Ok,
        final(queue)@.events == old(queue)@.events.remove(old_reading).push(event),
        old(queue)@.coalesced < u64::MAX ==> final(queue)@.coalesced == old(queue)@.coalesced + 1,
{
    let events = old(queue)@.events;
    readings_compete_within_a_sensor(events[old_reading], event);
    let sensor = session::sensor_of(event)->0;
    lemma_first_of(events, sensor, 0);
    assert(session::sensor_of(events[old_reading]) == Some(sensor));
    let first = session::first_sample_of(events, sensor, 0)->0 as int;
    assert(first <= old_reading);
    if first < old_reading {
        readings_are_those_of_sensors(events[first]);
        readings_compete_within_a_sensor(events[first], event);
    }
}

/// A full queue that keeps the latest readings drops the oldest reading of any sensor for an event
/// that replaces none.
pub proof fn readings_give_way_to_other_events(
    queue: &mut EventQueue,
    event: SessionEvent,
    result: Result<(), ClientError>,
    oldest: int,
)
    requires
        call_ensures(EventQueue::send, (queue, event), result),
        old(queue)@.events.len() == 64,
        old(queue)@.policy is LatestSensors,
        !is_reading(event),
        0 <= oldest < 64,
        is_reading(old(queue)@.events[oldest]),
        forall|k: int| 0 <= k < oldest ==> !is_reading(#[trigger] old(queue)@.events[k]),
    ensures
        result is Ok,
        final(queue)@.events == old(queue)@.events.remove(oldest).push(event),
{
    let events = old(queue)@.events;
    lemma_first(events, 0);
    let first = session::first_sample(events, 0)->0 as int;
    assert(session::sensor_of(events[oldest]) is Some);
    assert(first <= oldest);
    if first < oldest {
        readings_are_those_of_sensors(events[first]);
    }
}

/// A full queue without readings skips a reading and refuses any other event.
pub proof fn full_queues_lose_no_other_event(
    queue: &mut EventQueue,
    event: SessionEvent,
    result: Result<(), ClientError>,
)
    requires
        call_ensures(EventQueue::send, (queue, event), result),
        old(queue)@.events.len() == 64,
        old(queue)@.policy is LatestSensors,
        forall|k: int| 0 <= k < 64 ==> !is_reading(#[trigger] old(queue)@.events[k]),
    ensures
        final(queue)@.events == old(queue)@.events,
        is_reading(event) ==> result is Ok,
        !is_reading(event) ==> result == Err::<(), ClientError>(
            ClientError::SessionBacklogExceeded { limit: 64 },
        ),
{
    let events = old(queue)@.events;
    lemma_first(events, 0);
    if session::first_sample(events, 0) is Some {
        readings_are_those_of_sensors(events[session::first_sample(events, 0)->0 as int]);
    }
    if is_reading(event) {
        let sensor = session::sensor_of(event)->0;
        lemma_first_of(events, sensor, 0);
        if session::first_sample_of(events, sensor, 0) is Some {
            readings_are_those_of_sensors(
                events[session::first_sample_of(events, sensor, 0)->0 as int],
            );
        }
    }
}

/// A session that visualizes keeps the latest readings; any other session delivers all of them.
pub proof fn sessions_have_their_policy(
    socket: Option<String>,
    selector: String,
    single: bool,
    plain: Session,
    visual: Session,
)
    requires
        call_ensures(Session::start, (socket, selector, single), plain),
        call_ensures(Session::start_visualization, (socket, selector, single), visual),
    ensures
        plain@.policy is Strict,
        visual@.policy is LatestSensors,
        plain@.undelivered.len() == 0 && visual@.undelivered.len() == 0,
        plain@.outcome is None && visual@.outcome is None,
        !plain@.cancelled && !visual@.cancelled,
        !plain@.closed && !visual@.closed,
        plain@.selector == selector@ && visual@.selector == selector@,
        plain@.single == single && visual@.single == single,
{
}

/// A session's outcome is given once, after everything that was sent has been received.
pub proof fn the_outcome_comes_last(
    session: &mut Session,
    outcome: Result<(), ClientError>,
    early: &mut Session,
    first: Result<Result<(), ClientError>, TryRecvError>,
    late: &mut Session,
    second: Result<Result<(), ClientError>, TryRecvError>,
)
    requires
        call_ensures(Session::complete, (session, outcome), ()),
        *old(early) == *final(session),
        call_ensures(Session::try_finish, (early, ), first),
        *old(late) == *final(early),
        call_ensures(Session::try_finish, (late, ), second),
    ensures
        old(session)@.undelivered.len() > 0 ==> first == Err::<
            Result<(), ClientError>,
            TryRecvError,
        >(TryRecvError::Empty) && second == first,
        old(session)@.undelivered.len() == 0 ==> first == Ok::<
            Result<(), ClientError>,
            TryRecvError,
        >(outcome) && second == Err::<Result<(), ClientError>, TryRecvError>(
            TryRecvError::Disconnected,
        ),
{
}

/// What a session was sent is received in order also after it has ended; then it is disconnected.
pub proof fn ended_sessions_deliver_the_rest(
    session: &mut Session,
    outcome: Result<(), ClientError>,
    later: &mut Session,
    received: Result<SessionEvent, TryRecvError>,
)
    requires
        call_ensures(Session::complete, (session, outcome), ()),
        *old(later) == *final(session),
        call_ensures(Session::try_recv, (later, ), received),
    ensures
        old(session)@.undelivered.len() > 0 ==> received == Ok::<SessionEvent, TryRecvError>(
            old(session)@.undelivered[0],
        ) && final(later)@.undelivered == old(session)@.undelivered.subrange(
            1,
            old(session)@.undelivered.len() as int,
        ),
        old(session)@.undelivered.len() == 0 ==> received == Err::<SessionEvent, TryRecvError>(
            TryRecvError::Disconnected,
        ),
{
}

/// A session that was cancelled knows it, and changes in nothing else.
pub proof fn cancelled_sessions_know_it(session: &mut Session, later: &Session, r: bool)
    requires
        call_ensures(Session::cancel, (session, ), ()),
        *later == *final(session),
        call_ensures(Session::is_cancelled, (later, ), r),
    ensures
        r,
        later@.undelivered == old(session)@.undelivered,
        later@.outcome == old(session)@.outcome,
{
}

/// The worker ends when it was stopped, and goes on otherwise.
pub proof fn stopped_workers_end(stop: bool, step: WorkerStep)
    requires
        call_ensures(session::before_read, (stop, ), step),
    ensures
        stop ==> step == WorkerStep::Finish(Ok(())),
        !stop ==> step == WorkerStep::Continue,
{
}

/// A read that was merely idle is tried again; one that failed ends the worker with its error; one
/// that gave a notification delivers it.
pub proof fn reads_are_delivered(
    queue: &mut EventQueue,
    read: Result<Option<Notification>, ClientError>,
    step: WorkerStep,
)
    requires
        call_ensures(session::after_read, (queue, read), step),
        old(queue)@.events.len() < 64,
    ensures
        read matches Ok(Some(n)) ==> step is Continue && final(queue)@.events
            == old(queue)@.events.push(SessionEvent::Notification(n)),
        read matches Ok(None) ==> step is Continue && final(queue)@ == old(queue)@,
        read matches Err(error) ==> final(queue)@ == old(queue)@ && if (
        error matches ClientError::Io(failure) && (failure.kind is WouldBlock
            || failure.kind is TimedOut)) {
            step is Continue
        } else {
            step == WorkerStep::Finish(Err(error))
        },
{
}

/// A setup that succeeded is delivered as a connection; one that failed ends the worker, with its
/// error unless the worker was stopped.
pub proof fn setups_are_delivered(
    queue: &mut EventQueue,
    setup: Result<(Status, Vec<DeviceInfo>), ClientError>,
    stop: bool,
    step: WorkerStep,
)
    requires
        call_ensures(session::after_setup, (queue, setup, stop), step),
        old(queue)@.events.len() < 64,
    ensures
        setup matches Ok((status, devices)) ==> step is Continue && final(queue)@.events
            == old(queue)@.events.push(SessionEvent::Connected { status, devices }),
        setup matches Err(error) ==> final(queue)@ == old(queue)@ && step == WorkerStep::Finish(
            if stop {
                Ok(())
            } else {
                Err(error)
            },
        ),
{
}

/// Without a selector all devices are chosen, or the first where one is wanted; there must be one.
pub proof fn no_selector_chooses_all(
    devices: Vec<DeviceInfo>,
    selector: &str,
    single: bool,
    result: Result<Vec<DeviceInfo>, ClientError>,
)
    requires
        call_ensures(session::select_devices, (devices, selector, single), result),
        selector@.len() == 0,
    ensures
        devices@.len() == 0 ==> result is Err,
        devices@.len() > 0 ==> (result matches Ok(chosen) && if single {
            chosen@.len() == 1 && chosen@[0] == devices@[0]
        } else {
            chosen@ == devices@
        }),
{
}

/// A number as a selector chooses the device at that place, counted from one, and nothing where there
/// is none at that place.
pub proof fn numbers_choose_by_place(
    devices: Vec<DeviceInfo>,
    selector: &str,
    single: bool,
    result: Result<Vec<DeviceInfo>, ClientError>,
    place: nat,
)
    requires
        call_ensures(session::select_devices, (devices, selector, single), result),
        selector@ == text::decimal(place),
    ensures
        1 <= place <= devices@.len() ==> (result matches Ok(chosen) && chosen@.len() == 1
            && chosen@[0] == devices@[place - 1]),
        place == 0 || place > devices@.len() ==> result is Err,
{
    crate::round_trip::lemma_digits(place);
}

proof fn lemma_with_path(devices: Seq<DeviceInfo>, path: Seq<char>, from: nat)
    requires
        from <= devices.len(),
    ensures
        match session::device_with_path(devices, path, from) {
            Some(i) => from <= i < devices.len() && devices[i as int].syspath@ == path && forall|
                k: int,
            |
                from <= k < i ==> (#[trigger] devices[k]).syspath@ != path,
            None => forall|k: int|
                from <= k < devices.len() ==> (#[trigger] devices[k]).syspath@ != path,
        },
    decreases devices.len() - from,
{
    if from < devices.len() && devices[from as int].syspath@ != path {
        lemma_with_path(devices, path, from + 1);
    }
}

/// Any other selector chooses the first device with that path, and nothing where none has it.
pub proof fn paths_choose_by_path(
    devices: Vec<DeviceInfo>,
    selector: &str,
    single: bool,
    result: Result<Vec<DeviceInfo>, ClientError>,
    place: int,
)
    requires
        call_ensures(session::select_devices, (devices, selector, single), result),
        selector@.len() > 0,
        selector@[0] == '/',
    ensures
        0 <= place < devices@.len() && devices@[place].syspath@ == selector@ && (forall|k: int|
            0 <= k < place ==> (#[trigger] devices@[k]).syspath@ != selector@) ==> (
        result matches Ok(chosen) && chosen@.len() == 1 && chosen@[0] == devices@[place]),
        (forall|k: int|
            0 <= k < devices@.len() ==> (#[trigger] devices@[k]).syspath@ != selector@)
            ==> result is Err,
{
    assert(!text::is_digit(selector@[0]));
    lemma_with_path(devices@, selector@, 0);
}

/// A session tells what it was started with, and how many readings were replaced.
pub proof fn sessions_tell_their_target(
    session: &Session,
    target: (Option<&String>, &String, bool),
    policy: DeliveryPolicy,
    n: u64,
)
    requires
        call_ensures(Session::target, (session, ), target),
        call_ensures(Session::policy, (session, ), policy),
        call_ensures(Session::coalesced_samples, (session, ), n),
    ensures
        target.0 is Some <==> session@.socket is Some,
        target.0 matches Some(path) ==> session@.socket == Some(path@),
        target.1@ == session@.selector && target.2 == session@.single,
        policy == session@.policy && n == session@.coalesced,
{
}

/// A session delivers as its queue does: behind the others while fewer than sixty-four wait.
pub proof fn sessions_deliver_in_order(
    session: &mut Session,
    event: SessionEvent,
    result: Result<(), ClientError>,
)
    requires
        call_ensures(Session::send, (session, event), result),
    ensures
        old(session)@.undelivered.len() < 64 ==> result is Ok && final(session)@.undelivered
            == old(session)@.undelivered.push(event),
        old(session)@.undelivered.len() == 64 && old(session)@.policy is Strict ==> result is Err
            && final(session)@.undelivered == old(session)@.undelivered,
        final(session)@.outcome == old(session)@.outcome,
{
}

/// A queue that is closed says so once nothing waits.
pub proof fn closed_queues_are_disconnected(
    queue: &mut EventQueue,
    later: &mut EventQueue,
    received: Result<SessionEvent, TryRecvError>,
    fresh: EventQueue,
    policy: DeliveryPolicy,
)
    requires
        call_ensures(EventQueue::close, (queue, ), ()),
        *old(later) == *final(queue),
        call_ensures(EventQueue::try_recv, (later, ), received),
        call_ensures(EventQueue::new, (policy, ), fresh),
    ensures
        old(queue)@.events.len() == 0 ==> received == Err::<SessionEvent, TryRecvError>(
            TryRecvError::Disconnected,
        ),
        old(queue)@.events.len() > 0 ==> received == Ok::<SessionEvent, TryRecvError>(
            old(queue)@.events[0],
        ),
        fresh@.events.len() == 0 && fresh@.policy == policy && fresh@.coalesced == 0
            && !fresh@.closed,
{
}

} // verus!
