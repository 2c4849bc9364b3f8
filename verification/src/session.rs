//! Bounded event delivery from a background subscription to an interactive consumer.
use crate::client::ClientError;
use crate::failure::{IoFailure, IoKind};
use crate::protocol::{DeviceInfo, Notification, Status};
use crate::text;
use std::collections::VecDeque;
use vstd::prelude::*;
use vstd::string::*;

verus! {

/// How many events may wait for the consumer.
pub const EVENT_QUEUE: usize = 64;

/// What a session tells its consumer.
#[derive(Debug)]
pub enum SessionEvent {
    Connected { status: Status, devices: Vec<DeviceInfo> },
    Notification(Notification),
}

/// Why nothing was received.
#[derive(Clone, Copy, Debug, PartialEq, Eq, Structural, Hash)]
pub enum TryRecvError {
    /// Nothing has arrived yet.
    Empty,
    /// Nothing will arrive any more.
    Disconnected,
}

/// What happens to sensor samples when the consumer falls behind.
#[derive(Clone, Copy, Debug, PartialEq, Eq, Structural, Hash)]
pub enum DeliveryPolicy {
    /// Every event counts.
    Strict,
    /// Only the latest sample of a sensor counts; every other event counts.
    LatestSensors,
}

/// The sensor that an event is a sample of: a device and an event type.
pub open spec fn sensor_of(event: SessionEvent) -> Option<(Seq<char>, u32)> {
    match event {
        SessionEvent::Notification(Notification::Input { syspath, payload, .. }) =>
            if payload.is_sample() {
                Some((syspath@, payload.spec_event_code()))
            } else {
                None
            },
        _ => None,
    }
}

/// The position of the first sample of a sensor, from `from` on.
pub open spec fn first_sample_of(
    events: Seq<SessionEvent>,
    sensor: (Seq<char>, u32),
    from: nat,
) -> Option<nat>
    decreases events.len() - from,
{
    if from >= events.len() {
        None
    } else if sensor_of(events[from as int]) == Some(sensor) {
        Some(from)
    } else {
        first_sample_of(events, sensor, from + 1)
    }
}

/// The position of the first sample of any sensor, from `from` on.
pub open spec fn first_sample(events: Seq<SessionEvent>, from: nat) -> Option<nat>
    decreases events.len() - from,
{
    if from >= events.len() {
        None
    } else if sensor_of(events[from as int]) is Some {
        Some(from)
    } else {
        first_sample(events, from + 1)
    }
}

/// The sample that makes room for an event: an older one of the same sensor, or else the oldest.
pub open spec fn displaced(events: Seq<SessionEvent>, event: SessionEvent) -> Option<nat> {
    let same = match sensor_of(event) {
        Some(sensor) => first_sample_of(events, sensor, 0),
        None => None,
    };
    match same {
        Some(i) => Some(i),
        None => first_sample(events, 0),
    }
}

/// What becomes of an event that is sent.
pub enum Delivery {
    /// It waits behind the others.
    Queued,
    /// It waits behind the others, and the sample at this position made room for it.
    Displacing(nat),
    /// It is a sample that only events that count are waiting before, and is left out.
    Skipped,
    /// There is no room for it.
    Refused,
}

/// What becomes of an event that is sent to a queue.
pub open spec fn delivery(
    events: Seq<SessionEvent>,
    policy: DeliveryPolicy,
    event: SessionEvent,
) -> Delivery {
    if events.len() < EVENT_QUEUE {
        Delivery::Queued
    } else if policy is Strict {
        Delivery::Refused
    } else {
        match displaced(events, event) {
            Some(i) => Delivery::Displacing(i),
            None => if sensor_of(event) is Some {
                Delivery::Skipped
            } else {
                Delivery::Refused
            },
        }
    }
}

/// The events that wait after one was sent.
pub open spec fn queued_after(
    events: Seq<SessionEvent>,
    policy: DeliveryPolicy,
    event: SessionEvent,
) -> Seq<SessionEvent> {
    match delivery(events, policy, event) {
        Delivery::Queued => events.push(event),
        Delivery::Displacing(i) => events.remove(i as int).push(event),
        Delivery::Skipped => events,
        Delivery::Refused => events,
    }
}

/// The error of a full queue.
pub open spec fn backlog_error() -> ClientError {
    ClientError::SessionBacklogExceeded { limit: EVENT_QUEUE }
}

/// The events that wait for the consumer.
pub struct EventQueue {
    events: VecDeque<SessionEvent>,
    policy: DeliveryPolicy,
    coalesced: u64,
    closed: bool,
}

/// The state of an event queue.
#[verifier::ext_equal]
pub struct EventQueueView {
    pub events: Seq<SessionEvent>,
    pub policy: DeliveryPolicy,
    /// How many samples were displaced or left out, modulo the counter's range.
    pub coalesced: u64,
    /// Whether nothing more will be sent.
    pub closed: bool,
}

impl EventQueueView {
    /// The queue after an event was sent.
    pub open spec fn sending(self, event: SessionEvent) -> EventQueueView {
        EventQueueView {
            events: queued_after(self.events, self.policy, event),
            coalesced: match delivery(self.events, self.policy, event) {
                Delivery::Displacing(_) | Delivery::Skipped => self.coalesced.wrapping_add(1),
                _ => self.coalesced,
            },
            ..self
        }
    }
}

impl View for EventQueue {
    type V = EventQueueView;

    closed spec fn view(&self) -> EventQueueView {
        EventQueueView {
            events: self.events@,
            policy: self.policy,
            coalesced: self.coalesced,
            closed: self.closed,
        }
    }
}

fn same_sensor(a: &SessionEvent, b: &SessionEvent) -> (r: bool)
    ensures
        r == (sensor_of(*a) is Some && sensor_of(*a) == sensor_of(*b)),
{
    match (a, b) {
        (
            SessionEvent::Notification(
                Notification::Input { syspath: path_a, payload: payload_a, .. },
            ),
            SessionEvent::Notification(
                Notification::Input { syspath: path_b, payload: payload_b, .. },
            ),
        ) => payload_a.is_sensor() && payload_b.is_sensor() && *path_a == *path_b
            && payload_a.event_code() == payload_b.event_code(),
        _ => false,
    }
}

fn is_sample(event: &SessionEvent) -> (r: bool)
    ensures
        r == (sensor_of(*event) is Some),
{
    match event {
        SessionEvent::Notification(Notification::Input { payload, .. }) => payload.is_sensor(),
        _ => false,
    }
}

impl EventQueue {
    /// Whether no more events wait than may.
    pub open spec fn well_formed(self) -> bool {
        self@.events.len() <= EVENT_QUEUE
    }

    /// An empty queue.
    pub fn new(policy: DeliveryPolicy) -> (queue: EventQueue)
        ensures
            queue.well_formed(),
            queue@ == (EventQueueView {
                events: Seq::empty(),
                policy,
                coalesced: 0,
                closed: false,
            }),
    {
        let queue = EventQueue {
            events: VecDeque::with_capacity(EVENT_QUEUE),
            policy,
            coalesced: 0,
            closed: false,
        };
        assert(queue@.events =~= Seq::empty());
        queue
    }

    /// How many events wait.
    pub fn len(&self) -> (len: usize)
        ensures
            len == self@.events.len(),
    {
        self.events.len()
    }

    /// How the queue delivers what it cannot hold.
    pub fn policy(&self) -> (policy: DeliveryPolicy)
        ensures
            policy == self@.policy,
    {
        self.policy
    }

    /// How many samples were displaced or left out.
    pub fn coalesced(&self) -> (n: u64)
        ensures
            n == self@.coalesced,
    {
        self.coalesced
    }

    /// Notes that nothing more will be sent.
    pub fn close(&mut self)
        ensures
            final(self)@ == (EventQueueView { closed: true, ..old(self)@ }),
    {
        self.closed = true;
    }

    fn find_displaced(&self, event: &SessionEvent) -> (index: Option<usize>)
        ensures
            match index {
                Some(i) => displaced(self@.events, *event) == Some(i as nat) && i
                    < self@.events.len(),
                None => displaced(self@.events, *event) is None,
            },
    {
        if is_sample(event) {
            let mut i: usize = 0;
            while i < self.events.len()
                invariant
                    sensor_of(*event) is Some,
                    i <= self.events.len(),
                    first_sample_of(self@.events, sensor_of(*event)->0, 0) == first_sample_of(
                        self@.events,
                        sensor_of(*event)->0,
                        i as nat,
                    ),
                decreases self.events.len() - i,
            {
                if same_sensor(event, &self.events[i]) {
                    return Some(i);
                }
                i = i + 1;
            }
        }
        let mut i: usize = 0;
        while i < self.events.len()
            invariant
                i <= self.events.len(),
                sensor_of(*event) is Some ==> first_sample_of(
                    self@.events,
                    sensor_of(*event)->0,
                    0,
                ) is None,
                first_sample(self@.events, 0) == first_sample(self@.events, i as nat),
            decreases self.events.len() - i,
        {
            if is_sample(&self.events[i]) {
                return Some(i);
            }
            i = i + 1;
        }
        None
    }

    /// Sends an event. A full queue makes room only by displacing a sample, and only where the
    /// policy says so; otherwise it fails.
    pub fn send(&mut self, event: SessionEvent) -> (result: Result<(), ClientError>)
        requires
            old(self).well_formed(),
        ensures
            final(self).well_formed(),
            result == (if delivery(old(self)@.events, old(self)@.policy, event) is Refused {
                Err::<(), ClientError>(backlog_error())
            } else {
                Ok(())
            }),
            final(self)@ == old(self)@.sending(event),
    {
        if self.events.len() == EVENT_QUEUE {
            match self.policy {
                DeliveryPolicy::Strict => {
                    return Err(ClientError::SessionBacklogExceeded { limit: EVENT_QUEUE });
                },
                DeliveryPolicy::LatestSensors => {
                    match self.find_displaced(&event) {
                        Some(index) => {
                            self.events.remove(index);
                            self.coalesced = self.coalesced.wrapping_add(1);
                        },
                        None => {
                            if is_sample(&event) {
                                self.coalesced = self.coalesced.wrapping_add(1);
                                return Ok(());
                            }
                            return Err(
                                ClientError::SessionBacklogExceeded { limit: EVENT_QUEUE },
                            );
                        },
                    }
                },
            }
        }
        self.events.push_back(event);
        Ok(())
    }

    /// Receives the oldest event.
    pub fn try_recv(&mut self) -> (result: Result<SessionEvent, TryRecvError>)
        requires
            old(self).well_formed(),
        ensures
            final(self).well_formed(),
            if old(self)@.events.len() > 0 {
                &&& result == Ok::<SessionEvent, TryRecvError>(old(self)@.events[0])
                &&& final(self)@ == (EventQueueView {
                    events: old(self)@.events.subrange(1, old(self)@.events.len() as int),
                    ..old(self)@
                })
            } else {
                &&& result == Err::<SessionEvent, TryRecvError>(
                    if old(self)@.closed {
                        TryRecvError::Disconnected
                    } else {
                        TryRecvError::Empty
                    },
                )
                &&& final(self)@ == old(self)@
            },
    {
        match self.events.pop_front() {
            Some(event) => Ok(event),
            None => if self.closed {
                Err(TryRecvError::Disconnected)
            } else {
                Err(TryRecvError::Empty)
            },
        }
    }
}

/// How far the worker of a session has come.
#[derive(Debug)]
pub enum Completion {
    /// It runs.
    Running,
    /// It ended with this result, which nobody has taken.
    Ended(Result<(), ClientError>),
    /// It ended, and its result was taken.
    Taken,
}

/// A subscription and the events that it has delivered so far.
pub struct Session {
    socket: Option<String>,
    selector: String,
    single: bool,
    events: EventQueue,
    finished: Completion,
    cancelled: bool,
    pending_event: Option<SessionEvent>,
    pending_result: Option<Result<(), ClientError>>,
}

/// The state of a session.
#[verifier::ext_equal]
pub struct SessionView {
    pub socket: Option<Seq<char>>,
    pub selector: Seq<char>,
    pub single: bool,
    /// The events that the consumer has not received, oldest first.
    pub undelivered: Seq<SessionEvent>,
    pub policy: DeliveryPolicy,
    pub coalesced: u64,
    pub closed: bool,
    /// The result of the worker, once it has ended and until it is taken.
    pub outcome: Option<Result<(), ClientError>>,
    /// Whether the result was taken.
    pub taken: bool,
    pub cancelled: bool,
}

/// The value of an optional text.
pub open spec fn optional_string(text: Option<String>) -> Option<Seq<char>> {
    match text {
        Some(t) => Some(t@),
        None => None,
    }
}

impl View for Session {
    type V = SessionView;

    closed spec fn view(&self) -> SessionView {
        SessionView {
            socket: optional_string(self.socket),
            selector: self.selector@,
            single: self.single,
            undelivered: match self.pending_event {
                Some(event) => seq![event] + self.events@.events,
                None => self.events@.events,
            },
            policy: self.events@.policy,
            coalesced: self.events@.coalesced,
            closed: self.events@.closed,
            outcome: match self.pending_result {
                Some(result) => Some(result),
                None => match self.finished {
                    Completion::Ended(result) => Some(result),
                    _ => None,
                },
            },
            taken: self.pending_result is None && self.finished is Taken,
            cancelled: self.cancelled,
        }
    }
}

impl Session {
    /// Whether no more events wait than may, and a result exists only after the worker ended.
    pub closed spec fn well_formed(self) -> bool {
        &&& self.events.well_formed()
        &&& self.pending_result is Some ==> self.finished is Taken
        &&& self.pending_event is Some ==> self.pending_result is Some
    }

    /// A session whose every event counts. An empty selector captures all devices that the daemon
    /// knows, or the first where only one is wanted; otherwise it is a device path or an ordinal.
    pub fn start(socket: Option<String>, selector: String, single: bool) -> (session: Session)
        ensures
            session.well_formed(),
            session@ == started(
                optional_string(socket),
                selector@,
                single,
                DeliveryPolicy::Strict,
            ),
    {
        Session::start_with_policy(socket, selector, single, DeliveryPolicy::Strict)
    }

    /// A session that keeps recent sensor values when the consumer falls behind. Button transitions
    /// and lifecycle events are never coalesced; their overflow still fails.
    pub fn start_visualization(socket: Option<String>, selector: String, single: bool) -> (session:
        Session)
        ensures
            session.well_formed(),
            session@ == started(
                optional_string(socket),
                selector@,
                single,
                DeliveryPolicy::LatestSensors,
            ),
    {
        Session::start_with_policy(socket, selector, single, DeliveryPolicy::LatestSensors)
    }

    fn start_with_policy(
        socket: Option<String>,
        selector: String,
        single: bool,
        policy: DeliveryPolicy,
    ) -> (session: Session)
        ensures
            session.well_formed(),
            session@ == started(optional_string(socket), selector@, single, policy),
    {
        let session = Session {
            socket,
            selector,
            single,
            events: EventQueue::new(policy),
            finished: Completion::Running,
            cancelled: false,
            pending_event: None,
            pending_result: None,
        };
        assert(session@ =~= started(optional_string(socket), selector@, single, policy));
        session
    }

    /// Where the session connects to, what it selects, and whether it wants one device only.
    pub fn target(&self) -> (target: (Option<&String>, &String, bool))
        ensures
            match target.0 {
                Some(path) => self@.socket == Some(path@),
                None => self@.socket is None,
            },
            target.1@ == self@.selector,
            target.2 == self@.single,
    {
        let socket = match &self.socket {
            Some(path) => Some(path),
            None => None,
        };
        (socket, &self.selector, self.single)
    }

    /// How the session delivers what it cannot hold.
    pub fn policy(&self) -> (policy: DeliveryPolicy)
        ensures
            policy == self@.policy,
    {
        self.events.policy()
    }

    /// Number of sensor samples replaced or evicted for a visualization.
    pub fn coalesced_samples(&self) -> (n: u64)
        ensures
            n == self@.coalesced,
    {
        self.events.coalesced()
    }

    /// Delivers an event of the worker.
    pub fn send(&mut self, event: SessionEvent) -> (result: Result<(), ClientError>)
        requires
            old(self).well_formed(),
            old(self)@.outcome is None,
        ensures
            final(self).well_formed(),
            result == (if delivery(old(self)@.undelivered, old(self)@.policy, event) is Refused {
                Err::<(), ClientError>(backlog_error())
            } else {
                Ok(())
            }),
            final(self)@ == (SessionView {
                undelivered: queued_after(old(self)@.undelivered, old(self)@.policy, event),
                coalesced: match delivery(old(self)@.undelivered, old(self)@.policy, event) {
                    Delivery::Displacing(_) | Delivery::Skipped => old(self)@.coalesced.wrapping_add(
                        1,
                    ),
                    _ => old(self)@.coalesced,
                },
                ..old(self)@
            }),
    {
        self.events.send(event)
    }

    /// Notes how the worker ended. Nothing is sent after that.
    pub fn complete(&mut self, result: Result<(), ClientError>)
        requires
            old(self).well_formed(),
            old(self)@.outcome is None,
            !old(self)@.taken,
        ensures
            final(self).well_formed(),
            final(self)@ == (SessionView { outcome: Some(result), closed: true, ..old(self)@ }),
    {
        self.events.close();
        self.finished = Completion::Ended(result);
    }

    /// Receives the oldest event.
    pub fn try_recv(&mut self) -> (result: Result<SessionEvent, TryRecvError>)
        requires
            old(self).well_formed(),
        ensures
            final(self).well_formed(),
            if old(self)@.undelivered.len() > 0 {
                &&& result == Ok::<SessionEvent, TryRecvError>(old(self)@.undelivered[0])
                &&& final(self)@ == (SessionView {
                    undelivered: old(self)@.undelivered.subrange(
                        1,
                        old(self)@.undelivered.len() as int,
                    ),
                    ..old(self)@
                })
            } else {
                &&& result == Err::<SessionEvent, TryRecvError>(
                    if old(self)@.closed {
                        TryRecvError::Disconnected
                    } else {
                        TryRecvError::Empty
                    },
                )
                &&& final(self)@ == old(self)@
            },
    {
        let pending = self.pending_event.take();
        match pending {
            Some(event) => {
                assert((seq![event] + self.events@.events).subrange(
                    1,
                    self.events@.events.len() as int + 1,
                ) =~= self.events@.events);
                Ok(event)
            },
            None => self.events.try_recv(),
        }
    }

    /// Takes the result of the worker. It becomes available only after all events are delivered.
    pub fn try_finish(&mut self) -> (result: Result<Result<(), ClientError>, TryRecvError>)
        requires
            old(self).well_formed(),
        ensures
            final(self).well_formed(),
            match old(self)@.outcome {
                None => {
                    &&& final(self)@ == old(self)@
                    &&& result == Err::<Result<(), ClientError>, TryRecvError>(
                        if old(self)@.taken {
                            TryRecvError::Disconnected
                        } else {
                            TryRecvError::Empty
                        },
                    )
                },
                Some(outcome) => if old(self)@.undelivered.len() > 0 {
                    &&& final(self)@ == old(self)@
                    &&& result == Err::<Result<(), ClientError>, TryRecvError>(TryRecvError::Empty)
                } else {
                    &&& result == Ok::<Result<(), ClientError>, TryRecvError>(outcome)
                    &&& final(self)@ == (SessionView { outcome: None, taken: true, ..old(self)@ })
                },
            },
    {
        let pending = self.pending_result.take();
        let result = match pending {
            Some(result) => result,
            None => {
                let mut finished = Completion::Taken;
                std::mem::swap(&mut finished, &mut self.finished);
                match finished {
                    Completion::Running => {
                        self.finished = Completion::Running;
                        return Err(TryRecvError::Empty);
                    },
                    Completion::Taken => {
                        return Err(TryRecvError::Disconnected);
                    },
                    Completion::Ended(result) => result,
                }
            },
        };
        if self.pending_event.is_some() {
            self.pending_result = Some(result);
            return Err(TryRecvError::Empty);
        }
        match self.events.try_recv() {
            Ok(event) => {
                self.pending_event = Some(event);
                self.pending_result = Some(result);
                assert(seq![event] + self.events@.events =~= old(self)@.undelivered);
                assert(self@ =~= old(self)@);
                Err(TryRecvError::Empty)
            },
            Err(_) => Ok(result),
        }
    }

    /// Asks the worker to end.
    pub fn cancel(&mut self)
        requires
            old(self).well_formed(),
        ensures
            final(self).well_formed(),
            final(self)@ == (SessionView { cancelled: true, ..old(self)@ }),
    {
        self.cancelled = true;
    }

    /// Whether the worker was asked to end.
    pub fn is_cancelled(&self) -> (r: bool)
        ensures
            r == self@.cancelled,
    {
        self.cancelled
    }
}

/// The state of a session that has just started.
pub open spec fn started(
    socket: Option<Seq<char>>,
    selector: Seq<char>,
    single: bool,
    policy: DeliveryPolicy,
) -> SessionView {
    SessionView {
        socket,
        selector,
        single,
        undelivered: Seq::empty(),
        policy,
        coalesced: 0,
        closed: false,
        outcome: None,
        taken: false,
        cancelled: false,
    }
}

/// What the worker of a session does next.
#[derive(Debug)]
pub enum WorkerStep {
    /// Read the next notification.
    Continue,
    /// End with this result.
    Finish(Result<(), ClientError>),
}

/// Whether a failed read only means that nothing has arrived yet.
pub open spec fn is_idle(error: ClientError) -> bool {
    error matches ClientError::Io(failure) && (failure.kind is WouldBlock
        || failure.kind is TimedOut)
}

/// What follows the attempt to set up a capture. A failure after cancellation is no failure.
pub fn after_setup(
    queue: &mut EventQueue,
    setup: Result<(Status, Vec<DeviceInfo>), ClientError>,
    stop: bool,
) -> (step: WorkerStep)
    requires
        old(queue).well_formed(),
    ensures
        final(queue).well_formed(),
        match setup {
            Err(error) => {
                &&& final(queue)@ == old(queue)@
                &&& step == WorkerStep::Finish(
                    if stop {
                        Ok(())
                    } else {
                        Err(error)
                    },
                )
            },
            Ok((status, devices)) => {
                let event = SessionEvent::Connected { status, devices };
                &&& final(queue)@ == old(queue)@.sending(event)
                &&& step == (if delivery(old(queue)@.events, old(queue)@.policy, event) is Refused {
                    WorkerStep::Finish(Err(backlog_error()))
                } else {
                    WorkerStep::Continue
                })
            },
        },
{
    match setup {
        Err(error) => {
            if stop {
                WorkerStep::Finish(Ok(()))
            } else {
                WorkerStep::Finish(Err(error))
            }
        },
        Ok((status, devices)) => match queue.send(SessionEvent::Connected { status, devices }) {
            Ok(()) => WorkerStep::Continue,
            Err(error) => WorkerStep::Finish(Err(error)),
        },
    }
}

/// What precedes each read: cancellation ends the worker without a failure.
pub fn before_read(stop: bool) -> (step: WorkerStep)
    ensures
        step == (if stop {
            WorkerStep::Finish(Ok(()))
        } else {
            WorkerStep::Continue
        }),
{
    if stop {
        WorkerStep::Finish(Ok(()))
    } else {
        WorkerStep::Continue
    }
}

/// What follows a read: an event is delivered, a read without one is repeated, and any other
/// failure ends the worker.
pub fn after_read(
    queue: &mut EventQueue,
    read: Result<Option<Notification>, ClientError>,
) -> (step: WorkerStep)
    requires
        old(queue).well_formed(),
    ensures
        final(queue).well_formed(),
        match read {
            Ok(Some(notification)) => {
                let event = SessionEvent::Notification(notification);
                &&& final(queue)@ == old(queue)@.sending(event)
                &&& step == (if delivery(old(queue)@.events, old(queue)@.policy, event) is Refused {
                    WorkerStep::Finish(Err(backlog_error()))
                } else {
                    WorkerStep::Continue
                })
            },
            Ok(None) => final(queue)@ == old(queue)@ && step == WorkerStep::Continue,
            Err(error) => {
                &&& final(queue)@ == old(queue)@
                &&& step == (if is_idle(error) {
                    WorkerStep::Continue
                } else {
                    WorkerStep::Finish(Err(error))
                })
            },
        },
{
    match read {
        Ok(Some(notification)) => match queue.send(SessionEvent::Notification(notification)) {
            Ok(()) => WorkerStep::Continue,
            Err(error) => WorkerStep::Finish(Err(error)),
        },
        Ok(None) => WorkerStep::Continue,
        Err(error) => {
            let idle = match &error {
                ClientError::Io(failure) => failure.kind == IoKind::WouldBlock || failure.kind
                    == IoKind::TimedOut,
                _ => false,
            };
            if idle {
                WorkerStep::Continue
            } else {
                WorkerStep::Finish(Err(error))
            }
        },
    }
}

/// The first device, from `from` on, with a path.
pub open spec fn device_with_path(
    devices: Seq<DeviceInfo>,
    path: Seq<char>,
    from: nat,
) -> Option<nat>
    decreases devices.len() - from,
{
    if from >= devices.len() {
        None
    } else if devices[from as int].syspath@ == path {
        Some(from)
    } else {
        device_with_path(devices, path, from + 1)
    }
}

/// The devices that a selector stands for, if it stands for any.
pub open spec fn selection(
    devices: Seq<DeviceInfo>,
    selector: Seq<char>,
    single: bool,
) -> Option<Seq<DeviceInfo>> {
    if selector.len() == 0 {
        if devices.len() == 0 {
            None
        } else if single {
            Some(seq![devices[0]])
        } else {
            Some(devices)
        }
    } else if text::all_digits(selector) {
        let ordinal = text::numeral(selector);
        if 1 <= ordinal <= devices.len() {
            Some(seq![devices[ordinal - 1]])
        } else {
            None
        }
    } else {
        match device_with_path(devices, selector, 0) {
            Some(i) => Some(seq![devices[i as int]]),
            None => None,
        }
    }
}

fn no_match() -> (error: ClientError)
    ensures
        error matches ClientError::Io(failure) && failure.is(
            IoKind::InvalidInput,
            "no daemon device matches the selector"@,
        ),
{
    ClientError::Io(IoFailure::new(IoKind::InvalidInput, "no daemon device matches the selector"))
}

fn only(devices: Vec<DeviceInfo>, index: usize) -> (one: Vec<DeviceInfo>)
    requires
        index < devices@.len(),
    ensures
        one@ == seq![devices@[index as int]],
{
    let mut devices = devices;
    let device = devices.remove(index);
    let mut one: Vec<DeviceInfo> = Vec::new();
    one.push(device);
    assert(one@ =~= seq![device]);
    one
}

/// The devices that a selector stands for: a device path, a positive ordinal, or nothing at all.
pub fn select_devices(devices: Vec<DeviceInfo>, selector: &str, single: bool) -> (result: Result<
    Vec<DeviceInfo>,
    ClientError,
>)
    ensures
        match result {
            Ok(selected) => selection(devices@, selector@, single) == Some(selected@),
            Err(error) => selection(devices@, selector@, single) is None && (
            error matches ClientError::Io(failure) && failure.is(
                IoKind::InvalidInput,
                "no daemon device matches the selector"@,
            )),
        },
{
    if selector.is_empty() {
        if devices.len() == 0 {
            return Err(no_match());
        }
        if single {
            return Ok(only(devices, 0));
        }
        return Ok(devices);
    }
    let chars = text::chars_of(selector);
    assert(chars@.subrange(0, chars@.len() as int) =~= selector@);
    if text::digits_only(&chars, 0, chars.len()) {
        let ordinal = match text::parse_digits(&chars, 0, chars.len()) {
            Some(n) => n,
            None => {
                return Err(no_match());
            },
        };
        if ordinal == 0 || ordinal > devices.len() as u64 {
            return Err(no_match());
        }
        return Ok(only(devices, (ordinal - 1) as usize));
    }
    let mut i: usize = 0;
    while i < devices.len()
        invariant
            i <= devices.len(),
            selector@.len() > 0,
            !text::all_digits(selector@),
            device_with_path(devices@, selector@, 0) == device_with_path(
                devices@,
                selector@,
                i as nat,
            ),
        decreases devices.len() - i,
    {
        if text::same_text(devices[i].syspath.as_str(), selector) {
            return Ok(only(devices, i));
        }
        i = i + 1;
    }
    Err(no_match())
}

/// The events of a queue that are no sensor samples.
pub open spec fn controls(events: Seq<SessionEvent>) -> Seq<SessionEvent>
    decreases events.len(),
{
    if events.len() == 0 {
        Seq::empty()
    } else if sensor_of(events.last()) is None {
        controls(events.drop_last()).push(events.last())
    } else {
        controls(events.drop_last())
    }
}

proof fn lemma_samples_are_no_controls(events: Seq<SessionEvent>, i: int)
    requires
        0 <= i < events.len(),
        sensor_of(events[i]) is Some,
    ensures
        controls(events.remove(i)) == controls(events),
    decreases events.len(),
{
    let rest = events.remove(i);
    if i == events.len() - 1 {
        assert(rest =~= events.drop_last());
    } else {
        lemma_samples_are_no_controls(events.drop_last(), i);
        assert(rest.drop_last() =~= events.drop_last().remove(i));
        assert(rest.last() == events.last());
    }
}

proof fn lemma_first_sample(events: Seq<SessionEvent>, from: nat)
    ensures
        first_sample(events, from) matches Some(i) ==> from <= i < events.len() && sensor_of(
            events[i as int],
        ) is Some,
        first_sample(events, from) is None ==> forall|k: int|
            from <= k < events.len() ==> sensor_of(#[trigger] events[k]) is None,
    decreases events.len() - from,
{
    if from < events.len() && sensor_of(events[from as int]) is None {
        lemma_first_sample(events, from + 1);
    }
}

proof fn lemma_first_sample_of(events: Seq<SessionEvent>, sensor: (Seq<char>, u32), from: nat)
    ensures
        first_sample_of(events, sensor, from) matches Some(i) ==> from <= i < events.len()
            && sensor_of(events[i as int]) == Some(sensor),
    decreases events.len() - from,
{
    if from < events.len() && sensor_of(events[from as int]) != Some(sensor) {
        lemma_first_sample_of(events, sensor, from + 1);
    }
}

proof fn lemma_displaced_is_a_sample(events: Seq<SessionEvent>, event: SessionEvent)
    ensures
        displaced(events, event) matches Some(i) ==> i < events.len() && sensor_of(
            events[i as int],
        ) is Some,
{
    lemma_first_sample(events, 0);
    if let Some(sensor) = sensor_of(event) {
        lemma_first_sample_of(events, sensor, 0);
    }
}

/// Events that are no samples are never lost, repeated or reordered: sending one puts it behind the
/// others or fails, and sending a sample leaves them as they are.
pub proof fn controls_are_never_lost(
    events: Seq<SessionEvent>,
    policy: DeliveryPolicy,
    event: SessionEvent,
)
    ensures
        sensor_of(event) is Some ==> controls(queued_after(events, policy, event)) == controls(
            events,
        ),
        sensor_of(event) is None && delivery(events, policy, event) !is Refused ==> controls(
            queued_after(events, policy, event),
        ) == controls(events).push(event),
        delivery(events, policy, event) is Refused ==> queued_after(events, policy, event)
            == events,
{
    lemma_displaced_is_a_sample(events, event);
    let after = queued_after(events, policy, event);
    match delivery(events, policy, event) {
        Delivery::Queued => {
            assert(after.drop_last() =~= events);
        },
        Delivery::Displacing(i) => {
            lemma_samples_are_no_controls(events, i as int);
            assert(after.drop_last() =~= events.remove(i as int));
        },
        _ => {},
    }
}

/// The queue never holds more events than may wait.
pub proof fn the_queue_is_bounded(
    events: Seq<SessionEvent>,
    policy: DeliveryPolicy,
    event: SessionEvent,
)
    requires
        events.len() <= EVENT_QUEUE,
    ensures
        queued_after(events, policy, event).len() <= EVENT_QUEUE,
{
    lemma_displaced_is_a_sample(events, event);
}

/// Where a sample makes room, the new sample stands last and the order of the others is kept: the
/// queue is the old one with one sample left out and the event behind it.
pub proof fn samples_are_replaced_in_order(
    events: Seq<SessionEvent>,
    event: SessionEvent,
    k: int,
    l: int,
)
    requires
        events.len() == EVENT_QUEUE,
        delivery(events, DeliveryPolicy::LatestSensors, event) is Displacing,
        0 <= k < l < EVENT_QUEUE,
    ensures
        ({
            let after = queued_after(events, DeliveryPolicy::LatestSensors, event);
            &&& after.len() == EVENT_QUEUE
            &&& after.last() == event
            &&& exists|a: int, b: int|
                #![trigger events.push(event)[a], events.push(event)[b]]
                0 <= a < b <= EVENT_QUEUE && after[k] == events.push(event)[a] && after[l]
                    == events.push(event)[b]
        }),
{
    lemma_displaced_is_a_sample(events, event);
    let i = delivery(events, DeliveryPolicy::LatestSensors, event)->Displacing_0 as int;
    let after = queued_after(events, DeliveryPolicy::LatestSensors, event);
    let all = events.push(event);
    let a = if k < i {
        k
    } else {
        k + 1
    };
    let b = if l < i {
        l
    } else {
        l + 1
    };
    assert(after[k] == all[a]);
    assert(after[l] == all[b]);
}

/// A session that counts every event fails rather than drop one, and nothing is coalesced.
pub proof fn strict_sessions_drop_nothing(events: Seq<SessionEvent>, event: SessionEvent)
    ensures
        queued_after(events, DeliveryPolicy::Strict, event) == events.push(event) || (delivery(
            events,
            DeliveryPolicy::Strict,
            event,
        ) is Refused && events.len() >= EVENT_QUEUE),
{
}

} // verus!
