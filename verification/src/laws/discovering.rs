//! Finding devices: the snapshots of what is there, and the turns of the monitor.
use crate::failure::IoFailure;
use crate::platform::{
    self, MonitorDrain, MonitorEvent, MonitorPoll, MonitorStep, RequestOutcome, Snapshot,
    SnapshotStep,
};
use crate::session::TryRecvError;
use vstd::prelude::*;

verus! {

/// A snapshot collects the devices in order, at most one hundred and twenty-eight; the next is an
/// overflow.
pub proof fn snapshots_collect_in_order(
    snapshot: &mut Snapshot,
    path: String,
    step: SnapshotStep,
)
    requires
        call_ensures(Snapshot::collect_snapshot, (snapshot, Ok(Some(path))), step),
    ensures
        old(snapshot)@.len() < 128 ==> step is Continue && final(snapshot)@ == old(snapshot)@.push(
            path,
        ),
        old(snapshot)@.len() == 128 ==> step == SnapshotStep::Overflow(75) && final(snapshot)@
            == old(snapshot)@,
{
}

/// A snapshot is complete when there are no more devices, and fails where looking for them fails.
pub proof fn snapshots_end(
    snapshot: &mut Snapshot,
    next: Result<Option<String>, IoFailure>,
    step: SnapshotStep,
)
    requires
        call_ensures(Snapshot::collect_snapshot, (snapshot, next), step),
    ensures
        next == Ok::<Option<String>, IoFailure>(None) ==> (step matches SnapshotStep::Complete(
            paths,
        ) && paths@ == old(snapshot)@) && final(snapshot)@.len() == 0,
        next matches Err(failure) ==> step == SnapshotStep::Fail(failure),
{
}

/// A request that was sent or is pending already is in order; one to a worker that stopped is not.
pub proof fn requests_need_a_worker(outcome: RequestOutcome, result: Result<(), IoFailure>)
    requires
        call_ensures(platform::request_snapshot, (outcome, ), result),
    ensures
        outcome is Sent || outcome is Full <==> result is Ok,
{
}

/// What the worker sent is taken as it is; nothing yet is nothing; a worker that stopped is an error.
pub proof fn snapshots_are_taken(
    received: Result<Result<Vec<String>, IoFailure>, TryRecvError>,
    snapshot: Option<Result<Vec<String>, IoFailure>>,
)
    requires
        call_ensures(platform::take_snapshot, (received, ), snapshot),
    ensures
        received matches Ok(own) ==> snapshot == Some(own),
        received == Err::<Result<Vec<String>, IoFailure>, TryRecvError>(TryRecvError::Empty)
            ==> snapshot is None,
        received == Err::<Result<Vec<String>, IoFailure>, TryRecvError>(TryRecvError::Disconnected)
            ==> (snapshot matches Some(Err(_))),
{
}

/// The monitor is polled while it is watched and the budget lasts; where the budget ends there may be
/// more, where the events end there is not.
pub proof fn monitors_are_drained(
    drain: &mut MonitorDrain,
    event: MonitorEvent,
    step: MonitorStep,
)
    requires
        call_ensures(MonitorDrain::drain_monitor, (drain, event), step),
    ensures
        event == (MonitorEvent::Begin { watched: false }) || event == MonitorEvent::Polled(
            MonitorPoll::Empty,
        ) ==> step == MonitorStep::Done(Ok(false)),
        event == (MonitorEvent::Begin { watched: true }) ==> step == (if old(drain).budget > 0 {
            MonitorStep::Poll
        } else {
            MonitorStep::Done(Ok(true))
        }),
        event == MonitorEvent::Polled(MonitorPoll::Event) ==> step == (if old(drain).budget > 1 {
            MonitorStep::Poll
        } else {
            MonitorStep::Done(Ok(true))
        }),
        event == MonitorEvent::Polled(MonitorPoll::Event) && old(drain).budget > 0
            ==> final(drain).budget == old(drain).budget - 1,
        event matches MonitorEvent::Polled(MonitorPoll::Failed(failure)) ==> step
            == MonitorStep::Done(Err(failure)),
{
}

} // verus!
