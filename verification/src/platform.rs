//! Discovery of devices: complete snapshots of those that are present, and the worker and monitor
//! that they come from.
use crate::failure::{IoFailure, IoKind};
use crate::session::TryRecvError;
use vstd::prelude::*;

verus! {

/// How many devices the daemon serves.
pub const MAX_DEVICES: usize = 32;

/// Extra candidates allow unavailable devices to coexist with active ones. Overflow is an error,
/// never a truncated snapshot that would count as complete.
pub const MAX_SNAPSHOT_DEVICES: usize = 128;

/// A value is too large.
pub const EOVERFLOW: i32 = 75;

/// What an enumeration leads to.
#[derive(Debug)]
pub enum SnapshotStep {
    /// Go on.
    Continue,
    /// Every device was seen.
    Complete(Vec<String>),
    /// There is no snapshot.
    Fail(IoFailure),
    /// There is no snapshot: the failure is the system's of this number.
    Overflow(i32),
}

/// The devices that an enumeration has seen so far.
pub struct Snapshot {
    paths: Vec<String>,
}

impl View for Snapshot {
    type V = Seq<String>;

    closed spec fn view(&self) -> Seq<String> {
        self.paths@
    }
}

impl Snapshot {
    /// Whether no more devices were seen than a snapshot holds.
    pub open spec fn well_formed(self) -> bool {
        self@.len() <= MAX_SNAPSHOT_DEVICES
    }

    /// An enumeration that has seen nothing.
    pub fn new() -> (snapshot: Snapshot)
        ensures
            snapshot.well_formed(),
            snapshot@ == Seq::<String>::empty(),
    {
        Snapshot { paths: Vec::new() }
    }

    /// Takes the next device of the enumeration, or its end. The snapshot is complete exactly at
    /// the end; one device too many means that there is none.
    pub fn collect_snapshot(&mut self, next: Result<Option<String>, IoFailure>) -> (step:
        SnapshotStep)
        requires
            old(self).well_formed(),
        ensures
            final(self).well_formed(),
            match next {
                Err(failure) => step == SnapshotStep::Fail(failure) && final(self)@ == old(self)@,
                Ok(None) => {
                    &&& step matches SnapshotStep::Complete(paths) && paths@ == old(self)@
                    &&& final(self)@ == Seq::<String>::empty()
                },
                Ok(Some(path)) => if old(self)@.len() == MAX_SNAPSHOT_DEVICES {
                    &&& step == SnapshotStep::Overflow(EOVERFLOW)
                    &&& final(self)@ == old(self)@
                } else {
                    step == SnapshotStep::Continue && final(self)@ == old(self)@.push(path)
                },
            },
    {
        match next {
            Err(failure) => SnapshotStep::Fail(failure),
            Ok(None) => {
                let mut paths: Vec<String> = Vec::new();
                std::mem::swap(&mut paths, &mut self.paths);
                assert(self@ =~= Seq::empty());
                SnapshotStep::Complete(paths)
            },
            Ok(Some(path)) => {
                if self.paths.len() == MAX_SNAPSHOT_DEVICES {
                    return SnapshotStep::Overflow(EOVERFLOW);
                }
                self.paths.push(path);
                SnapshotStep::Continue
            },
        }
    }
}

/// How the request for a snapshot reached the worker.
#[derive(Clone, Copy, Debug, PartialEq, Eq, Structural)]
pub enum RequestOutcome {
    Sent,
    /// A request waits already.
    Full,
    /// The worker has stopped.
    Disconnected,
}

fn worker_stopped() -> (failure: IoFailure)
    ensures
        failure.is(IoKind::Other, "discovery worker stopped"@),
{
    IoFailure::new(IoKind::Other, "discovery worker stopped")
}

/// What a request for a snapshot comes to. One request that waits stands for any number of them.
pub fn request_snapshot(outcome: RequestOutcome) -> (result: Result<(), IoFailure>)
    ensures
        match outcome {
            RequestOutcome::Sent | RequestOutcome::Full => result is Ok,
            RequestOutcome::Disconnected => result matches Err(failure) && failure.is(
                IoKind::Other,
                "discovery worker stopped"@,
            ),
        },
{
    match outcome {
        RequestOutcome::Sent | RequestOutcome::Full => Ok(()),
        RequestOutcome::Disconnected => Err(worker_stopped()),
    }
}

/// The snapshot that the worker has completed, if it has. A worker that has stopped is a failure,
/// not an empty snapshot.
pub fn take_snapshot(
    received: Result<Result<Vec<String>, IoFailure>, TryRecvError>,
) -> (snapshot: Option<Result<Vec<String>, IoFailure>>)
    ensures
        match received {
            Ok(own) => snapshot == Some(own),
            Err(TryRecvError::Empty) => snapshot is None,
            Err(TryRecvError::Disconnected) => snapshot matches Some(Err(failure)) && failure.is(
                IoKind::Other,
                "discovery worker stopped"@,
            ),
        },
{
    match received {
        Ok(own) => Some(own),
        Err(TryRecvError::Empty) => None,
        Err(TryRecvError::Disconnected) => Some(Err(worker_stopped())),
    }
}

/// What one look at the monitor gave.
#[derive(Debug)]
pub enum MonitorPoll {
    Event,
    Empty,
    Failed(IoFailure),
}

/// What has happened while the monitor is drained.
#[derive(Debug)]
pub enum MonitorEvent {
    /// Nothing yet. Tells whether there is a monitor.
    Begin { watched: bool },
    Polled(MonitorPoll),
}

/// What is next while the monitor is drained.
#[derive(Debug)]
pub enum MonitorStep {
    /// Look at the monitor.
    Poll,
    /// The turn is over. Tells whether more may wait.
    Done(Result<bool, IoFailure>),
}

/// Draining the monitor of devices within a budget.
#[derive(Clone, Copy, Debug, PartialEq, Eq, Structural)]
pub struct MonitorDrain {
    pub budget: usize,
}

impl MonitorDrain {
    /// The step with a budget that is left: more may wait when it is spent.
    pub open spec fn with_budget(budget: int) -> MonitorStep {
        if budget <= 0 {
            MonitorStep::Done(Ok(true))
        } else {
            MonitorStep::Poll
        }
    }

    /// Takes what has happened, and tells what is next. Nothing more waits when the monitor was
    /// empty or there is none; more may wait when the budget is spent.
    pub fn drain_monitor(&mut self, event: MonitorEvent) -> (step: MonitorStep)
        ensures
            final(self).budget == (if event == MonitorEvent::Polled(MonitorPoll::Event)
                && old(self).budget > 0 {
                old(self).budget - 1
            } else {
                old(self).budget as int
            }),
            step == (match event {
                MonitorEvent::Begin { watched: false } => MonitorStep::Done(Ok(false)),
                MonitorEvent::Begin { watched: true } => MonitorDrain::with_budget(
                    old(self).budget as int,
                ),
                MonitorEvent::Polled(MonitorPoll::Event) => MonitorDrain::with_budget(
                    old(self).budget - 1,
                ),
                MonitorEvent::Polled(MonitorPoll::Empty) => MonitorStep::Done(Ok(false)),
                MonitorEvent::Polled(MonitorPoll::Failed(failure)) => MonitorStep::Done(
                    Err(failure),
                ),
            }),
    {
        match event {
            MonitorEvent::Begin { watched } => {
                if !watched {
                    return MonitorStep::Done(Ok(false));
                }
            },
            MonitorEvent::Polled(MonitorPoll::Event) => {
                if self.budget > 0 {
                    self.budget = self.budget - 1;
                }
            },
            MonitorEvent::Polled(MonitorPoll::Empty) => {
                return MonitorStep::Done(Ok(false));
            },
            MonitorEvent::Polled(MonitorPoll::Failed(failure)) => {
                return MonitorStep::Done(Err(failure));
            },
        }
        if self.budget == 0 {
            MonitorStep::Done(Ok(true))
        } else {
            MonitorStep::Poll
        }
    }
}

} // verus!
