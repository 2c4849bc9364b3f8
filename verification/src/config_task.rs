//! Operations on the configuration run on a worker, outside the form and the window.
use crate::config_text;
use crate::failure::IoFailure;
use crate::model;
use crate::model::{
    Completion, ConfigFailure, ConfigFailureStage, ConfigValue, Transaction, TransactionKind,
};
use crate::process;
use crate::process::ProcessResult;
use crate::session;
use crate::session::TryRecvError;
use crate::text;
use std::collections::VecDeque;
use vstd::prelude::*;
use vstd::string::*;

verus! {

/// How many reports may wait for the consumer before output is left out.
pub const EVENT_QUEUE_CAPACITY: usize = 64;

/// What a worker reports.
#[derive(Debug)]
pub enum ConfigEvent {
    Command { program: String, args: Vec<String> },
    Stdout(Vec<u8>),
    Stderr(Vec<u8>),
    OmittedOutput(usize),
    Finished(Completion),
}

/// How far a worker has come.
#[derive(Clone, Copy, Debug, PartialEq, Eq, Structural)]
pub enum TaskState {
    /// It has not begun.
    Created,
    /// The file is being written next to its target.
    Preparing,
    /// The daemon checks the file, or tells what it reads.
    Running,
    /// The file is being moved to its target.
    Persisting,
    /// It has ended.
    Ended,
}

/// What a worker does next.
#[derive(Debug)]
pub enum TaskStep {
    /// Write the bytes of the operation to a temporary file next to the target.
    Prepare,
    /// Run the daemon with these arguments.
    Run(Vec<String>),
    /// Wait for the daemon.
    Wait,
    /// Move the temporary file to the target.
    Persist,
    /// Nothing.
    Stop,
}

/// An operation on its worker, and what it has reported.
pub struct ConfigTask {
    pub transaction: Transaction,
    pub program: String,
    pub default_path: Option<String>,
    pub state: TaskState,
    /// The reports that the consumer has not received, oldest first.
    pub events: VecDeque<ConfigEvent>,
    /// How many bytes of output were left out.
    pub omitted: usize,
    /// How the operation ended, until the consumer knows.
    pub completion: Option<Completion>,
    /// Whether the worker was asked to end.
    pub cancelled: bool,
    /// Whether the consumer is gone.
    pub closed: bool,
}

/// Whether a result is a failure at this stage for this reason.
pub open spec fn fails(
    result: Result<ConfigValue, ConfigFailure>,
    stage: ConfigFailureStage,
    message: Seq<char>,
) -> bool {
    result matches Err(failure) && failure.stage == stage && failure.message@ == message
}

/// Whether a result is what bytes that the daemon wrote give.
pub open spec fn loads(result: Result<ConfigValue, ConfigFailure>, bytes: Seq<u8>) -> bool {
    match config_text::parsed(model::DAEMON_OUTPUT@, bytes) {
        Ok(config) => result matches Ok(ConfigValue::Loaded(value)) && value@ == config,
        Err(error) => fails(result, ConfigFailureStage::Parsing, error.text()),
    }
}

/// Why the daemon's run failed.
pub open spec fn run_failure(result: ProcessResult) -> Seq<char> {
    match result.error {
        Some(error) => error@,
        None => "Daemon command failed (exit "@ + process::exit_text(result.code) + "): "@
            + text::trimmed(text::lossy(result.stderr@)),
    }
}

fn failure(stage: ConfigFailureStage, message: &str) -> (failure: ConfigFailure)
    ensures
        failure.stage == stage,
        failure.message@ == message@,
{
    ConfigFailure { stage, message: message.to_owned() }
}

fn describe_run_failure(result: &ProcessResult) -> (message: String)
    ensures
        message@ == run_failure(*result),
{
    match &result.error {
        Some(error) => error.clone(),
        None => {
            let mut message = "Daemon command failed (exit ".to_owned();
            process::append_exit(&mut message, result.code);
            message.append("): ");
            let stderr = text::decode_lossy(result.stderr.as_slice());
            message.append(text::trim(stderr.as_str()));
            message
        },
    }
}

/// The stage at which the daemon's run fails.
pub open spec fn run_stage(kind: TransactionKind) -> ConfigFailureStage {
    match kind {
        TransactionKind::Load => ConfigFailureStage::Load,
        TransactionKind::Save => ConfigFailureStage::Validation,
    }
}

/// The arguments of the daemon's run: the configuration that it reads, or the check of a file.
pub open spec fn run_args(
    transaction: Transaction,
    default_path: Option<Seq<char>>,
    temporary: Seq<char>,
) -> Seq<Seq<char>> {
    match transaction.kind {
        TransactionKind::Load => if transaction.target@.len() == 0 || default_path == Some(
            transaction.target@,
        ) {
            seq!["--dump-config"@]
        } else {
            seq!["--dump-config"@, "--config"@, transaction.target@]
        },
        TransactionKind::Save => seq!["--check-config"@, "--config"@, temporary],
    }
}

/// What the end of the daemon's run means.
pub enum Verdict {
    /// The operation fails.
    Fail { stage: ConfigFailureStage, message: Seq<char> },
    /// The file is good, and is moved to its target.
    Persist,
    /// The daemon wrote these bytes.
    Load(Seq<u8>),
}

/// The text of an operation that was asked to end.
pub open spec fn cancelled_text() -> Seq<char> {
    "Configuration operation cancelled"@
}

impl ConfigTask {
    /// The bounds that always hold.
    pub open spec fn well_formed(self) -> bool {
        &&& self.events@.len() <= EVENT_QUEUE_CAPACITY
        &&& self.state is Created ==> self.events@.len() == 0
        &&& self.state is Preparing ==> self.events@.len() == 0
        &&& self.completion is Some ==> self.state is Ended
    }

    /// The reports that the consumer has not received, oldest first. How the operation ended comes
    /// last, after how much output was left out.
    pub open spec fn reports(self) -> Seq<ConfigEvent> {
        if self.state !is Ended {
            self.events@
        } else {
            let output = if self.omitted > 0 {
                self.events@.push(ConfigEvent::OmittedOutput(self.omitted))
            } else {
                self.events@
            };
            match self.completion {
                Some(completion) => output.push(ConfigEvent::Finished(completion)),
                None => output,
            }
        }
    }

    /// What the end of the daemon's run means.
    pub open spec fn verdict(self, result: ProcessResult) -> Verdict {
        if !result.success {
            Verdict::Fail { stage: run_stage(self.transaction.kind), message: run_failure(result) }
        } else if self.cancelled {
            Verdict::Fail { stage: ConfigFailureStage::Cancelled, message: cancelled_text() }
        } else if self.transaction.kind is Save {
            Verdict::Persist
        } else {
            Verdict::Load(result.stdout@)
        }
    }

    /// Whether a task is another that has ended with nothing more reported than how.
    pub open spec fn ended_as(self, before: ConfigTask) -> bool {
        &&& self == (ConfigTask {
            state: TaskState::Ended,
            completion: self.completion,
            ..before
        })
        &&& self.completion matches Some(c) && c.transaction == before.transaction.id
    }

    /// Whether a task is another that has failed.
    pub open spec fn failed_as(
        self,
        before: ConfigTask,
        stage: ConfigFailureStage,
        message: Seq<char>,
    ) -> bool {
        self.ended_as(before) && fails(self.completion->0.result, stage, message)
    }

    /// Whether a task is another that has announced the daemon's run.
    pub open spec fn announced_as(self, before: ConfigTask, args: Seq<Seq<char>>) -> bool {
        &&& self == (ConfigTask { state: TaskState::Running, events: self.events, ..before })
        &&& self.events@.len() == 1
        &&& self.events@[0] matches ConfigEvent::Command { program, args: own } && program@
            == before.program@ && process::argument_texts(own@) == args
    }

    /// The task of an operation. Its caller does the outside work that the task asks for.
    pub fn spawn(transaction: Transaction, program: String, default_path: Option<String>) -> (task:
        ConfigTask)
        ensures
            task.well_formed(),
            task.transaction == transaction,
            task.program == program,
            task.default_path == default_path,
            task.state is Created,
            task.events@ == Seq::<ConfigEvent>::empty(),
            task.omitted == 0,
            task.completion is None,
            !task.cancelled,
            !task.closed,
    {
        ConfigTask {
            transaction,
            program,
            default_path,
            state: TaskState::Created,
            events: VecDeque::new(),
            omitted: 0,
            completion: None,
            cancelled: false,
            closed: false,
        }
    }

    /// Receives the oldest report.
    pub fn try_recv(&mut self) -> (result: Result<ConfigEvent, TryRecvError>)
        requires
            old(self).well_formed(),
        ensures
            final(self).well_formed(),
            *final(self) == (ConfigTask {
                events: final(self).events,
                omitted: final(self).omitted,
                completion: final(self).completion,
                ..*old(self)
            }),
            old(self).state !is Ended
                ==> final(self).omitted == old(self).omitted
                    && final(self).completion == old(self).completion,
            if old(self).reports().len() > 0 {
                &&& result == Ok::<ConfigEvent, TryRecvError>(old(self).reports()[0])
                &&& final(self).reports() == old(self).reports().subrange(
                    1,
                    old(self).reports().len() as int,
                )
            } else {
                &&& result == Err::<ConfigEvent, TryRecvError>(
                    if old(self).state is Ended {
                        TryRecvError::Disconnected
                    } else {
                        TryRecvError::Empty
                    },
                )
                &&& *final(self) == *old(self)
            },
    {
        let ghost before = self.reports();
        if self.events.len() > 0 {
            match self.events.pop_front() {
                Some(event) => {
                    assert(self.reports() =~= before.subrange(1, before.len() as int));
                    return Ok(event);
                },
                None => {
                    return Err(TryRecvError::Empty);
                },
            }
        }
        if self.state != TaskState::Ended {
            return Err(TryRecvError::Empty);
        }
        if self.omitted > 0 {
            let omitted = self.omitted;
            self.omitted = 0;
            assert(self.reports() =~= before.subrange(1, before.len() as int));
            return Ok(ConfigEvent::OmittedOutput(omitted));
        }
        match self.completion.take() {
            Some(completion) => {
                assert(self.reports() =~= before.subrange(1, before.len() as int));
                Ok(ConfigEvent::Finished(completion))
            },
            None => Err(TryRecvError::Disconnected),
        }
    }

    /// Asks the worker to end: its consumer is gone.
    pub fn close(&mut self)
        requires
            old(self).well_formed(),
        ensures
            final(self).well_formed(),
            *final(self) == (ConfigTask { cancelled: true, closed: true, ..*old(self) }),
    {
        self.cancelled = true;
        self.closed = true;
    }

    fn conclude(&mut self, result: Result<ConfigValue, ConfigFailure>) -> (step: TaskStep)
        requires
            old(self).well_formed(),
        ensures
            final(self).well_formed(),
            step is Stop,
            final(self).ended_as(*old(self)),
            final(self).completion->0.result == result,
    {
        self.completion = Some(Completion::new(&self.transaction, result));
        self.state = TaskState::Ended;
        TaskStep::Stop
    }

    fn check_cancelled(&self) -> (result: Result<(), ConfigFailure>)
        ensures
            match result {
                Ok(_) => !self.cancelled,
                Err(f) => self.cancelled && f.stage is Cancelled && f.message@ == cancelled_text(),
            },
    {
        if self.cancelled {
            Err(failure(ConfigFailureStage::Cancelled, "Configuration operation cancelled"))
        } else {
            Ok(())
        }
    }

    fn announce(&mut self, args: Vec<String>) -> (step: TaskStep)
        requires
            old(self).well_formed(),
            old(self).events@.len() == 0,
            old(self).completion is None,
        ensures
            final(self).well_formed(),
            final(self).announced_as(*old(self), process::argument_texts(args@)),
            step matches TaskStep::Run(own) && process::argument_texts(own@)
                == process::argument_texts(args@),
    {
        let mut shown: Vec<String> = Vec::new();
        let mut i: usize = 0;
        while i < args.len()
            invariant
                i <= args.len(),
                shown@.len() == i,
                forall|k: int| 0 <= k < i ==> (#[trigger] shown@[k])@ == args@[k]@,
            decreases args.len() - i,
        {
            shown.push(args[i].clone());
            i = i + 1;
        }
        assert(process::argument_texts(shown@) =~= process::argument_texts(args@));
        self.events.push_back(ConfigEvent::Command { program: self.program.clone(), args: shown });
        self.state = TaskState::Running;
        TaskStep::Run(args)
    }

    /// Begins the operation: a load runs the daemon, and a save first writes its bytes.
    pub fn begin(&mut self) -> (step: TaskStep)
        requires
            old(self).well_formed(),
            old(self).state is Created,
        ensures
            final(self).well_formed(),
            if old(self).cancelled {
                &&& step is Stop
                &&& final(self).failed_as(
                    *old(self),
                    ConfigFailureStage::Cancelled,
                    cancelled_text(),
                )
            } else if old(self).transaction.kind is Save {
                &&& step is Prepare
                &&& *final(self) == (ConfigTask { state: TaskState::Preparing, ..*old(self) })
            } else {
                let args = run_args(
                    old(self).transaction,
                    session::optional_string(old(self).default_path),
                    Seq::empty(),
                );
                &&& step matches TaskStep::Run(own) && process::argument_texts(own@) == args
                &&& final(self).announced_as(*old(self), args)
            },
    {
        if let Err(failure) = self.check_cancelled() {
            return self.conclude(Err(failure));
        }
        match self.transaction.kind {
            TransactionKind::Save => {
                self.state = TaskState::Preparing;
                TaskStep::Prepare
            },
            TransactionKind::Load => {
                let mut args: Vec<String> = Vec::new();
                args.push("--dump-config".to_owned());
                assert(process::argument_texts(args@) =~= seq!["--dump-config"@]);
                let default_path = match &self.default_path {
                    Some(path) => Some(path.as_str()),
                    None => None,
                };
                let args = process::configured_args(
                    self.transaction.target.as_str(),
                    default_path,
                    args,
                );
                assert(seq!["--dump-config"@].push("--config"@).push(self.transaction.target@)
                    =~= seq!["--dump-config"@, "--config"@, self.transaction.target@]);
                self.announce(args)
            },
        }
    }

    /// Goes on after the bytes were written to the temporary file at the path that is given, or
    /// could not be.
    pub fn prepared(&mut self, result: Result<String, IoFailure>) -> (step: TaskStep)
        requires
            old(self).well_formed(),
            old(self).state is Preparing,
            old(self).transaction.kind is Save,
        ensures
            final(self).well_formed(),
            match result {
                Err(error) => {
                    &&& step is Stop
                    &&& final(self).failed_as(
                        *old(self),
                        ConfigFailureStage::Preparation,
                        error.message@,
                    )
                },
                Ok(temporary) => if old(self).cancelled {
                    &&& step is Stop
                    &&& final(self).failed_as(
                        *old(self),
                        ConfigFailureStage::Cancelled,
                        cancelled_text(),
                    )
                } else {
                    let args = run_args(old(self).transaction, None, temporary@);
                    &&& step matches TaskStep::Run(own) && process::argument_texts(own@) == args
                    &&& final(self).announced_as(*old(self), args)
                },
            },
    {
        let temporary = match result {
            Ok(temporary) => temporary,
            Err(error) => {
                let f = failure(ConfigFailureStage::Preparation, error.message.as_str());
                return self.conclude(Err(f));
            },
        };
        if let Err(failure) = self.check_cancelled() {
            return self.conclude(Err(failure));
        }
        let mut args: Vec<String> = Vec::new();
        args.push("--check-config".to_owned());
        args.push("--config".to_owned());
        args.push(temporary);
        assert(process::argument_texts(args@) =~= seq![
            "--check-config"@,
            "--config"@,
            temporary@,
        ]);
        self.announce(args)
    }

    /// Goes on before each wait for the daemon.
    pub fn waiting(&mut self) -> (step: TaskStep)
        requires
            old(self).well_formed(),
            old(self).state is Running,
        ensures
            final(self).well_formed(),
            if old(self).cancelled {
                &&& step is Stop
                &&& final(self).failed_as(
                    *old(self),
                    ConfigFailureStage::Cancelled,
                    cancelled_text(),
                )
            } else {
                step is Wait && *final(self) == *old(self)
            },
    {
        match self.check_cancelled() {
            Err(failure) => self.conclude(Err(failure)),
            Ok(()) => TaskStep::Wait,
        }
    }

    /// Reports output of the daemon. A consumer that falls behind learns how much was left out; it
    /// never holds the worker up.
    pub fn forward_output(&mut self, event: ConfigEvent, bytes: usize) -> (step: TaskStep)
        requires
            old(self).well_formed(),
            old(self).state is Running,
        ensures
            final(self).well_formed(),
            if old(self).closed {
                &&& step is Stop
                &&& final(self).failed_as(
                    *old(self),
                    ConfigFailureStage::Cancelled,
                    "Configuration consumer closed"@,
                )
            } else if old(self).events@.len() == EVENT_QUEUE_CAPACITY {
                &&& step is Wait
                &&& *final(self) == (ConfigTask {
                    omitted: old(self).omitted.saturating_add(bytes),
                    ..*old(self)
                })
            } else {
                &&& step is Wait
                &&& *final(self) == (ConfigTask { events: final(self).events, ..*old(self) })
                &&& final(self).events@ == old(self).events@.push(event)
            },
    {
        if self.closed {
            let f = failure(ConfigFailureStage::Cancelled, "Configuration consumer closed");
            return self.conclude(Err(f));
        }
        if self.events.len() >= EVENT_QUEUE_CAPACITY {
            self.omitted = self.omitted.saturating_add(bytes);
        } else {
            self.events.push_back(event);
        }
        TaskStep::Wait
    }

    /// Goes on after the daemon ended.
    pub fn run_process(&mut self, result: ProcessResult) -> (step: TaskStep)
        requires
            old(self).well_formed(),
            old(self).state is Running,
        ensures
            final(self).well_formed(),
            match old(self).verdict(result) {
                Verdict::Fail { stage, message } => {
                    &&& step is Stop
                    &&& final(self).failed_as(*old(self), stage, message)
                },
                Verdict::Persist => {
                    &&& step is Persist
                    &&& *final(self) == (ConfigTask { state: TaskState::Persisting, ..*old(self) })
                },
                Verdict::Load(bytes) => {
                    &&& step is Stop
                    &&& final(self).ended_as(*old(self))
                    &&& loads(final(self).completion->0.result, bytes)
                },
            },
    {
        if !result.success {
            let message = describe_run_failure(&result);
            let stage = match self.transaction.kind {
                TransactionKind::Load => ConfigFailureStage::Load,
                TransactionKind::Save => ConfigFailureStage::Validation,
            };
            return self.conclude(Err(ConfigFailure { stage, message }));
        }
        if let Err(failure) = self.check_cancelled() {
            return self.conclude(Err(failure));
        }
        match self.transaction.kind {
            TransactionKind::Save => {
                self.state = TaskState::Persisting;
                TaskStep::Persist
            },
            TransactionKind::Load => {
                let value = match model::parse_config_bytes(result.stdout.as_slice()) {
                    Ok(config) => Ok(ConfigValue::Loaded(config)),
                    Err(error) => Err(
                        ConfigFailure {
                            stage: ConfigFailureStage::Parsing,
                            message: error.describe(),
                        },
                    ),
                };
                self.conclude(value)
            },
        }
    }

    /// Goes on after the daemon's runner went away.
    pub fn lost(&mut self) -> (step: TaskStep)
        requires
            old(self).well_formed(),
            old(self).state is Running,
        ensures
            final(self).well_formed(),
            step is Stop,
            final(self).failed_as(
                *old(self),
                ConfigFailureStage::Worker,
                "Configuration subprocess worker disconnected"@,
            ),
    {
        let f = failure(
            ConfigFailureStage::Worker,
            "Configuration subprocess worker disconnected",
        );
        self.conclude(Err(f))
    }

    /// Ends the operation after the temporary file was moved to the target, or could not be.
    pub fn persisted(&mut self, result: Result<(), IoFailure>) -> (step: TaskStep)
        requires
            old(self).well_formed(),
            old(self).state is Persisting,
        ensures
            final(self).well_formed(),
            step is Stop,
            match result {
                Ok(_) => {
                    &&& final(self).ended_as(*old(self))
                    &&& final(self).completion->0.result matches Ok(ConfigValue::Saved)
                },
                Err(error) => final(self).failed_as(
                    *old(self),
                    ConfigFailureStage::Persistence,
                    error.message@,
                ),
            },
    {
        match result {
            Ok(_) => self.conclude(Ok(ConfigValue::Saved)),
            Err(error) => {
                let f = failure(ConfigFailureStage::Persistence, error.message.as_str());
                self.conclude(Err(f))
            },
        }
    }
}

/// Only a file that the daemon accepted is moved to its target, and only while the operation is
/// wanted.
pub proof fn only_validated_files_are_persisted(task: ConfigTask, result: ProcessResult)
    ensures
        task.verdict(result) is Persist <==> result.success && !task.cancelled
            && task.transaction.kind is Save,
{
}

/// A load never changes the file, and a save never changes the form.
pub proof fn operations_keep_to_their_side(task: ConfigTask, result: ProcessResult)
    ensures
        task.transaction.kind is Load ==> task.verdict(result) !is Persist,
        task.transaction.kind is Save ==> task.verdict(result) !is Load,
{
}

} // verus!
