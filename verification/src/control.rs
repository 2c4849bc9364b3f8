//! The control center: what its window does with the form, the service, commands and captures.
use crate::config::{Config, Profile};
use crate::config_task::{ConfigEvent, ConfigTask};
use crate::config_text;
use crate::live::{Capture, Query, QueryResult, QueryView};
use crate::log;
use crate::model::{
    ApplyCompletion, Completion, ConfigFailure, ConfigFailureStage, ConfigModel, ConfigValue,
    Transaction, TransactionKind,
};
use crate::process;
use crate::process::{End, ProcessResult, ProcessTask, ServiceAction};
use crate::session;
use crate::session::TryRecvError;
use crate::text;
use crate::trace::TraceFilter;
use crate::validation;
use crate::validation::{
    CalibrationOwnership, CalibrationResult, CaptureResult, CaptureTask, ValidationKind,
    ValidationTask,
};
use vstd::prelude::*;
use vstd::string::*;

verus! {

/// How many reports of a configuration worker one frame takes at most.
pub const MAX_REPORTS_PER_FRAME: usize = 64;

/// The pages of the window.
#[derive(Clone, Copy, Debug, PartialEq, Eq, Structural, Hash)]
pub enum Tab {
    Overview,
    Configuration,
    Validation,
}

/// The sections of the configuration page.
#[derive(Clone, Copy, Debug, PartialEq, Eq, Structural, Hash)]
pub enum ConfigSection {
    Pointer,
    Motion,
    Bindings,
    Rules,
}

impl ConfigSection {
    /// The title of a section.
    pub open spec fn title(self) -> Seq<char> {
        match self {
            ConfigSection::Pointer => "Profile & pointer"@,
            ConfigSection::Motion => "Motion aiming"@,
            ConfigSection::Bindings => "Button bindings"@,
            ConfigSection::Rules => "Device rules"@,
        }
    }

    /// The title of a section.
    pub fn label(self) -> (label: &'static str)
        ensures
            label@ == self.title(),
    {
        match self {
            ConfigSection::Pointer => "Profile & pointer",
            ConfigSection::Motion => "Motion aiming",
            ConfigSection::Bindings => "Button bindings",
            ConfigSection::Rules => "Device rules",
        }
    }
}

/// An operation on the configuration that is under way.
pub struct PendingConfig {
    pub worker: ConfigTask,
    pub restart_after_save: bool,
}

/// The action on the service that waits for the one that is under way.
#[derive(Clone, Copy, Debug, PartialEq, Eq, Structural)]
pub struct PendingServiceActions {
    pub pending: Option<ServiceAction>,
}

impl PendingServiceActions {
    /// Asks for a restart: it runs at once, or after the action that is under way.
    pub fn request_restart(&mut self, service_active: bool) -> (now: Option<ServiceAction>)
        ensures
            now == (if service_active {
                None
            } else {
                Some(ServiceAction::Restart)
            }),
            final(self).pending == (if service_active {
                Some(ServiceAction::Restart)
            } else {
                None
            }),
    {
        if service_active {
            self.pending = Some(ServiceAction::Restart);
            None
        } else {
            self.pending = None;
            Some(ServiceAction::Restart)
        }
    }

    /// The action that runs after the one that ended.
    pub fn after_completion(&mut self) -> (next: Option<ServiceAction>)
        ensures
            next == old(self).pending,
            final(self).pending is None,
    {
        self.pending.take()
    }
}

/// The state of the control center.
pub struct ControlCenter {
    pub model: ConfigModel,
    pub config_task: Option<PendingConfig>,
    pub command_task: Option<ProcessTask>,
    pub service_task: Option<(ServiceAction, ProcessTask)>,
    pub pending_service_actions: PendingServiceActions,
    pub service_program: String,
    pub validation_task: Option<ValidationTask>,
    pub tab: Tab,
    pub config_section: ConfigSection,
    pub output_open: bool,
    pub reload_confirmation: bool,
    pub close_approved: bool,
    pub service_status: String,
    pub daemon_status: String,
    pub status: String,
    pub close_confirmation: bool,
    pub trace_device: String,
    pub trace_filter: String,
    pub trace_profile: Option<Profile>,
    pub direct_capture: bool,
    pub ipc_query: Option<Query>,
}

/// Whether a form is another with a line more in its log.
pub open spec fn logs(after: ConfigModel, before: ConfigModel, line: Seq<char>) -> bool {
    &&& after == (ConfigModel { output: after.output, ..before })
    &&& after.output@ == log::recent(log::with_text(before.output@, line))
}

/// The log after a line.
pub open spec fn with_line(blocks: Seq<Seq<char>>, line: Seq<char>) -> Seq<Seq<char>> {
    log::recent(log::with_text(blocks, line))
}

/// The log line of output that was left out.
pub open spec fn omitted_line(bytes: usize) -> Seq<char> {
    "\nConfiguration log omitted "@ + text::decimal(bytes as nat)
        + " bytes while the UI was busy; validation results were retained.\n"@
}

/// What a report of a configuration worker adds to the log.
pub open spec fn report_line(event: ConfigEvent) -> Seq<char> {
    match event {
        ConfigEvent::Command { program, args } => process::command_line(
            program@,
            process::argument_texts(args@),
        ),
        ConfigEvent::Stdout(bytes) | ConfigEvent::Stderr(bytes) => text::lossy(bytes@),
        ConfigEvent::OmittedOutput(bytes) => omitted_line(bytes),
        ConfigEvent::Finished(_) => Seq::empty(),
    }
}

/// The log after at most `n` reports, up to the end of the operation.
pub open spec fn report_log(
    blocks: Seq<Seq<char>>,
    reports: Seq<ConfigEvent>,
    n: nat,
) -> Seq<Seq<char>>
    decreases n,
{
    if n == 0 || reports.len() == 0 || reports[0] is Finished {
        blocks
    } else {
        report_log(
            with_line(blocks, report_line(reports[0])),
            reports.subrange(1, reports.len() as int),
            (n - 1) as nat,
        )
    }
}

/// How an operation ended, as far as its worker has reported.
pub enum ReportEnd {
    /// It has not.
    Open,
    /// Its worker said how.
    Ended(Completion),
    /// Its worker went away.
    Lost,
}

/// How an operation ended, as far as its worker has said so within `n` reports.
pub open spec fn report_end(reports: Seq<ConfigEvent>, gone: bool, n: nat) -> ReportEnd
    decreases n,
{
    if n == 0 {
        ReportEnd::Open
    } else if reports.len() == 0 {
        if gone {
            ReportEnd::Lost
        } else {
            ReportEnd::Open
        }
    } else {
        match reports[0] {
            ConfigEvent::Finished(completion) => ReportEnd::Ended(completion),
            _ => report_end(
                reports.subrange(1, reports.len() as int),
                gone,
                (n - 1) as nat,
            ),
        }
    }
}

/// What is said of an operation that ended.
pub open spec fn config_status(
    outcome: ApplyCompletion,
    kind: TransactionKind,
    result: Result<ConfigValue, ConfigFailure>,
) -> Seq<char> {
    match outcome {
        ApplyCompletion::Applied => match kind {
            TransactionKind::Load => "Configuration loaded"@,
            TransactionKind::Save => "Configuration saved"@,
        },
        ApplyCompletion::Stale => match kind {
            TransactionKind::Load => "Load discarded because the form or target changed"@,
            TransactionKind::Save =>
                "Captured configuration saved; newer edits or target remain unchanged"@,
        },
        ApplyCompletion::Failed => match result {
            Err(failure) => "Configuration operation failed: "@ + failure.message@,
            Ok(_) => "Configuration operation returned an unexpected result"@,
        },
    }
}

/// The log after the reason of a failure.
pub open spec fn failure_log(
    blocks: Seq<Seq<char>>,
    result: Result<ConfigValue, ConfigFailure>,
) -> Seq<Seq<char>> {
    match result {
        Err(failure) => with_line(blocks, "Configuration error: "@ + failure.message@ + "\n"@),
        Ok(_) => blocks,
    }
}

/// The log after the reason that a command gave none of its own.
pub open spec fn error_log(blocks: Seq<Seq<char>>, end: End) -> Seq<Seq<char>> {
    match end.error {
        Some(error) => with_line(blocks, "process error: "@ + error + "\n"@),
        None => blocks,
    }
}

/// What is said of a command that ended.
pub open spec fn command_status(end: End) -> Seq<char> {
    if end.success {
        "Command succeeded"@
    } else {
        "Command failed (exit "@ + (match end.code {
            Some(code) => text::signed_decimal(code as int),
            None => "unknown"@,
        }) + ")"@
    }
}

/// The log line of output that was left out.
fn format_omitted(bytes: usize) -> (line: String)
    ensures
        line@ == omitted_line(bytes),
{
    let mut line = "\nConfiguration log omitted ".to_owned();
    text::append_decimal(&mut line, bytes as u64);
    line.append(" bytes while the UI was busy; validation results were retained.\n");
    assert(line@ =~= omitted_line(bytes));
    line
}

fn show_report(model: &mut ConfigModel, event: ConfigEvent) -> (completion: Option<Completion>)
    requires
        old(model).well_formed(),
    ensures
        final(model).well_formed(),
        match event {
            ConfigEvent::Finished(end) => completion == Some(end) && *final(model) == *old(model),
            _ => completion is None && logs(*final(model), *old(model), report_line(event)),
        },
{
    let line = match event {
        ConfigEvent::Command { program, args } => process::format_command(program.as_str(), &args),
        ConfigEvent::Stdout(bytes) => text::decode_lossy(bytes.as_slice()),
        ConfigEvent::Stderr(bytes) => text::decode_lossy(bytes.as_slice()),
        ConfigEvent::OmittedOutput(bytes) => format_omitted(bytes),
        ConfigEvent::Finished(completion) => {
            return Some(completion);
        },
    };
    model.append_output(line.as_str());
    None
}

/// Whether a task is another whose reports were received, as many as one frame receives.
pub open spec fn received(after: ConfigTask, before: ConfigTask) -> bool {
    &&& after == (ConfigTask {
        events: after.events,
        omitted: after.omitted,
        completion: after.completion,
        ..before
    })
    &&& after.reports() == (if before.reports().len() <= MAX_REPORTS_PER_FRAME {
        Seq::empty()
    } else {
        before.reports().subrange(MAX_REPORTS_PER_FRAME as int, before.reports().len() as int)
    })
}

fn drain_reports(worker: &mut ConfigTask, model: &mut ConfigModel) -> (completion: Option<
    Completion,
>)
    requires
        old(model).well_formed(),
        old(worker).well_formed(),
    ensures
        final(model).well_formed(),
        final(worker).well_formed(),
        *final(model) == (ConfigModel { output: final(model).output, ..*old(model) }),
        final(model).output@ == report_log(
            old(model).output@,
            old(worker).reports(),
            MAX_REPORTS_PER_FRAME as nat,
        ),
        final(worker).transaction == old(worker).transaction,
        match report_end(
            old(worker).reports(),
            old(worker).state is Ended,
            MAX_REPORTS_PER_FRAME as nat,
        ) {
            ReportEnd::Open => completion is None && received(*final(worker), *old(worker)),
            ReportEnd::Ended(end) => completion == Some(end),
            ReportEnd::Lost => completion matches Some(c) && is_loss(
                c,
                old(worker).transaction,
            ),
        },
{
    let mut left: usize = MAX_REPORTS_PER_FRAME;
    while left > 0
        invariant
            model.well_formed(),
            worker.well_formed(),
            *model == (ConfigModel { output: model.output, ..*old(model) }),
            report_log(model.output@, worker.reports(), left as nat) == report_log(
                old(model).output@,
                old(worker).reports(),
                MAX_REPORTS_PER_FRAME as nat,
            ),
            report_end(worker.reports(), worker.state is Ended, left as nat) == report_end(
                old(worker).reports(),
                old(worker).state is Ended,
                MAX_REPORTS_PER_FRAME as nat,
            ),
            *worker == (ConfigTask {
                events: worker.events,
                omitted: worker.omitted,
                completion: worker.completion,
                ..*old(worker)
            }),
            left <= MAX_REPORTS_PER_FRAME,
            MAX_REPORTS_PER_FRAME - left <= old(worker).reports().len(),
            worker.reports() == old(worker).reports().subrange(
                MAX_REPORTS_PER_FRAME - left,
                old(worker).reports().len() as int,
            ),
        decreases left,
    {
        match worker.try_recv() {
            Ok(event) => {
                if let Some(completion) = show_report(model, event) {
                    return Some(completion);
                }
            },
            Err(TryRecvError::Empty) => {
                assert(worker.reports() =~= Seq::empty());
                return None;
            },
            Err(TryRecvError::Disconnected) => {
                let failure = ConfigFailure {
                    stage: ConfigFailureStage::Worker,
                    message: "Configuration worker disconnected".to_owned(),
                };
                return Some(Completion::new(&worker.transaction, Err(failure)));
            },
        }
        left = left - 1;
    }
    assert(old(worker).reports().len() == MAX_REPORTS_PER_FRAME ==> worker.reports()
        =~= Seq::empty());
    None
}

fn describe_completion(outcome: ApplyCompletion, kind: TransactionKind, failed: String) -> (status:
    String)
    ensures
        outcome is Failed ==> status == failed,
        outcome is Applied ==> status@ == (match kind {
            TransactionKind::Load => "Configuration loaded"@,
            TransactionKind::Save => "Configuration saved"@,
        }),
        outcome is Stale ==> status@ == (match kind {
            TransactionKind::Load => "Load discarded because the form or target changed"@,
            TransactionKind::Save =>
                "Captured configuration saved; newer edits or target remain unchanged"@,
        }),
{
    match outcome {
        ApplyCompletion::Applied => match kind {
            TransactionKind::Load => "Configuration loaded".to_owned(),
            TransactionKind::Save => "Configuration saved".to_owned(),
        },
        ApplyCompletion::Stale => match kind {
            TransactionKind::Load => "Load discarded because the form or target changed".to_owned(),
            TransactionKind::Save =>
                "Captured configuration saved; newer edits or target remain unchanged".to_owned(),
        },
        ApplyCompletion::Failed => failed,
    }
}

fn show_failure(model: &mut ConfigModel, result: &Result<ConfigValue, ConfigFailure>) -> (failed:
    String)
    requires
        old(model).well_formed(),
    ensures
        final(model).well_formed(),
        *final(model) == (ConfigModel { output: final(model).output, ..*old(model) }),
        final(model).output@ == failure_log(old(model).output@, *result),
        failed@ == (match *result {
            Err(failure) => "Configuration operation failed: "@ + failure.message@,
            Ok(_) => "Configuration operation returned an unexpected result"@,
        }),
{
    match result {
        Err(failure) => {
            let mut line = "Configuration error: ".to_owned();
            line.append(failure.message.as_str());
            line.append("\n");
            assert(line@ =~= "Configuration error: "@ + failure.message@ + "\n"@);
            model.append_output(line.as_str());
            let mut failed = "Configuration operation failed: ".to_owned();
            failed.append(failure.message.as_str());
            failed
        },
        Ok(_) => "Configuration operation returned an unexpected result".to_owned(),
    }
}

/// Whether a completion says that the worker of an operation went away.
pub open spec fn is_loss(completion: Completion, transaction: Transaction) -> bool {
    &&& completion.transaction == transaction.id
    &&& crate::config_task::fails(
        completion.result,
        ConfigFailureStage::Worker,
        "Configuration worker disconnected"@,
    )
}

impl ControlCenter {
    /// The bounds that always hold.
    pub open spec fn well_formed(self) -> bool {
        &&& self.model.well_formed()
        &&& self.config_task matches Some(pending) ==> pending.worker.well_formed()
        &&& self.validation_task matches Some(task) ==> task.process.well_formed()
            && (task.kind is Calibration ==> task.calibration is Some)
    }

    /// Whether an operation on the configuration has begun since.
    pub open spec fn began(
        self,
        before: ControlCenter,
        kind: TransactionKind,
        captured: Seq<u8>,
        restart: bool,
    ) -> bool {
        &&& self.config_task matches Some(pending) && {
            &&& pending.restart_after_save == restart
            &&& pending.worker.state is Created
            &&& pending.worker.events@.len() == 0
            &&& pending.worker.omitted == 0
            &&& pending.worker.completion is None
            &&& !pending.worker.cancelled
            &&& !pending.worker.closed
            &&& pending.worker.program@ == before.model.program()
            &&& session::optional_string(pending.worker.default_path) == session::optional_string(
                before.model.default_path,
            )
            &&& pending.worker.transaction.id == before.model.next_transaction
            &&& pending.worker.transaction.kind == kind
            &&& pending.worker.transaction.target@ == before.model.config_path@
            &&& pending.worker.transaction.captured@ == captured
            &&& pending.worker.transaction.revision == before.model.revision
        }
        &&& self.model == (ConfigModel {
            transaction: self.model.transaction,
            next_transaction: before.model.next_transaction.wrapping_add(1),
            ..before.model
        })
        &&& self.model.transaction matches Some(own) && own.id == before.model.next_transaction
            && own.kind == kind && own.target@ == before.model.config_path@ && own.captured@
            == captured && own.revision == before.model.revision
        &&& self == (ControlCenter {
            config_task: self.config_task,
            model: self.model,
            status: self.status,
            ..before
        })
    }

    /// Whether an action on the service has been dispatched since.
    pub open spec fn dispatched(
        self,
        before: ControlCenter,
        blocks: Seq<Seq<char>>,
        action: ServiceAction,
    ) -> bool {
        &&& self.service_task matches Some((own, task)) && own == action && task.runs(
            before.service_program@,
            process::service_texts(action),
            action is IsActive,
        )
        &&& self.service_status@ == action.title() + "…"@
        &&& self.model.output@ == with_line(
            blocks,
            process::command_line(before.service_program@, process::service_texts(action)),
        )
    }

    /// The control center of a form, with nothing under way.
    pub fn new(model: ConfigModel) -> (center: ControlCenter)
        requires
            model.well_formed(),
        ensures
            center.well_formed(),
            center.model == model,
            center.config_task is None,
            center.command_task is None,
            center.service_task is None,
            center.pending_service_actions.pending is None,
            center.service_program@ == "systemctl"@,
            center.validation_task is None,
            center.tab is Overview,
            center.config_section is Pointer,
            !center.output_open,
            !center.reload_confirmation,
            !center.close_approved,
            center.service_status@ == "Checking…"@,
            center.daemon_status@ == "Daemon status pending"@,
            center.status@ == "Ready"@,
            !center.close_confirmation,
            center.trace_device@ == Seq::<char>::empty(),
            center.trace_filter@ == "all"@,
            center.trace_profile is None,
            !center.direct_capture,
            center.ipc_query is None,
    {
        ControlCenter {
            model,
            config_task: None,
            command_task: None,
            service_task: None,
            pending_service_actions: PendingServiceActions { pending: None },
            service_program: "systemctl".to_owned(),
            validation_task: None,
            tab: Tab::Overview,
            config_section: ConfigSection::Pointer,
            output_open: false,
            reload_confirmation: false,
            close_approved: false,
            service_status: "Checking…".to_owned(),
            daemon_status: "Daemon status pending".to_owned(),
            status: "Ready".to_owned(),
            close_confirmation: false,
            trace_device: String::new(),
            trace_filter: "all".to_owned(),
            trace_profile: None,
            direct_capture: false,
            ipc_query: None,
        }
    }

    /// The control center of a form as it is shown first: the configuration is loaded, and the
    /// service and the daemon are asked for their state, all at once.
    pub fn initialize(model: ConfigModel) -> (center: ControlCenter)
        requires
            model.well_formed(),
            model.transaction is None,
        ensures
            center.well_formed(),
            center.config_task matches Some(pending) && pending.worker.transaction.kind is Load
                && pending.worker.transaction.target@ == model.config_path@
                && pending.worker.transaction.id == model.next_transaction
                && pending.worker.transaction.captured@ == Seq::<u8>::empty()
                && pending.worker.transaction.revision == model.revision && pending.worker.program@
                == model.program() && session::optional_string(pending.worker.default_path)
                == session::optional_string(model.default_path) && !pending.restart_after_save
                && pending.worker.state is Created && pending.worker.events@.len() == 0
                && pending.worker.omitted == 0 && pending.worker.completion is None
                && !pending.worker.cancelled && !pending.worker.closed,
            center.model.transaction matches Some(own) && own.kind is Load && own.id
                == model.next_transaction && own.target@ == model.config_path@ && own.captured@
                == Seq::<u8>::empty() && own.revision == model.revision,
            center.model == (ConfigModel {
                transaction: center.model.transaction,
                next_transaction: model.next_transaction.wrapping_add(1),
                output: center.model.output,
                ..model
            }),
            center.model.output@ == with_line(
                model.output@,
                process::command_line(
                    "systemctl"@,
                    process::service_texts(ServiceAction::IsActive),
                ),
            ),
            center.service_task matches Some((action, task)) && action is IsActive && task.runs(
                "systemctl"@,
                process::service_texts(ServiceAction::IsActive),
                true,
            ),
            center.service_status@ == ServiceAction::IsActive.title() + "…"@,
            center.status@ == "Loading effective configuration"@,
            center.ipc_query matches Some(query) && query@ == (QueryView {
                devices: false,
                answer: None,
            }),
            center.command_task is None,
            center.validation_task is None,
            center.pending_service_actions.pending is None,
            center.service_program@ == "systemctl"@,
            center.tab is Overview,
            center.config_section is Pointer,
            !center.output_open,
            !center.reload_confirmation,
            !center.close_approved,
            !center.close_confirmation,
            center.daemon_status@ == "Daemon status pending"@,
            center.trace_device@ == Seq::<char>::empty(),
            center.trace_filter@ == "all"@,
            center.trace_profile is None,
            !center.direct_capture,
    {
        let mut center = ControlCenter::new(model);
        center.begin_load();
        center.service_action(ServiceAction::IsActive);
        center.ipc_query = Some(Query::start(false));
        center
    }

    /// Begins to load the configuration that the daemon reads, unless an operation is under way.
    pub fn begin_load(&mut self)
        requires
            old(self).well_formed(),
        ensures
            final(self).well_formed(),
            if old(self).config_task is Some || old(self).model.transaction is Some {
                *final(self) == *old(self)
            } else {
                &&& final(self).began(*old(self), TransactionKind::Load, Seq::empty(), false)
                &&& final(self).status@ == "Loading effective configuration"@
            },
    {
        if self.config_task.is_some() {
            return;
        }
        if self.spawn_config_task(TransactionKind::Load, Vec::new(), false) {
            self.status = "Loading effective configuration".to_owned();
        }
    }

    /// Begins to save the form, unless an operation is under way or the form cannot be saved.
    pub fn begin_save(&mut self, restart: bool)
        requires
            old(self).well_formed(),
        ensures
            final(self).well_formed(),
            if old(self).config_task is Some || !old(self).model.config@.valid() {
                &&& *final(self) == (ControlCenter { status: final(self).status, ..*old(self) })
                &&& final(self).status@ == "Configuration has validation errors"@
            } else if old(self).model.config_path@.len() == 0 {
                &&& *final(self) == (ControlCenter { status: final(self).status, ..*old(self) })
                &&& final(self).status@ == "Choose a configuration target"@
            } else if old(self).model.transaction is Some {
                *final(self) == *old(self)
            } else {
                &&& final(self).began(
                    *old(self),
                    TransactionKind::Save,
                    vstd::utf8::encode_utf8(config_text::rendered(old(self).model.config@)),
                    restart,
                )
                &&& final(self).status@ == (if restart {
                    "Validating configuration before save (restart requested)"@
                } else {
                    "Validating configuration before save"@
                })
            },
    {
        if self.config_task.is_some() || self.model.validate_form().is_err() {
            self.status = "Configuration has validation errors".to_owned();
            return;
        }
        if self.model.config_path.as_str().is_empty() {
            self.status = "Choose a configuration target".to_owned();
            return;
        }
        let bytes = self.model.render();
        if self.spawn_config_task(TransactionKind::Save, bytes, restart) {
            self.status = if restart {
                "Validating configuration before save (restart requested)".to_owned()
            } else {
                "Validating configuration before save".to_owned()
            };
        }
    }

    fn spawn_config_task(&mut self, kind: TransactionKind, captured: Vec<u8>, restart: bool) -> (begun:
        bool)
        requires
            old(self).well_formed(),
            old(self).config_task is None,
        ensures
            final(self).well_formed(),
            begun == (old(self).model.transaction is None),
            if begun {
                &&& final(self).began(*old(self), kind, captured@, restart)
                &&& final(self).status == old(self).status
            } else {
                *final(self) == *old(self)
            },
    {
        let program = self.model.daemon_program().to_owned();
        let default_path = match &self.model.default_path {
            Some(path) => Some(path.clone()),
            None => None,
        };
        match self.model.begin(kind, captured) {
            None => false,
            Some(transaction) => {
                self.config_task = Some(
                    PendingConfig {
                        worker: ConfigTask::spawn(transaction, program, default_path),
                        restart_after_save: restart,
                    },
                );
                true
            },
        }
    }

    /// Whether an operation has ended since with this completion, when the log stood at `blocks`.
    pub open spec fn completed(
        self,
        before: ControlCenter,
        transaction: Transaction,
        restart: bool,
        blocks: Seq<Seq<char>>,
        completion: Completion,
    ) -> bool {
        let outcome = before.model.outcome(completion);
        let own = before.model.transaction matches Some(t) && t.id == completion.transaction;
        let shown = failure_log(blocks, completion.result);
        &&& self.config_task is None
        &&& self.model == (ConfigModel {
            config: match completion.result {
                Ok(ConfigValue::Loaded(config)) if outcome is Applied => config,
                _ => before.model.config,
            },
            dirty: before.model.dirty && outcome !is Applied,
            transaction: if own {
                None
            } else {
                before.model.transaction
            },
            output: self.model.output,
            ..before.model
        })
        &&& self.status@ == config_status(outcome, transaction.kind, completion.result)
        &&& self.output_open == (before.output_open || outcome is Failed)
        &&& self == (ControlCenter {
            model: self.model,
            config_task: self.config_task,
            status: self.status,
            output_open: self.output_open,
            service_task: self.service_task,
            service_status: self.service_status,
            pending_service_actions: self.pending_service_actions,
            ..before
        })
        &&& if restart && transaction.kind is Save && !before.model.explicit(
            transaction.target@,
        ) && outcome is Applied {
            self.restart_requested(before, shown)
        } else {
            &&& self.service_task == before.service_task
            &&& self.service_status == before.service_status
            &&& self.pending_service_actions == before.pending_service_actions
            &&& self.model.output@ == shown
        }
    }

    /// Whether a restart has been requested since, when the log stood at `blocks`: it was
    /// dispatched, or waits for the action that is under way.
    pub open spec fn restart_requested(self, before: ControlCenter, blocks: Seq<Seq<char>>) -> bool {
        if before.service_task is Some {
            &&& self.pending_service_actions.pending == Some(ServiceAction::Restart)
            &&& self.service_status@ == "Restart queued…"@
            &&& self.service_task == before.service_task
            &&& self.model.output@ == blocks
        } else {
            &&& self.pending_service_actions.pending is None
            &&& self.dispatched(before, blocks, ServiceAction::Restart)
        }
    }

    #[verifier::spinoff_prover]
    #[verifier::rlimit(40)]
    fn complete_config(
        &mut self,
        transaction: &Transaction,
        restart: bool,
        completion: Completion,
    )
        requires
            old(self).well_formed(),
            old(self).config_task is None,
        ensures
            final(self).well_formed(),
            final(self).completed(
                *old(self),
                *transaction,
                restart,
                old(self).model.output@,
                completion,
            ),
    {
        let restarts = restart && transaction.kind == TransactionKind::Save
            && !self.model.is_explicit_target(&transaction.target);
        let failed = show_failure(&mut self.model, &completion.result);
        let outcome = self.model.finish(completion);
        self.status = describe_completion(outcome, transaction.kind, failed);
        if outcome == ApplyCompletion::Failed {
            self.output_open = true;
        }
        if restarts && outcome == ApplyCompletion::Applied {
            self.request_restart_after_save();
        }
    }

    /// Takes what the worker of the operation that is under way has reported, and ends the
    /// operation once the worker has.
    #[verifier::spinoff_prover]
    #[verifier::rlimit(40)]
    pub fn poll_config_task(&mut self)
        requires
            old(self).well_formed(),
        ensures
            final(self).well_formed(),
            match old(self).config_task {
                None => *final(self) == *old(self),
                Some(pending) => {
                    let blocks = report_log(
                        old(self).model.output@,
                        pending.worker.reports(),
                        MAX_REPORTS_PER_FRAME as nat,
                    );
                    match report_end(
                        pending.worker.reports(),
                        pending.worker.state is Ended,
                        MAX_REPORTS_PER_FRAME as nat,
                    ) {
                        ReportEnd::Open => {
                            &&& final(self).config_task matches Some(own)
                                && own.restart_after_save == pending.restart_after_save
                                && received(own.worker, pending.worker)
                            &&& *final(self) == (ControlCenter {
                                model: final(self).model,
                                config_task: final(self).config_task,
                                ..*old(self)
                            })
                            &&& final(self).model == (ConfigModel {
                                output: final(self).model.output,
                                ..old(self).model
                            })
                            &&& final(self).model.output@ == blocks
                        },
                        ReportEnd::Ended(completion) => final(self).completed(
                            *old(self),
                            pending.worker.transaction,
                            pending.restart_after_save,
                            blocks,
                            completion,
                        ),
                        ReportEnd::Lost => exists|completion: Completion|
                            {
                                &&& #[trigger] is_loss(completion, pending.worker.transaction)
                                &&& final(self).completed(
                                    *old(self),
                                    pending.worker.transaction,
                                    pending.restart_after_save,
                                    blocks,
                                    completion,
                                )
                            },
                    }
                },
            },
    {
        let mut pending = match self.config_task.take() {
            Some(pending) => pending,
            None => {
                return;
            },
        };
        match drain_reports(&mut pending.worker, &mut self.model) {
            None => {
                self.config_task = Some(pending);
            },
            Some(completion) => {
                self.complete_config(
                    &pending.worker.transaction,
                    pending.restart_after_save,
                    completion,
                );
            },
        }
    }

    fn append_result_error(&mut self, result: &ProcessResult)
        requires
            old(self).well_formed(),
        ensures
            final(self).well_formed(),
            *final(self) == (ControlCenter { model: final(self).model, ..*old(self) }),
            final(self).model == (ConfigModel {
                output: final(self).model.output,
                ..old(self).model
            }),
            final(self).model.output@ == error_log(old(self).model.output@, result@),
    {
        if let Some(error) = &result.error {
            let mut line = "process error: ".to_owned();
            line.append(error.as_str());
            line.append("\n");
            assert(line@ =~= "process error: "@ + error@ + "\n"@);
            self.model.append_output(line.as_str());
        }
    }

    /// Runs a command of the daemon, unless one runs. The list of devices comes from the running
    /// daemon instead.
    pub fn run_command(&mut self, args: Vec<String>, config_sensitive: bool)
        requires
            old(self).well_formed(),
        ensures
            final(self).well_formed(),
            if args@.len() > 0 && args@[0]@ == "--list"@ {
                &&& *final(self) == (ControlCenter {
                    ipc_query: final(self).ipc_query,
                    output_open: true,
                    ..*old(self)
                })
                &&& if old(self).ipc_query is None {
                    final(self).ipc_query matches Some(query) && query@ == (QueryView {
                        devices: true,
                        answer: None,
                    })
                } else {
                    final(self).ipc_query == old(self).ipc_query
                }
            } else if old(self).command_task is Some {
                *final(self) == *old(self)
            } else {
                let all = if config_sensitive {
                    process::with_target(
                        old(self).model.config_path@,
                        session::optional_string(old(self).model.default_path),
                        process::argument_texts(args@),
                    )
                } else {
                    process::argument_texts(args@)
                };
                &&& final(self).command_task matches Some(task) && task.runs(
                    old(self).model.program(),
                    all,
                    false,
                )
                &&& logs(
                    final(self).model,
                    old(self).model,
                    process::command_line(old(self).model.program(), all),
                )
                &&& final(self).status@ == "Command running"@
                &&& *final(self) == (ControlCenter {
                    model: final(self).model,
                    command_task: final(self).command_task,
                    status: final(self).status,
                    output_open: true,
                    ..*old(self)
                })
            },
    {
        if args.len() > 0 && text::same_text(args[0].as_str(), "--list") {
            if self.ipc_query.is_none() {
                self.ipc_query = Some(Query::start(true));
            }
            self.output_open = true;
            return;
        }
        if self.command_task.is_some() {
            return;
        }
        let args = if config_sensitive {
            self.configured(args)
        } else {
            args
        };
        let command = self.model.daemon_program().to_owned();
        let line = process::format_command(command.as_str(), &args);
        self.model.append_output(line.as_str());
        self.command_task = Some(ProcessTask::spawn(command, args));
        self.output_open = true;
        self.status = "Command running".to_owned();
    }

    fn configured(&self, args: Vec<String>) -> (all: Vec<String>)
        ensures
            process::argument_texts(all@) == process::with_target(
                self.model.config_path@,
                session::optional_string(self.model.default_path),
                process::argument_texts(args@),
            ),
    {
        let default_path = match &self.model.default_path {
            Some(path) => Some(path.as_str()),
            None => None,
        };
        process::configured_args(self.model.config_path.as_str(), default_path, args)
    }

    /// Shows what the command has written, and ends it once it has ended.
    pub fn poll_command(&mut self)
        requires
            old(self).well_formed(),
        ensures
            final(self).well_formed(),
            match old(self).command_task {
                None => *final(self) == *old(self),
                Some(task) => {
                    let blocks = process::process_log(old(self).model.output@, task.events@);
                    &&& *final(self) == (ControlCenter {
                        model: final(self).model,
                        command_task: final(self).command_task,
                        status: final(self).status,
                        ..*old(self)
                    })
                    &&& final(self).model == (ConfigModel {
                        output: final(self).model.output,
                        ..old(self).model
                    })
                    &&& match process::task_end(task.events@, task.lost) {
                        None => {
                            &&& final(self).command_task matches Some(own) && own == (ProcessTask {
                                events: own.events,
                                ..task
                            }) && own.events@.len() == 0
                            &&& final(self).status == old(self).status
                            &&& final(self).model.output@ == blocks
                        },
                        Some(end) => {
                            &&& final(self).command_task is None
                            &&& final(self).status@ == command_status(end)
                            &&& final(self).model.output@ == error_log(blocks, end)
                        },
                    }
                },
            },
    {
        let mut task = match self.command_task.take() {
            Some(task) => task,
            None => {
                return;
            },
        };
        let result = match process::poll_process(&mut task, &mut self.model) {
            Some(result) => result,
            None => {
                self.command_task = Some(task);
                return;
            },
        };
        self.append_result_error(&result);
        self.status = if result.success {
            "Command succeeded".to_owned()
        } else {
            let mut status = "Command failed (exit ".to_owned();
            match result.code {
                Some(code) => text::append_signed(&mut status, code as i64),
                None => status.append("unknown"),
            }
            status.append(")");
            assert(status@ =~= command_status(result@));
            status
        };
    }

    /// Asks for an action on the service, unless one is under way.
    pub fn service_action(&mut self, action: ServiceAction)
        requires
            old(self).well_formed(),
        ensures
            final(self).well_formed(),
            if old(self).service_task is Some {
                *final(self) == *old(self)
            } else {
                &&& final(self).dispatched(*old(self), old(self).model.output@, action)
                &&& final(self).model == (ConfigModel {
                    output: final(self).model.output,
                    ..old(self).model
                })
                &&& *final(self) == (ControlCenter {
                    model: final(self).model,
                    service_task: final(self).service_task,
                    service_status: final(self).service_status,
                    ..*old(self)
                })
            },
    {
        if self.service_task.is_some() {
            return;
        }
        self.dispatch_service_action(action);
    }

    /// Asks for a restart of the service: at once, or after the action that is under way.
    pub fn request_restart_after_save(&mut self)
        requires
            old(self).well_formed(),
        ensures
            final(self).well_formed(),
            final(self).restart_requested(*old(self), old(self).model.output@),
            final(self).model == (ConfigModel {
                output: final(self).model.output,
                ..old(self).model
            }),
            *final(self) == (ControlCenter {
                model: final(self).model,
                service_task: final(self).service_task,
                service_status: final(self).service_status,
                pending_service_actions: final(self).pending_service_actions,
                ..*old(self)
            }),
    {
        let active = self.service_task.is_some();
        match self.pending_service_actions.request_restart(active) {
            Some(action) => self.dispatch_service_action(action),
            None => {
                self.service_status = "Restart queued…".to_owned();
            },
        }
    }

    /// Runs an action on the service.
    pub fn dispatch_service_action(&mut self, action: ServiceAction)
        requires
            old(self).well_formed(),
        ensures
            final(self).well_formed(),
            final(self).dispatched(*old(self), old(self).model.output@, action),
            final(self).model == (ConfigModel {
                output: final(self).model.output,
                ..old(self).model
            }),
            *final(self) == (ControlCenter {
                model: final(self).model,
                service_task: final(self).service_task,
                service_status: final(self).service_status,
                ..*old(self)
            }),
    {
        let args = process::service_args(action);
        let line = process::format_command(self.service_program.as_str(), &args);
        self.model.append_output(line.as_str());
        let mut service_status = action.capitalize().to_owned();
        service_status.append("…");
        self.service_status = service_status;
        let program = self.service_program.clone();
        let task = if action == ServiceAction::IsActive {
            ProcessTask::spawn_capturing_stdout(program, args)
        } else {
            ProcessTask::spawn(program, args)
        };
        self.service_task = Some((action, task));
    }

    /// What an action that ended makes the service's state read, before a next action.
    pub open spec fn service_status_after(self, action: ServiceAction, end: End) -> Seq<char> {
        if action is IsActive {
            process::service_state(end)
        } else if end.success {
            self.service_status@
        } else {
            "Unavailable"@
        }
    }

    /// What is said of an action that ended.
    pub open spec fn status_after_service(self, action: ServiceAction, end: End) -> Seq<char> {
        if action is IsActive {
            self.status@
        } else if end.success {
            "Service "@ + action.name() + " succeeded"@
        } else {
            "Service "@ + action.name() + " failed · see activity log"@
        }
    }

    /// The action that follows one that ended: the one that waits, or else the question for the
    /// state after a change that succeeded.
    pub open spec fn next_service_action(self, action: ServiceAction, end: End) -> Option<
        ServiceAction,
    > {
        match self.pending_service_actions.pending {
            Some(next) => Some(next),
            None => if action !is IsActive && end.success {
                Some(ServiceAction::IsActive)
            } else {
                None
            },
        }
    }

    /// Shows what the action on the service has written, and goes on once it has ended.
    #[verifier::spinoff_prover]
    #[verifier::rlimit(40)]
    pub fn poll_service(&mut self)
        requires
            old(self).well_formed(),
        ensures
            final(self).well_formed(),
            match old(self).service_task {
                None => *final(self) == *old(self),
                Some((action, task)) => {
                    let blocks = process::process_log(old(self).model.output@, task.events@);
                    &&& *final(self) == (ControlCenter {
                        model: final(self).model,
                        service_task: final(self).service_task,
                        service_status: final(self).service_status,
                        status: final(self).status,
                        output_open: final(self).output_open,
                        pending_service_actions: final(self).pending_service_actions,
                        ..*old(self)
                    })
                    &&& final(self).model == (ConfigModel {
                        output: final(self).model.output,
                        ..old(self).model
                    })
                    &&& match process::task_end(task.events@, task.lost) {
                        None => {
                            &&& final(self).service_task matches Some((own_action, own))
                                && own_action == action && own == (ProcessTask {
                                events: own.events,
                                ..task
                            }) && own.events@.len() == 0
                            &&& final(self).service_status == old(self).service_status
                            &&& final(self).status == old(self).status
                            &&& final(self).output_open == old(self).output_open
                            &&& final(self).pending_service_actions
                                == old(self).pending_service_actions
                            &&& final(self).model.output@ == blocks
                        },
                        Some(end) => {
                            &&& final(self).pending_service_actions.pending is None
                            &&& final(self).status@ == old(self).status_after_service(action, end)
                            &&& final(self).output_open == (old(self).output_open || (
                            action !is IsActive && !end.success))
                            &&& match old(self).next_service_action(action, end) {
                                Some(next) => final(self).dispatched(
                                    *old(self),
                                    error_log(blocks, end),
                                    next,
                                ),
                                None => {
                                    &&& final(self).service_task is None
                                    &&& final(self).service_status@
                                        == old(self).service_status_after(action, end)
                                    &&& final(self).model.output@ == error_log(blocks, end)
                                },
                            }
                        },
                    }
                },
            },
    {
        let (action, mut task) = match self.service_task.take() {
            Some(task) => task,
            None => {
                return;
            },
        };
        let result = match process::poll_process(&mut task, &mut self.model) {
            Some(result) => result,
            None => {
                self.service_task = Some((action, task));
                return;
            },
        };
        self.append_result_error(&result);
        self.note_service_end(action, &result);
        match self.pending_service_actions.after_completion() {
            Some(next) => self.dispatch_service_action(next),
            None => {
                if action != ServiceAction::IsActive && result.success {
                    self.dispatch_service_action(ServiceAction::IsActive);
                }
            },
        }
    }

    fn note_service_end(&mut self, action: ServiceAction, result: &ProcessResult)
        requires
            old(self).well_formed(),
        ensures
            final(self).well_formed(),
            *final(self) == (ControlCenter {
                service_status: final(self).service_status,
                status: final(self).status,
                output_open: old(self).output_open || (action !is IsActive && !result.success),
                ..*old(self)
            }),
            final(self).status@ == old(self).status_after_service(action, result@),
            final(self).service_status@ == old(self).service_status_after(action, result@),
    {
        if action == ServiceAction::IsActive {
            self.service_status = process::service_query_status(result).to_owned();
            return;
        }
        let mut status = "Service ".to_owned();
        status.append(action.as_str());
        if result.success {
            status.append(" succeeded");
        } else {
            self.service_status = "Unavailable".to_owned();
            status.append(" failed · see activity log");
            self.output_open = true;
        }
        self.status = status;
        assert(self.status@ =~= old(self).status_after_service(action, result@));
    }
}

/// How long a calibration captures, in milliseconds. A duration that makes no sense never ends.
pub open spec fn capture_time(seconds: i32) -> u64 {
    if seconds < 0 {
        u64::MAX
    } else {
        (seconds * 1000) as u64
    }
}

/// The device part of a capture's arguments.
pub open spec fn device_args(device: Seq<char>) -> Seq<Seq<char>> {
    if device.len() == 0 {
        Seq::empty()
    } else {
        seq!["--device"@, device]
    }
}

/// The profile part of a trace's arguments.
pub open spec fn profile_args(profile: Option<Profile>) -> Seq<Seq<char>> {
    match profile {
        Some(profile) => seq!["--profile"@, config_text::profile_text(profile)],
        None => Seq::empty(),
    }
}

fn apply_calibration(model: &mut ConfigModel, value: CalibrationResult)
    ensures
        *final(model) == (ConfigModel {
            config: Config {
                aim_accel_zero: if value.accel is Some {
                    value.accel
                } else {
                    old(model).config.aim_accel_zero
                },
                aim_motion_plus_bias: if value.motion_plus is Some {
                    value.motion_plus
                } else {
                    old(model).config.aim_motion_plus_bias
                },
                ..old(model).config
            },
            dirty: true,
            revision: old(model).revision.wrapping_add(1),
            ..*old(model)
        }),
{
    if value.accel.is_some() {
        model.config.aim_accel_zero = value.accel;
    }
    if value.motion_plus.is_some() {
        model.config.aim_motion_plus_bias = value.motion_plus;
    }
    model.mark_dirty();
}

fn push_device(args: &mut Vec<String>, device: &str)
    ensures
        process::argument_texts(final(args)@) == process::argument_texts(old(args)@) + device_args(
            device@,
        ),
{
    if !device.is_empty() {
        args.push("--device".to_owned());
        args.push(device.to_owned());
    }
    assert(process::argument_texts(args@) =~= process::argument_texts(old(args)@) + device_args(
        device@,
    ));
}

fn push_profile(args: &mut Vec<String>, profile: Option<Profile>)
    ensures
        process::argument_texts(final(args)@) == process::argument_texts(old(args)@)
            + profile_args(profile),
{
    if let Some(profile) = profile {
        args.push("--profile".to_owned());
        args.push(profile.as_str().to_owned());
    }
    assert(process::argument_texts(args@) =~= process::argument_texts(old(args)@) + profile_args(
        profile,
    ));
}

impl ControlCenter {
    /// The device that is entered.
    pub open spec fn device(self) -> Seq<char> {
        text::trimmed(self.trace_device@)
    }

    /// Arguments with the file of the form.
    pub open spec fn targeted(self, args: Seq<Seq<char>>) -> Seq<Seq<char>> {
        process::with_target(
            self.model.config_path@,
            session::optional_string(self.model.default_path),
            args,
        )
    }

    /// The arguments of a direct trace.
    pub open spec fn trace_args(self) -> Seq<Seq<char>> {
        self.targeted(
            seq!["--dry-run"@, "--no-ipc"@, "--trace-events="@ + self.trace_filter@, "--verbose"@]
                + profile_args(self.trace_profile) + device_args(self.device()),
        )
    }

    /// The arguments of a direct calibration.
    pub open spec fn calibration_args(self) -> Seq<Seq<char>> {
        self.targeted(
            seq![
                "--calibrate-aim"@,
                "--aim-calibration-duration"@,
                text::signed_decimal(self.model.config.aim_calibration_duration as int),
            ] + device_args(self.device()),
        )
    }

    /// Whether a capture is the fresh one that the form asks for.
    pub open spec fn captures(
        self,
        process: CaptureTask,
        args: Seq<Seq<char>>,
        filter: TraceFilter,
        duration: Option<u64>,
    ) -> bool {
        if self.direct_capture {
            process matches CaptureTask::Direct(task) && task.runs(
                self.model.program(),
                args,
                duration is Some,
            )
        } else {
            process matches CaptureTask::Daemon(capture) && capture@ == crate::live::fresh(
                session::started(
                    None,
                    self.device(),
                    duration is Some,
                    session::DeliveryPolicy::Strict,
                ),
                filter,
                duration,
            )
        }
    }

    /// The log after a capture has begun: a direct one shows its command.
    pub open spec fn capture_log(self, args: Seq<Seq<char>>) -> Seq<Seq<char>> {
        if self.direct_capture {
            with_line(
                self.model.output@,
                process::command_line(self.model.program(), args),
            )
        } else {
            self.model.output@
        }
    }

    fn begin_capture(
        &mut self,
        command: String,
        device: &str,
        args: Vec<String>,
        filter: TraceFilter,
        duration: Option<u64>,
    ) -> (process: CaptureTask)
        requires
            old(self).well_formed(),
            command@ == old(self).model.program(),
            device@ == old(self).device(),
        ensures
            final(self).well_formed(),
            process.well_formed(),
            old(self).captures(process, process::argument_texts(args@), filter, duration),
            *final(self) == (ControlCenter { model: final(self).model, ..*old(self) }),
            final(self).model == (ConfigModel {
                output: final(self).model.output,
                ..old(self).model
            }),
            final(self).model.output@ == old(self).capture_log(process::argument_texts(args@)),
    {
        if !self.direct_capture {
            return CaptureTask::Daemon(Capture::start(device.to_owned(), filter, duration));
        }
        let line = process::format_command(command.as_str(), &args);
        self.model.append_output(line.as_str());
        if duration.is_some() {
            CaptureTask::Direct(ProcessTask::spawn_capturing_stdout(command, args))
        } else {
            CaptureTask::Direct(ProcessTask::spawn(command, args))
        }
    }

    /// Starts to trace the input, unless a capture is under way.
    pub fn start_trace(&mut self)
        requires
            old(self).well_formed(),
        ensures
            final(self).well_formed(),
            if old(self).validation_task is Some {
                &&& *final(self) == (ControlCenter { status: final(self).status, ..*old(self) })
                &&& final(self).status@ == "Another live validation task is already running"@
            } else {
                &&& final(self).validation_task matches Some(task) && task.kind is Trace
                    && !task.cancel_requested && task.calibration is None && old(self).captures(
                    task.process,
                    old(self).trace_args(),
                    match TraceFilter::named(old(self).trace_filter@) {
                        Some(filter) => filter,
                        None => TraceFilter::All,
                    },
                    None,
                )
                &&& final(self).status@ == "Trace running"@
                &&& final(self).model == (ConfigModel {
                    output: final(self).model.output,
                    ..old(self).model
                })
                &&& final(self).model.output@ == old(self).capture_log(old(self).trace_args())
                &&& *final(self) == (ControlCenter {
                    model: final(self).model,
                    validation_task: final(self).validation_task,
                    status: final(self).status,
                    output_open: true,
                    ..*old(self)
                })
            },
    {
        if self.validation_task.is_some() {
            self.status = "Another live validation task is already running".to_owned();
            return;
        }
        let mut events = "--trace-events=".to_owned();
        events.append(self.trace_filter.as_str());
        let mut args: Vec<String> = Vec::new();
        args.push("--dry-run".to_owned());
        args.push("--no-ipc".to_owned());
        args.push(events);
        args.push("--verbose".to_owned());
        assert(process::argument_texts(args@) =~= seq![
            "--dry-run"@,
            "--no-ipc"@,
            "--trace-events="@ + self.trace_filter@,
            "--verbose"@,
        ]);
        let device = text::trim(self.trace_device.as_str()).to_owned();
        push_profile(&mut args, self.trace_profile);
        push_device(&mut args, device.as_str());
        let args = self.configured(args);
        let command = self.model.daemon_program().to_owned();
        let filter = match TraceFilter::parse(self.trace_filter.as_str()) {
            Some(filter) => filter,
            None => TraceFilter::All,
        };
        let process = self.begin_capture(command, device.as_str(), args, filter, None);
        self.validation_task = Some(
            ValidationTask {
                kind: ValidationKind::Trace,
                cancel_requested: false,
                process,
                calibration: None,
            },
        );
        self.output_open = true;
        self.status = "Trace running".to_owned();
    }

    /// Starts to calibrate the sensors, unless a capture is under way. The calibration belongs to
    /// the form, the target and the device as they are now.
    pub fn start_calibration(&mut self)
        requires
            old(self).well_formed(),
        ensures
            final(self).well_formed(),
            if old(self).validation_task is Some {
                &&& *final(self) == (ControlCenter { status: final(self).status, ..*old(self) })
                &&& final(self).status@
                    == "Wait for the current trace or calibration capture to finish"@
            } else if old(self).model.calibration is Some {
                &&& *final(self) == (ControlCenter { status: final(self).status, ..*old(self) })
                &&& final(self).status@ == "Another calibration transaction is already running"@
            } else {
                &&& final(self).validation_task matches Some(task) && {
                    &&& task.kind is Calibration
                    &&& !task.cancel_requested
                    &&& old(self).captures(
                        task.process,
                        old(self).calibration_args(),
                        TraceFilter::All,
                        Some(capture_time(old(self).model.config.aim_calibration_duration)),
                    )
                    &&& task.calibration matches Some(ownership) && ownership.device@
                        == old(self).device() && ownership.transaction.id
                        == old(self).model.next_transaction && ownership.transaction.target@
                        == old(self).model.config_path@ && ownership.transaction.revision
                        == old(self).model.revision && ownership.transaction.daemon_program@
                        == old(self).model.program() && ownership.transaction.duration
                        == old(self).model.config.aim_calibration_duration
                }
                &&& final(self).status@ == "Calibration running"@
                &&& final(self).model == (ConfigModel {
                    calibration: Some(old(self).model.next_transaction),
                    next_transaction: old(self).model.next_transaction.wrapping_add(1),
                    output: final(self).model.output,
                    ..old(self).model
                })
                &&& final(self).model.output@ == old(self).capture_log(
                    old(self).calibration_args(),
                )
                &&& *final(self) == (ControlCenter {
                    model: final(self).model,
                    validation_task: final(self).validation_task,
                    status: final(self).status,
                    output_open: true,
                    ..*old(self)
                })
            },
    {
        if self.validation_task.is_some() {
            self.status = "Wait for the current trace or calibration capture to finish".to_owned();
            return;
        }
        let device = text::trim(self.trace_device.as_str()).to_owned();
        let transaction = match self.model.begin_calibration() {
            Some(transaction) => transaction,
            None => {
                self.status = "Another calibration transaction is already running".to_owned();
                return;
            },
        };
        let mut seconds = String::new();
        text::append_signed(&mut seconds, transaction.duration as i64);
        assert(seconds@ =~= text::signed_decimal(transaction.duration as int));
        let mut args: Vec<String> = Vec::new();
        args.push("--calibrate-aim".to_owned());
        args.push("--aim-calibration-duration".to_owned());
        args.push(seconds);
        assert(process::argument_texts(args@) =~= seq![
            "--calibrate-aim"@,
            "--aim-calibration-duration"@,
            text::signed_decimal(transaction.duration as int),
        ]);
        push_device(&mut args, device.as_str());
        let args = self.configured(args);
        let duration: u64 = if transaction.duration < 0 {
            u64::MAX
        } else {
            transaction.duration as u64 * 1000
        };
        let command = transaction.daemon_program.clone();
        let process = self.begin_capture(
            command,
            device.as_str(),
            args,
            TraceFilter::All,
            Some(duration),
        );
        self.validation_task = Some(
            ValidationTask {
                kind: ValidationKind::Calibration,
                cancel_requested: false,
                process,
                calibration: Some(CalibrationOwnership { transaction, device }),
            },
        );
        self.output_open = true;
        self.status = "Calibration running".to_owned();
    }

    /// Asks the capture to end.
    pub fn stop_capture(&mut self)
        requires
            old(self).well_formed(),
        ensures
            final(self).well_formed(),
            match old(self).validation_task {
                None => *final(self) == *old(self),
                Some(task) => {
                    &&& final(self).validation_task matches Some(own) && own == (ValidationTask {
                        cancel_requested: true,
                        process: own.process,
                        ..task
                    }) && own.process@ == task.process@.stopping()
                    &&& final(self).status@ == "Stopping capture…"@
                    &&& *final(self) == (ControlCenter {
                        validation_task: final(self).validation_task,
                        status: final(self).status,
                        ..*old(self)
                    })
                },
            },
    {
        let mut task = match self.validation_task.take() {
            Some(task) => task,
            None => {
                return;
            },
        };
        task.cancel_requested = true;
        task.process.terminate();
        self.validation_task = Some(task);
        self.status = "Stopping capture…".to_owned();
    }

    /// Whether a calibration still belongs to the form, the target and the device.
    pub open spec fn owns(self, ownership: CalibrationOwnership) -> bool {
        &&& self.model.calibration == Some(ownership.transaction.id)
        &&& ownership.transaction.revision == self.model.revision
        &&& ownership.transaction.target@ == self.model.config_path@
        &&& ownership.device@ == self.device()
    }

    /// The calibration that is under way after one has ended.
    pub open spec fn released(self, ownership: CalibrationOwnership) -> Option<u64> {
        if self.model.calibration == Some(ownership.transaction.id) {
            None
        } else {
            self.model.calibration
        }
    }

    /// Whether a calibration has ended since with this result, when the log stood at `blocks`.
    pub open spec fn calibrated(
        self,
        before: ControlCenter,
        blocks: Seq<Seq<char>>,
        ownership: CalibrationOwnership,
        result: Result<CalibrationResult, Seq<char>>,
    ) -> bool {
        &&& self.model.output@ == blocks
        &&& self.status@ == (match result {
            Err(_) => "Calibration failed"@,
            Ok(_) => if before.owns(ownership) {
                "Calibration values applied; save to persist them"@
            } else {
                "Calibration discarded because the form, target, or capture changed"@
            },
        })
        &&& match result {
            Ok(value) if before.owns(ownership) => self.model == (ConfigModel {
                config: Config {
                    aim_accel_zero: if value.accel is Some {
                        value.accel
                    } else {
                        before.model.config.aim_accel_zero
                    },
                    aim_motion_plus_bias: if value.motion_plus is Some {
                        value.motion_plus
                    } else {
                        before.model.config.aim_motion_plus_bias
                    },
                    ..before.model.config
                },
                dirty: true,
                revision: before.model.revision.wrapping_add(1),
                calibration: None,
                output: self.model.output,
                ..before.model
            }),
            _ => self.model == (ConfigModel {
                calibration: before.released(ownership),
                output: self.model.output,
                ..before.model
            }),
        }
    }

    /// Ends a calibration. Its values reach the form only where nothing has changed since it began.
    #[verifier::spinoff_prover]
    #[verifier::rlimit(40)]
    pub fn complete_calibration(
        &mut self,
        ownership: CalibrationOwnership,
        result: Result<CalibrationResult, String>,
    )
        requires
            old(self).well_formed(),
        ensures
            final(self).well_formed(),
            final(self).calibrated(
                *old(self),
                old(self).model.output@,
                ownership,
                validation::result_view(result),
            ),
            *final(self) == (ControlCenter {
                model: final(self).model,
                status: final(self).status,
                ..*old(self)
            }),
    {
        let model_owned = self.model.finish_calibration(&ownership.transaction);
        let device_owned = text::same_text(
            text::trim(self.trace_device.as_str()),
            ownership.device.as_str(),
        );
        match result {
            Err(_) => {
                self.status = "Calibration failed".to_owned();
            },
            Ok(value) => {
                if !model_owned || !device_owned {
                    self.status =
                    "Calibration discarded because the form, target, or capture changed".to_owned();
                    return;
                }
                apply_calibration(&mut self.model, value);
                self.status = "Calibration values applied; save to persist them".to_owned();
            },
        }
    }

    /// The log after a capture that was not stopped has ended.
    pub open spec fn ended_log(
        blocks: Seq<Seq<char>>,
        result: Result<CaptureResult, Seq<char>>,
    ) -> Seq<Seq<char>> {
        match result {
            Err(error) => with_line(blocks, error + "\n"@),
            Ok(_) => blocks,
        }
    }

    /// What a capture means for a calibration.
    pub open spec fn calibration_of(result: Result<CaptureResult, Seq<char>>) -> Result<
        CalibrationResult,
        Seq<char>,
    > {
        match result {
            Ok(CaptureResult::Calibrated(value)) => Ok(value),
            Ok(CaptureResult::TraceStopped) => Err("Capture returned no calibration"@),
            Err(error) => Err(error),
        }
    }

    /// Whether a capture has ended since with this result, when the log stood at `blocks`.
    pub open spec fn captured(
        self,
        before: ControlCenter,
        task: ValidationTask,
        blocks: Seq<Seq<char>>,
        result: Result<CaptureResult, Seq<char>>,
    ) -> bool {
        &&& self.validation_task is None
        &&& self == (ControlCenter {
            model: self.model,
            validation_task: self.validation_task,
            status: self.status,
            ..before
        })
        &&& if task.cancel_requested {
            &&& self.status@ == "Capture stopped"@
            &&& self.model == (ConfigModel {
                calibration: match task.calibration {
                    Some(ownership) => before.released(ownership),
                    None => before.model.calibration,
                },
                output: self.model.output,
                ..before.model
            })
            &&& self.model.output@ == blocks
        } else if task.kind is Trace {
            &&& self.status@ == (if result is Ok {
                "Trace stopped"@
            } else {
                "Trace failed"@
            })
            &&& self.model == (ConfigModel { output: self.model.output, ..before.model })
            &&& self.model.output@ == ControlCenter::ended_log(blocks, result)
        } else {
            self.calibrated(
                before,
                ControlCenter::ended_log(blocks, result),
                task.calibration->0,
                ControlCenter::calibration_of(result),
            )
        }
    }

    fn finish_capture(&mut self, task: ValidationTask, result: Result<CaptureResult, String>)
        requires
            old(self).well_formed(),
            old(self).validation_task is None,
            task.kind is Calibration ==> task.calibration is Some,
        ensures
            final(self).well_formed(),
            final(self).captured(
                *old(self),
                task,
                old(self).model.output@,
                validation::result_view(result),
            ),
    {
        if task.cancel_requested {
            if let Some(ownership) = task.calibration {
                self.model.finish_calibration(&ownership.transaction);
            }
            self.status = "Capture stopped".to_owned();
            return;
        }
        if let Err(error) = &result {
            let mut line = error.clone();
            line.append("\n");
            self.model.append_output(line.as_str());
        }
        match task.kind {
            ValidationKind::Trace => {
                self.status = if result.is_ok() {
                    "Trace stopped".to_owned()
                } else {
                    "Trace failed".to_owned()
                };
            },
            ValidationKind::Calibration => {
                if let Some(ownership) = task.calibration {
                    let value = match result {
                        Ok(CaptureResult::Calibrated(value)) => Ok(value),
                        Ok(CaptureResult::TraceStopped) => Err(
                            "Capture returned no calibration".to_owned(),
                        ),
                        Err(error) => Err(error),
                    };
                    self.complete_calibration(ownership, value);
                }
            },
        }
    }

    /// Shows what the capture has reported by now, and ends it once it has ended.
    pub fn poll_validation(&mut self, now: u64)
        requires
            old(self).well_formed(),
        ensures
            final(self).well_formed(),
            match old(self).validation_task {
                None => *final(self) == *old(self),
                Some(task) => {
                    let blocks = task.process@.logged(old(self).model.output@, now);
                    match task.process@.end(now) {
                        None => {
                            &&& final(self).validation_task matches Some(own) && own
                                == (ValidationTask { process: own.process, ..task })
                                && own.process@ == task.process@.after_poll(now)
                            &&& *final(self) == (ControlCenter {
                                model: final(self).model,
                                validation_task: final(self).validation_task,
                                ..*old(self)
                            })
                            &&& final(self).model == (ConfigModel {
                                output: final(self).model.output,
                                ..old(self).model
                            })
                            &&& final(self).model.output@ == blocks
                        },
                        Some(end) => final(self).captured(
                            *old(self),
                            task,
                            blocks,
                            validation::capture_in(end, task.kind),
                        ),
                    }
                },
            },
    {
        let mut task = match self.validation_task.take() {
            Some(task) => task,
            None => {
                return;
            },
        };
        let kind = task.kind;
        match task.process.poll(now, &mut self.model, kind) {
            None => {
                self.validation_task = Some(task);
            },
            Some(result) => {
                self.finish_capture(task, result);
            },
        }
    }

    /// Asks to load the configuration again. Unsaved edits are not lost without a confirmation.
    pub fn request_reload(&mut self)
        requires
            old(self).well_formed(),
        ensures
            final(self).well_formed(),
            if old(self).model.dirty {
                *final(self) == (ControlCenter { reload_confirmation: true, ..*old(self) })
            } else if old(self).config_task is Some || old(self).model.transaction is Some {
                *final(self) == *old(self)
            } else {
                &&& final(self).began(*old(self), TransactionKind::Load, Seq::empty(), false)
                &&& final(self).status@ == "Loading effective configuration"@
            },
    {
        if self.model.dirty {
            self.reload_confirmation = true;
        } else {
            self.begin_load();
        }
    }

    /// Asks the running daemon for its state, unless it is being asked.
    pub fn refresh_daemon_status(&mut self)
        requires
            old(self).well_formed(),
        ensures
            final(self).well_formed(),
            if old(self).ipc_query is Some {
                *final(self) == *old(self)
            } else {
                &&& final(self).ipc_query matches Some(query) && query@ == (QueryView {
                    devices: false,
                    answer: None,
                })
                &&& *final(self) == (ControlCenter {
                    ipc_query: final(self).ipc_query,
                    output_open: true,
                    ..*old(self)
                })
            },
    {
        if self.ipc_query.is_none() {
            self.ipc_query = Some(Query::start(false));
            self.output_open = true;
        }
    }

    /// Shows the answer of the running daemon once it has arrived.
    pub fn poll_query(&mut self)
        requires
            old(self).well_formed(),
        ensures
            final(self).well_formed(),
            match old(self).ipc_query {
                None => *final(self) == *old(self),
                Some(query) => match query@.answer {
                    None => {
                        &&& *final(self) == (ControlCenter {
                            ipc_query: final(self).ipc_query,
                            ..*old(self)
                        })
                        &&& final(self).ipc_query matches Some(own) && own@ == query@
                    },
                    Some(answer) => {
                        &&& final(self).ipc_query is None
                        &&& *final(self) == (ControlCenter {
                            model: final(self).model,
                            ipc_query: final(self).ipc_query,
                            daemon_status: final(self).daemon_status,
                            ..*old(self)
                        })
                        &&& logs(
                            final(self).model,
                            old(self).model,
                            match answer {
                                Ok(result) => result.text(),
                                Err(reason) => reason + "\n"@,
                            },
                        )
                        &&& final(self).daemon_status@ == (match answer {
                            Ok(QueryResult::Status { status, .. }) => crate::live::status_summary(
                                status,
                            ),
                            Ok(QueryResult::Devices(_)) => old(self).daemon_status@,
                            Err(_) => if query@.devices {
                                old(self).daemon_status@
                            } else {
                                "Daemon unavailable · see activity log"@
                            },
                        })
                    },
                },
            },
    {
        let mut query = match self.ipc_query.take() {
            Some(query) => query,
            None => {
                return;
            },
        };
        let status = query.is_status();
        match query.take() {
            None => {
                self.ipc_query = Some(query);
            },
            Some(Ok(result)) => {
                if let QueryResult::Status { status, .. } = &result {
                    self.daemon_status = crate::live::format_summary(status);
                }
                let shown = result.describe();
                self.model.append_output(shown.as_str());
            },
            Some(Err(reason)) => {
                if status {
                    self.daemon_status = "Daemon unavailable · see activity log".to_owned();
                }
                let mut line = reason;
                line.append("\n");
                self.model.append_output(line.as_str());
            },
        }
    }

    /// Whether anything is under way.
    pub open spec fn working(self) -> bool {
        self.config_task is Some || self.command_task is Some || self.service_task is Some
            || self.validation_task is Some || self.ipc_query is Some
    }

    /// After how many milliseconds the window is drawn again: soon while anything is under way.
    pub fn repaint_delay(&self) -> (ms: u64)
        ensures
            ms == (if self.working() {
                40u64
            } else {
                250u64
            }),
    {
        let working = self.config_task.is_some() || self.command_task.is_some()
            || self.service_task.is_some() || self.validation_task.is_some()
            || self.ipc_query.is_some();
        if working {
            40
        } else {
            250
        }
    }
}

} // verus!
