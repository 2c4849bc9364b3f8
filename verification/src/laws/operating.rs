//! Loading and saving the configuration: one operation at a time, and none over newer edits.
use crate::config_task::{ConfigEvent, ConfigTask, TaskStep};
use crate::config_text;
use crate::failure::IoFailure;
use crate::model::{
    ApplyCompletion, CalibrationTransaction, Completion, ConfigFailure, ConfigModel, ConfigValue,
    Transaction, TransactionKind,
};
use crate::process::{self, ProcessResult};
use crate::session::TryRecvError;
use vstd::prelude::*;

verus! {

/// A new form has the defaults, nothing running and nothing unsaved.
pub proof fn forms_start_saved(
    path: String,
    usual: Option<String>,
    form: ConfigModel,
    config: crate::config::Config,
)
    requires
        call_ensures(ConfigModel::new, (path, usual), form),
        call_ensures(crate::config::Config::default, (), config),
    ensures
        !form.dirty,
        form.transaction is None && form.calibration is None,
        form.config@ == config@,
        form.config_path == path,
{
}

/// An edit makes the form unsaved and newer; another target makes it newer.
pub proof fn edits_make_the_form_newer(
    edited: &mut ConfigModel,
    moved: &mut ConfigModel,
    path: String,
)
    requires
        call_ensures(ConfigModel::mark_dirty, (edited, ), ()),
        call_ensures(ConfigModel::set_path, (moved, path), ()),
    ensures
        final(edited).dirty && final(edited).revision != old(edited).revision,
        final(edited).config == old(edited).config,
        final(moved).config_path == path && final(moved).revision != old(moved).revision,
        final(moved).dirty == old(moved).dirty,
{
}

/// One operation runs at a time: it begins only where none runs, with the target and the state of
/// the form, under a number of its own.
pub proof fn operations_run_one_at_a_time(
    form: &mut ConfigModel,
    kind: TransactionKind,
    captured: Vec<u8>,
    begun: Option<Transaction>,
)
    requires
        call_ensures(ConfigModel::begin, (form, kind, captured), begun),
    ensures
        begun is Some <==> old(form).transaction is None,
        begun is None ==> *final(form) == *old(form),
        begun matches Some(t) ==> {
            &&& t.kind == kind
            &&& t.target@ == old(form).config_path@
            &&& t.revision == old(form).revision
            &&& t.captured == captured
            &&& final(form).transaction matches Some(own) && own.id == t.id
            &&& final(form).next_transaction != t.id
            &&& final(form).dirty == old(form).dirty
        },
{
}

/// A load that completes on the form that it began on replaces the settings, and the form is saved.
pub proof fn completed_loads_replace_the_settings(
    form: &mut ConfigModel,
    t: Transaction,
    config: crate::config::Config,
    outcome: ApplyCompletion,
)
    requires
        call_ensures(
            ConfigModel::finish,
            (form, Completion { transaction: t.id, result: Ok(ConfigValue::Loaded(config)) }),
            outcome,
        ),
        old(form).transaction == Some(t),
        t.kind is Load,
    ensures
        final(form).transaction is None,
        t.revision == old(form).revision && t.target@ == old(form).config_path@ ==> outcome
            is Applied && final(form).config == config && !final(form).dirty,
        t.revision != old(form).revision || t.target@ != old(form).config_path@ ==> outcome is Stale
            && final(form).config == old(form).config && final(form).dirty == old(form).dirty,
{
}

/// A save that completes on the form that it began on leaves the form saved; one that the form has
/// outlived leaves it as it is.
pub proof fn completed_saves_leave_the_form_saved(
    form: &mut ConfigModel,
    t: Transaction,
    outcome: ApplyCompletion,
)
    requires
        call_ensures(
            ConfigModel::finish,
            (form, Completion { transaction: t.id, result: Ok(ConfigValue::Saved) }),
            outcome,
        ),
        old(form).transaction == Some(t),
        t.kind is Save,
    ensures
        final(form).transaction is None,
        final(form).config == old(form).config,
        t.revision == old(form).revision && t.target@ == old(form).config_path@ ==> outcome
            is Applied && !final(form).dirty,
        t.revision != old(form).revision || t.target@ != old(form).config_path@ ==> outcome is Stale
            && final(form).dirty == old(form).dirty,
{
}

/// A failure ends the operation, and a completion of another operation is ignored; neither changes
/// the settings.
pub proof fn failures_change_no_setting(
    form: &mut ConfigModel,
    completion: Completion,
    outcome: ApplyCompletion,
)
    requires
        call_ensures(ConfigModel::finish, (form, completion), outcome),
    ensures
        completion.result is Err ==> final(form).config == old(form).config && final(form).dirty
            == old(form).dirty,
        old(form).transaction matches Some(t) ==> (t.id == completion.transaction
            && completion.result is Err ==> outcome is Failed && final(form).transaction is None),
        old(form).transaction matches Some(t) ==> (t.id != completion.transaction ==> outcome
            is Stale && *final(form) == *old(form)),
        old(form).transaction is None ==> outcome is Stale && *final(form) == *old(form),
{
}

/// One calibration runs at a time, and belongs to the form only while the form is as it was.
pub proof fn calibrations_belong_to_their_form(
    form: &mut ConfigModel,
    begun: Option<CalibrationTransaction>,
    later: &mut ConfigModel,
    t: &CalibrationTransaction,
    owned: bool,
)
    requires
        call_ensures(ConfigModel::begin_calibration, (form, ), begun),
        call_ensures(ConfigModel::finish_calibration, (later, t), owned),
    ensures
        begun is Some <==> old(form).calibration is None,
        begun matches Some(own) ==> final(form).calibration == Some(own.id) && own.revision
            == old(form).revision && own.target@ == old(form).config_path@ && own.duration
                == old(form).config.aim_calibration_duration,
        owned <==> old(later).calibration == Some(t.id) && old(later).revision == t.revision
            && old(later).config_path@ == t.target@,
        old(later).calibration == Some(t.id) ==> final(later).calibration is None,
        final(later).config == old(later).config,
{
}

/// A file is explicit exactly if it is not the usual one.
pub proof fn other_files_are_explicit(form: &ConfigModel, target: &String, r: bool, own: bool)
    requires
        call_ensures(ConfigModel::is_explicit_target, (form, target), r),
        call_ensures(ConfigModel::is_explicit_path, (form, ), own),
    ensures
        r <==> !(form.default_path matches Some(usual) && usual@ == target@),
        own <==> !(form.default_path matches Some(usual) && usual@ == form.config_path@),
{
}

/// The daemon is run by its name where no program is given.
pub proof fn the_daemon_has_a_name(form: &ConfigModel, program: &str)
    requires
        call_ensures(ConfigModel::daemon_program, (form, ), program),
    ensures
        form.daemon_path@.len() == 0 ==> program@ == "wiilandd"@,
{
}

/// A save is prepared first; a load asks the daemon for what it would use; an operation that was
/// cancelled does neither.
pub proof fn operations_begin(task: &mut ConfigTask, step: TaskStep)
    requires
        call_ensures(ConfigTask::begin, (task, ), step),
    ensures
        old(task).cancelled ==> step is Stop && (final(task).completion matches Some(c)
            && c.transaction == old(task).transaction.id && (c.result matches Err(f) && f.stage
            is Cancelled)),
        !old(task).cancelled && old(task).transaction.kind is Save ==> step is Prepare,
        !old(task).cancelled && old(task).transaction.kind is Load
            && old(task).transaction.target@.len() == 0 ==> (step matches TaskStep::Run(args)
                && args@.len() == 1
            && args@[0]@ == "--dump-config"@),
        !old(task).cancelled && old(task).transaction.kind is Load
            && old(task).transaction.target@.len() > 0 && old(task).default_path is None ==> (
        step matches TaskStep::Run(args) && args@.len() == 3 && args@[0]@ == "--dump-config"@
            && args@[1]@ == "--config"@ && args@[2]@ == old(task).transaction.target@),
{
    if let TaskStep::Run(args) = step {
        let texts = process::argument_texts(args@);
        assert(texts.len() == args@.len());
        assert(args@.len() > 0 ==> texts[0] == args@[0]@);
        assert(args@.len() > 1 ==> texts[1] == args@[1]@);
        assert(args@.len() > 2 ==> texts[2] == args@[2]@);
    }
}

/// What is to be saved is checked by the daemon before it is put in place.
pub proof fn saves_are_checked_first(
    task: &mut ConfigTask,
    temporary: String,
    step: TaskStep,
)
    requires
        call_ensures(ConfigTask::prepared, (task, Ok(temporary)), step),
        old(task).transaction.kind is Save,
        !old(task).cancelled,
    ensures
        step matches TaskStep::Run(args) && args@.len() == 3 && args@[0]@ == "--check-config"@
            && args@[1]@ == "--config"@ && args@[2]@ == temporary@,
        final(task).state is Running,
{
    if let TaskStep::Run(args) = step {
        let texts = process::argument_texts(args@);
        assert(texts.len() == args@.len());
        assert(texts[0] == args@[0]@);
        assert(texts[1] == args@[1]@);
        assert(texts[2] == args@[2]@);
    }
}

/// What could not be prepared ends the operation with the reason.
pub proof fn unprepared_saves_fail(task: &mut ConfigTask, error: IoFailure, step: TaskStep)
    requires
        call_ensures(ConfigTask::prepared, (task, Err(error)), step),
    ensures
        step is Stop,
        final(task).completion matches Some(c) && (c.result matches Err(f) && f.stage is Preparation
            && f.message@ == error.message@),
{
}

/// A save is put in place exactly where the daemon accepted it and nobody cancelled; a load is read
/// from what the daemon printed.
pub proof fn accepted_operations_go_on(
    task: &mut ConfigTask,
    result: ProcessResult,
    step: TaskStep,
)
    requires
        call_ensures(ConfigTask::run_process, (task, result), step),
    ensures
        step is Persist <==> result.success && !old(task).cancelled && old(task).transaction.kind
            is Save,
        !(step is Persist) ==> step is Stop && final(task).completion is Some,
        !result.success ==> (final(task).completion matches Some(c) && (c.result matches Err(f) && (
        old(task).transaction.kind is Save ==> f.stage is Validation)
            && (old(task).transaction.kind is Load ==> f.stage is Load))),
        result.success && old(task).cancelled ==> (final(task).completion matches Some(c) && (
        c.result matches Err(f) && f.stage is Cancelled)),
        result.success && !old(task).cancelled && old(task).transaction.kind is Load ==> (
        final(task).completion matches Some(c) && c.transaction == old(task).transaction.id
            && match config_text::parsed("daemon-output"@, result.stdout@) {
            Ok(config) => c.result matches Ok(ConfigValue::Loaded(value)) && value@ == config,
            Err(_) => c.result matches Err(f) && f.stage is Parsing,
        }),
{
}

/// A file that was put in place is saved; a failure to do so is an error of its own.
pub proof fn persisted_files_are_saved(
    task: &mut ConfigTask,
    result: Result<(), IoFailure>,
    step: TaskStep,
)
    requires
        call_ensures(ConfigTask::persisted, (task, result), step),
    ensures
        step is Stop,
        final(task).completion matches Some(c) && c.transaction == old(task).transaction.id && (
        result is Ok <==> c.result == Ok::<ConfigValue, ConfigFailure>(ConfigValue::Saved)) && (
        result matches Err(error) ==> (c.result matches Err(f) && f.stage is Persistence
            && f.message@ == error.message@)),
{
}

/// Output that arrives while sixty-four events wait is left out and counted; any other waits.
pub proof fn output_waits_or_counts(
    task: &mut ConfigTask,
    event: ConfigEvent,
    bytes: usize,
    step: TaskStep,
)
    requires
        call_ensures(ConfigTask::forward_output, (task, event, bytes), step),
    ensures
        old(task).closed ==> step is Stop,
        !old(task).closed && old(task).events@.len() < 64 ==> step is Wait && final(task).events@
            == old(task).events@.push(event) && final(task).omitted == old(task).omitted,
        !old(task).closed && old(task).events@.len() == 64 ==> step is Wait && final(task).events@
            == old(task).events@ && (old(task).omitted + bytes <= usize::MAX
            ==> final(task).omitted == old(task).omitted + bytes),
{
}

/// The events of an operation come in order; what was left out is told before the end, and the end
/// comes last.
pub proof fn the_end_comes_last(
    task: &mut ConfigTask,
    completion: Completion,
    received: Result<ConfigEvent, TryRecvError>,
)
    requires
        call_ensures(ConfigTask::try_recv, (task, ), received),
        old(task).state is Ended,
        old(task).completion == Some(completion),
    ensures
        old(task).events@.len() > 0 ==> received == Ok::<ConfigEvent, TryRecvError>(
            old(task).events@[0],
        ),
        old(task).events@.len() == 0 && old(task).omitted > 0 ==> received == Ok::<
            ConfigEvent,
            TryRecvError,
        >(ConfigEvent::OmittedOutput(old(task).omitted)),
        old(task).events@.len() == 0 && old(task).omitted == 0 ==> received == Ok::<
            ConfigEvent,
            TryRecvError,
        >(ConfigEvent::Finished(completion)),
{
}

/// An operation that waits ends when it was cancelled, and one that lost its process ends.
pub proof fn waiting_operations_can_be_cancelled(
    waiting: &mut ConfigTask,
    a: TaskStep,
    lost: &mut ConfigTask,
    b: TaskStep,
    closed: &mut ConfigTask,
)
    requires
        call_ensures(ConfigTask::waiting, (waiting, ), a),
        call_ensures(ConfigTask::lost, (lost, ), b),
        call_ensures(ConfigTask::close, (closed, ), ()),
    ensures
        a is Stop <==> old(waiting).cancelled,
        !old(waiting).cancelled ==> a is Wait && *final(waiting) == *old(waiting),
        b is Stop && (final(lost).completion matches Some(c) && (c.result matches Err(f) && f.stage
            is Worker)),
        final(closed).cancelled && final(closed).closed,
{
}

/// An operation starts with nothing done.
pub proof fn operations_start_with_nothing_done(
    transaction: Transaction,
    program: String,
    usual: Option<String>,
    task: ConfigTask,
)
    requires
        call_ensures(ConfigTask::spawn, (transaction, program, usual), task),
    ensures
        task.transaction == transaction && task.program == program && task.default_path == usual,
        task.state is Created && task.events@.len() == 0 && task.omitted == 0,
        task.completion is None && !task.cancelled && !task.closed,
{
}

} // verus!
