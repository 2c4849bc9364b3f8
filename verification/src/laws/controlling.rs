//! The control center: what it starts, what it waits for, and what an ending changes.
use crate::config::Profile;
use crate::control::{self, ControlCenter, PendingServiceActions};
use crate::live::QueryResult;
use crate::model::{Completion, ConfigModel, ConfigValue, Transaction};
use crate::process::{self, End, ProcessTask, ServiceAction};
use crate::validation::{CalibrationOwnership, CalibrationResult, CaptureTask, ValidationTask};
use vstd::prelude::*;
use vstd::string::*;

verus! {

/// The center starts by loading the configuration and asking for the service and the daemon.
pub proof fn the_center_starts_by_loading(form: ConfigModel, center: ControlCenter)
    requires
        call_ensures(ControlCenter::initialize, (form, ), center),
    ensures
        center.config_task matches Some(pending) && pending.worker.transaction.kind is Load
            && pending.worker.transaction.target@ == form.config_path@,
        center.service_task matches Some((action, _)) && action is IsActive,
        center.ipc_query matches Some(query) && !query@.devices,
        center.command_task is None && center.validation_task is None,
        center.model.config == form.config && center.model.dirty == form.dirty,
{
}

/// A load begins where nothing is running, and changes no setting.
pub proof fn loads_begin_where_nothing_runs(center: &mut ControlCenter)
    requires
        call_ensures(ControlCenter::begin_load, (center, ), ()),
    ensures
        old(center).config_task is Some || old(center).model.transaction is Some ==> *final(center)
            == *old(center),
        old(center).config_task is None && old(center).model.transaction is None ==> (
        final(center).config_task matches Some(pending) && pending.worker.transaction.kind is Load
            && !pending.restart_after_save && pending.worker.transaction.target@
                == old(center).model.config_path@ && pending.worker.transaction.revision
                    == old(center).model.revision),
        final(center).model.config == old(center).model.config,
        final(center).model.dirty == old(center).model.dirty,
{
}

/// A save begins exactly where nothing is running, the form is valid and there is a target; it
/// captures the form as it is.
pub proof fn saves_begin_with_a_valid_form(center: &mut ControlCenter, restart: bool)
    requires
        call_ensures(ControlCenter::begin_save, (center, restart), ()),
    ensures
        old(center).config_task is None && old(center).model.transaction is None
            && old(center).model.config@.valid() && old(center).model.config_path@.len() > 0 ==> (
        final(center).config_task matches Some(pending) && pending.worker.transaction.kind is Save
            && pending.restart_after_save == restart && pending.worker.transaction.target@
                == old(center).model.config_path@ && pending.worker.transaction.captured@
                    == vstd::utf8::encode_utf8(
            crate::config_text::rendered(old(center).model.config@),
        )),
        !old(center).model.config@.valid() || old(center).model.config_path@.len() == 0
            ==> final(center).config_task == old(center).config_task && final(center).model
                == old(center).model,
        final(center).model.config == old(center).model.config,
{
}

/// A save that was applied restarts the service where that was asked for and the service reads the
/// file; nothing else does.
pub proof fn applied_saves_restart_the_service(
    before: ControlCenter,
    after: ControlCenter,
    transaction: Transaction,
    restart: bool,
    blocks: Seq<Seq<char>>,
    completion: Completion,
)
    requires
        after.completed(before, transaction, restart, blocks, completion),
        before.service_task is None,
    ensures
        restart && transaction.kind is Save && (before.model.default_path matches Some(usual)
            && usual@ == transaction.target@) && before.model.outcome(completion) is Applied ==> (
        after.service_task matches Some((action, _)) && action is Restart),
        !restart || transaction.kind is Load || !(before.model.outcome(completion) is Applied)
            ==> after.service_task is None,
        !(before.model.default_path matches Some(usual) && usual@ == transaction.target@)
            ==> after.service_task is None,
{
}

/// An operation that ended is over: its settings are taken where it was applied, and kept where it
/// was not; a failure opens the log.
pub proof fn ended_operations_are_over(
    before: ControlCenter,
    after: ControlCenter,
    transaction: Transaction,
    restart: bool,
    blocks: Seq<Seq<char>>,
    completion: Completion,
)
    requires
        after.completed(before, transaction, restart, blocks, completion),
    ensures
        after.config_task is None,
        before.model.outcome(completion) is Applied ==> !after.model.dirty && (
        completion.result matches Ok(ConfigValue::Loaded(config)) ==> after.model.config == config),
        !(before.model.outcome(completion) is Applied) ==> after.model.dirty == before.model.dirty
            && after.model.config == before.model.config,
        before.model.outcome(completion) is Failed ==> after.output_open,
        after.validation_task == before.validation_task,
        after.command_task == before.command_task,
{
}

/// A restart that is asked for while the service is busy waits, and is made at once otherwise.
pub proof fn restarts_wait_for_the_service(
    actions: &mut PendingServiceActions,
    busy: bool,
    now: Option<ServiceAction>,
    later: &mut PendingServiceActions,
    next: Option<ServiceAction>,
)
    requires
        call_ensures(PendingServiceActions::request_restart, (actions, busy), now),
        *old(later) == *final(actions),
        call_ensures(PendingServiceActions::after_completion, (later, ), next),
    ensures
        busy ==> now is None && next == Some(ServiceAction::Restart),
        !busy ==> now == Some(ServiceAction::Restart) && next is None,
        final(later).pending is None,
{
}

/// One action on the service runs at a time; it runs the service manager with the words of the
/// action, and its output is read only for a query.
pub proof fn service_actions_run_one_at_a_time(center: &mut ControlCenter, action: ServiceAction)
    requires
        call_ensures(ControlCenter::service_action, (center, action), ()),
    ensures
        old(center).service_task is Some ==> *final(center) == *old(center),
        old(center).service_task is None ==> (final(center).service_task matches Some((own, task))
            && own == action && task.program@ == old(center).service_program@ && task.captures == (
        action is IsActive)),
        final(center).model.config == old(center).model.config,
{
}

/// After an action on the service what waits is made, and else the service is asked how it is; after
/// a failure and after a query nothing is.
pub proof fn the_service_is_asked_after_an_action(
    center: ControlCenter,
    action: ServiceAction,
    end: End,
)
    ensures
        center.pending_service_actions.pending matches Some(next) ==> center.next_service_action(
            action,
            end,
        ) == Some(next),
        center.pending_service_actions.pending is None ==> {
            &&& (action is Start || action is Stop || action is Restart) && end.success
                ==> center.next_service_action(action, end) == Some(ServiceAction::IsActive)
            &&& action is IsActive || !end.success ==> center.next_service_action(action, end)
                is None
        },
{
}

/// What the service answered is shown; an action that failed makes it unavailable.
pub proof fn service_answers_are_shown(center: ControlCenter, action: ServiceAction, end: End)
    ensures
        action is IsActive ==> center.service_status_after(action, end) == process::service_state(
            end,
        ),
        !(action is IsActive) && !end.success ==> center.service_status_after(action, end)
            == "Unavailable"@,
        !(action is IsActive) && end.success ==> center.service_status_after(action, end)
            == center.service_status@,
{
}

/// A service action that has ended frees the service, unless another follows.
pub proof fn ended_service_actions_free_the_service(
    center: &mut ControlCenter,
    action: ServiceAction,
    task: ProcessTask,
)
    requires
        call_ensures(ControlCenter::poll_service, (center, ), ()),
        old(center).service_task == Some((action, task)),
    ensures
        process::task_end(task.events@, task.lost) matches Some(end) ==> {
            &&& final(center).pending_service_actions.pending is None
            &&& old(center).next_service_action(action, end) is None ==> final(center).service_task
                is None
            &&& old(center).next_service_action(action, end) matches Some(next) ==> (
            final(center).service_task matches Some((own, _)) && own == next)
        },
        process::task_end(task.events@, task.lost) is None ==> (
        final(center).service_task matches Some((own, _)) && own == action),
        final(center).model.config == old(center).model.config,
{
}

/// A command runs where none does; a list of devices is asked of the daemon instead.
pub proof fn commands_run_one_at_a_time(
    center: &mut ControlCenter,
    args: Vec<String>,
    sensitive: bool,
)
    requires
        call_ensures(ControlCenter::run_command, (center, args, sensitive), ()),
    ensures
        args@.len() > 0 && args@[0]@ == "--list"@ ==> final(center).command_task
            == old(center).command_task && final(center).ipc_query is Some
                && final(center).output_open,
        !(args@.len() > 0 && args@[0]@ == "--list"@) ==> {
            &&& old(center).command_task is Some ==> *final(center) == *old(center)
            &&& old(center).command_task is None ==> final(center).command_task is Some
                && final(center).output_open
            &&& old(center).command_task is None && !sensitive ==> (
            final(center).command_task matches Some(task) && task.args@.len() == args@.len())
        },
        final(center).model.config == old(center).model.config,
{
    if let Some(task) = final(center).command_task {
        assert(process::argument_texts(task.args@).len() == task.args@.len());
        assert(process::argument_texts(args@).len() == args@.len());
    }
}

/// A command that has ended is over, and its outcome is told.
pub proof fn ended_commands_are_told(center: &mut ControlCenter, task: ProcessTask)
    requires
        call_ensures(ControlCenter::poll_command, (center, ), ()),
        old(center).command_task == Some(task),
    ensures
        process::task_end(task.events@, task.lost) matches Some(end) ==> final(center).command_task
            is None && (end.success <==> final(center).status@ == "Command succeeded"@),
        process::task_end(task.events@, task.lost) is None ==> final(center).command_task is Some
            && final(center).status == old(center).status,
{
    reveal_strlit("Command succeeded");
    reveal_strlit("Command failed (exit ");
    if let Some(end) = process::task_end(task.events@, task.lost) {
        if !end.success {
            assert(final(center).status@[8] == "Command failed (exit "@[8]);
            assert("Command succeeded"@[8] == 's');
        }
    }
}

/// A trace and a calibration start where no capture runs, with nothing asked to stop.
pub proof fn captures_start_one_at_a_time(traced: &mut ControlCenter, measured: &mut ControlCenter)
    requires
        call_ensures(ControlCenter::start_trace, (traced, ), ()),
        call_ensures(ControlCenter::start_calibration, (measured, ), ()),
    ensures
        old(traced).validation_task is None ==> (final(traced).validation_task matches Some(task)
            && task.kind is Trace && !task.cancel_requested && task.calibration is None && (
        task.process is Direct <==> old(traced).direct_capture)),
        old(traced).validation_task is Some ==> final(traced).validation_task
            == old(traced).validation_task,
        old(measured).validation_task is None && old(measured).model.calibration is None ==> (
        final(measured).validation_task matches Some(task) && task.kind is Calibration
            && !task.cancel_requested && (task.calibration matches Some(own)
            && final(measured).model.calibration == Some(own.transaction.id)
            && own.transaction.revision == old(measured).model.revision && own.transaction.target@
            == old(measured).model.config_path@) && (task.process is Direct
                <==> old(measured).direct_capture)),
        old(measured).validation_task is Some || old(measured).model.calibration is Some
            ==> final(measured).validation_task == old(measured).validation_task
            && final(measured).model == old(measured).model,
        final(measured).model.config == old(measured).model.config,
{
}

/// The words that name a file which is not the usual one.
pub open spec fn file_words(form: ConfigModel) -> Seq<Seq<char>> {
    if form.config_path@.len() == 0 || (form.default_path matches Some(usual) && usual@
        == form.config_path@) {
        Seq::empty()
    } else {
        seq!["--config"@, form.config_path@]
    }
}

/// The words that name a device, where one was entered.
pub open spec fn device_words(center: ControlCenter) -> Seq<Seq<char>> {
    let device = crate::text::trimmed(center.trace_device@);
    if device.len() == 0 {
        Seq::empty()
    } else {
        seq!["--device"@, device]
    }
}

/// The words that name a profile, where one was chosen.
pub open spec fn profile_words(center: ControlCenter) -> Seq<Seq<char>> {
    match center.trace_profile {
        None => Seq::empty(),
        Some(Profile::Gamepad) => seq!["--profile"@, "gamepad"@],
        Some(Profile::Desktop) => seq!["--profile"@, "desktop"@],
        Some(Profile::Both) => seq!["--profile"@, "both"@],
    }
}

/// A trace of its own runs the daemon dry, without its socket, with the filter, the profile, the
/// device and the file that were chosen; a calibration runs it for so many seconds.
pub proof fn direct_captures_run_the_daemon(
    traced: &mut ControlCenter,
    measured: &mut ControlCenter,
)
    requires
        call_ensures(ControlCenter::start_trace, (traced, ), ()),
        call_ensures(ControlCenter::start_calibration, (measured, ), ()),
        old(traced).direct_capture,
        old(measured).direct_capture,
        old(traced).validation_task is None,
        old(measured).validation_task is None,
        old(measured).model.calibration is None,
    ensures
        final(traced).validation_task matches Some(task) && (
        task.process matches CaptureTask::Direct(p) && !p.captures && process::argument_texts(
            p.args@,
        ) == seq![
            "--dry-run"@,
            "--no-ipc"@,
            "--trace-events="@ + old(traced).trace_filter@,
            "--verbose"@,
        ] + profile_words(*old(traced)) + device_words(*old(traced)) + file_words(
            old(traced).model,
        )),
        final(measured).validation_task matches Some(task) && (
        task.process matches CaptureTask::Direct(p) && p.captures
            && process::argument_texts(p.args@)
            == seq![
            "--calibrate-aim"@,
            "--aim-calibration-duration"@,
            crate::text::signed_decimal(
                old(measured).model.config.aim_calibration_duration as int,
            ),
        ] + device_words(*old(measured)) + file_words(old(measured).model)),
{
    let a = seq![
        "--dry-run"@,
        "--no-ipc"@,
        "--trace-events="@ + old(traced).trace_filter@,
        "--verbose"@,
    ] + profile_words(*old(traced)) + device_words(*old(traced));
    assert(old(traced).trace_args() =~= a + file_words(old(traced).model));
    let b = seq![
        "--calibrate-aim"@,
        "--aim-calibration-duration"@,
        crate::text::signed_decimal(old(measured).model.config.aim_calibration_duration as int),
    ] + device_words(*old(measured));
    assert(old(measured).calibration_args() =~= b + file_words(old(measured).model));
}

/// A calibration takes as many seconds as the settings say, in thousandths.
pub proof fn calibrations_take_their_time(seconds: i32)
    ensures
        seconds >= 0 ==> control::capture_time(seconds) == seconds * 1000,
{
}

/// A capture that is stopped is asked to, and goes on until it ends.
pub proof fn captures_are_asked_to_stop(center: &mut ControlCenter, task: ValidationTask)
    requires
        call_ensures(ControlCenter::stop_capture, (center, ), ()),
        old(center).validation_task == Some(task),
    ensures
        final(center).validation_task matches Some(own) && own.cancel_requested && own.kind
            == task.kind && own.calibration == task.calibration,
        final(center).model == old(center).model,
{
}

/// A calibration is applied exactly where the form, the target and the device are as they were: what
/// was measured replaces what was set, and the rest is kept.
pub proof fn calibrations_are_applied(
    center: &mut ControlCenter,
    own: CalibrationOwnership,
    value: CalibrationResult,
)
    requires
        call_ensures(ControlCenter::complete_calibration, (center, own, Ok(value)), ()),
    ensures
        ({
            let current = old(center).model.calibration == Some(own.transaction.id)
                && own.transaction.revision == old(center).model.revision
                && own.transaction.target@ == old(center).model.config_path@ && own.device@
                == crate::text::trimmed(old(center).trace_device@);
            &&& current ==> final(center).model.dirty
            &&& current ==> (value.accel is Some ==> final(center).model.config.aim_accel_zero
                == value.accel)
            &&& current ==> (value.accel is None ==> final(center).model.config.aim_accel_zero
                == old(center).model.config.aim_accel_zero)
            &&& current ==> (value.motion_plus is Some
                ==> final(center).model.config.aim_motion_plus_bias == value.motion_plus)
            &&& current ==> (value.motion_plus is None
                ==> final(center).model.config.aim_motion_plus_bias
                    == old(center).model.config.aim_motion_plus_bias)
            &&& current ==> final(center).model.config.profile == old(center).model.config.profile
            &&& !current ==> final(center).model.config == old(center).model.config
                && final(center).model.dirty == old(center).model.dirty
        }),
{
}

/// A calibration that failed changes no setting.
pub proof fn failed_calibrations_change_nothing(
    center: &mut ControlCenter,
    own: CalibrationOwnership,
    reason: String,
)
    requires
        call_ensures(
            ControlCenter::complete_calibration,
            (center, own, Err::<CalibrationResult, String>(reason)),
            (),
        ),
    ensures
        final(center).model.config == old(center).model.config,
        final(center).model.dirty == old(center).model.dirty,
        final(center).status@ == "Calibration failed"@,
        old(center).model.calibration == Some(own.transaction.id)
            ==> final(center).model.calibration is None,
{
}

/// Loading again asks first where there are changes.
pub proof fn reloading_asks_about_changes(center: &mut ControlCenter)
    requires
        call_ensures(ControlCenter::request_reload, (center, ), ()),
    ensures
        old(center).model.dirty ==> final(center).reload_confirmation && final(center).config_task
            == old(center).config_task,
        !old(center).model.dirty && old(center).config_task is None
            && old(center).model.transaction is None ==> final(center).config_task is Some
            && final(center).reload_confirmation == old(center).reload_confirmation,
        final(center).model.config == old(center).model.config,
{
}

/// The daemon is asked where no question is open.
pub proof fn the_daemon_is_asked_once(center: &mut ControlCenter)
    requires
        call_ensures(ControlCenter::refresh_daemon_status, (center, ), ()),
    ensures
        old(center).ipc_query is Some ==> *final(center) == *old(center),
        old(center).ipc_query is None ==> (final(center).ipc_query matches Some(query)
            && !query@.devices && query@.answer is None),
{
}

/// An answer ends the question, and the state of the daemon is shown.
pub proof fn answers_end_the_question(center: &mut ControlCenter, query: crate::live::Query)
    requires
        call_ensures(ControlCenter::poll_query, (center, ), ()),
        old(center).ipc_query == Some(query),
    ensures
        final(center).ipc_query is None <==> query@.answer is Some,
        query@.answer matches Some(Ok(QueryResult::Status { status, .. }))
            ==> final(center).daemon_status@ == "wiilandd "@ + status.daemon_version@ + " (pid "@
            + crate::text::decimal(status.pid as nat) + "): "@ + crate::text::decimal(
            status.device_count as nat,
        ) + " device(s)"@,
        query@.answer is None ==> final(center).daemon_status == old(center).daemon_status,
        final(center).model.config == old(center).model.config,
{
}

/// A capture that has not ended goes on; one that has ended is over.
pub proof fn captures_are_polled(center: &mut ControlCenter, now: u64, task: ValidationTask)
    requires
        call_ensures(ControlCenter::poll_validation, (center, now), ()),
        old(center).validation_task == Some(task),
    ensures
        final(center).validation_task is Some <==> task.process@.end(now) is None,
        task.cancel_requested || task.kind is Trace ==> final(center).model.config == old(center).model.config && final(center).model.dirty == old(center).model.dirty,
        task.process@.end(now) matches Some(end) ==> (!end.success ==> final(center).model.config
            == old(center).model.config),
{
}

/// A restart that is asked for after a save runs at once where the service is free.
pub proof fn restarts_run_where_the_service_is_free(center: &mut ControlCenter)
    requires
        call_ensures(ControlCenter::request_restart_after_save, (center, ), ()),
    ensures
        old(center).service_task is None ==> (final(center).service_task matches Some((action, _))
            && action is Restart) && final(center).pending_service_actions.pending is None,
        old(center).service_task is Some ==> final(center).service_task == old(center).service_task
            && final(center).pending_service_actions.pending == Some(ServiceAction::Restart),
{
}

} // verus!
