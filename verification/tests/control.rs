use wiiland::config::{ConfigProblem, Profile, SensorCalibration, Setting};
use wiiland::config_task::{ConfigEvent, TaskStep};
use wiiland::control::ControlCenter;
use wiiland::live::{Query, QueryResult};
use wiiland::model::{ConfigModel, TransactionKind};
use wiiland::process::{
    poll_process, service_query_status, shell_args, ProcessEvent, ProcessResult, ProcessTask,
    ServiceAction,
};
use wiiland::protocol::Status;
use wiiland::validation::{decode_calibration, CalibrationOwnership, CaptureTask, ValidationKind};
use wiiland::window::{CaptureNotice, Confirmation, Discard, SaveNotice, ServiceNote};

fn model(path: &str) -> ConfigModel {
    ConfigModel::new(path.into(), Some("/home/user/.config/wiiland/wiilandd.conf".into()))
}

fn ended(success: bool, code: Option<i32>, stdout: &[u8]) -> ProcessEvent {
    ProcessEvent::Finished(ProcessResult {
        success,
        code,
        stdout: stdout.to_vec(),
        stderr: Vec::new(),
        error: None,
    })
}

#[test]
fn initialization_dispatches_load_and_service_status_together() {
    let mut model = model("/tmp/wiiland-initialization-test.conf");
    model.daemon_path = "/bin/true".to_owned();
    let application = ControlCenter::initialize(model);

    assert!(application.config_task.is_some());
    assert_eq!(
        application.model.transaction.as_ref().map(|transaction| transaction.kind),
        Some(TransactionKind::Load)
    );
    assert_eq!(
        application.service_task.as_ref().map(|(action, _)| action.as_str()),
        Some("is-active")
    );
    assert_eq!(application.model.next_transaction, 1);
    assert!(application.ipc_query.is_some());
    assert_eq!(application.service_status, "Is-active…");
}

#[test]
fn streamed_process_output_reaches_model_before_completion() {
    let mut task = ProcessTask::spawn("/bin/sh".into(), vec!["-c".to_owned()]);
    let mut model = model("/tmp/unused.conf");
    task.send(ProcessEvent::Stdout(b"visible-early".to_vec()));
    let completed = poll_process(&mut task, &mut model).is_some();
    assert!(model.output.as_text().contains("visible-early"));
    assert!(!completed, "output was only made visible after process exit");
    task.send(ProcessEvent::Stderr(b"visible-late".to_vec()));
    task.send(ended(true, Some(0), b""));
    assert!(poll_process(&mut task, &mut model).unwrap().success);
    assert_eq!(model.output.as_text(), "visible-earlyvisible-late");
    task.lost = true;
    assert_eq!(
        poll_process(&mut task, &mut model).unwrap().error.unwrap(),
        "process result channel closed"
    );
}

#[test]
fn direct_calibration_rejects_partial_or_invalid_triples_before_applying() {
    for bytes in [
        b"aim-accel-zero-x=10\n".as_slice(),
        b"aim-accel-zero-x=10\naim-accel-zero-y=no\naim-accel-zero-z=30\n".as_slice(),
        b"# no stable samples\n".as_slice(),
    ] {
        let mut application = ControlCenter::new(model("/tmp/unused-calibration.conf"));
        let before = application.model.config.clone();
        let transaction = application.model.begin_calibration().unwrap();
        application.complete_calibration(
            CalibrationOwnership { transaction, device: String::new() },
            decode_calibration(bytes),
        );
        assert!(application.model.config.same(&before));
        assert!(application.model.begin_calibration().is_some());
    }
}

#[test]
fn calibration_errors_name_the_output() {
    assert_eq!(
        decode_calibration(b"aim-accel-zero-x=no\n").unwrap_err(),
        "calibration-output: invalid configuration on line 1"
    );
    assert_eq!(
        decode_calibration(b"# no stable samples\n").unwrap_err(),
        "Capture returned no complete sensor calibration"
    );
}

#[test]
fn edited_calibration_completion_is_discarded() {
    let mut application = ControlCenter::new(model("/tmp/calibration-edit.conf"));
    let ownership = CalibrationOwnership {
        transaction: application.model.begin_calibration().expect("calibration starts"),
        device: String::new(),
    };
    application.model.config.pointer_speed += 1;
    application.model.mark_dirty();
    let edited = application.model.config.clone();

    application.complete_calibration(
        ownership,
        decode_calibration(b"aim-accel-zero-x=101\naim-accel-zero-y=102\naim-accel-zero-z=103\n"),
    );

    assert!(application.model.config.same(&edited));
}

#[test]
fn retargeted_calibration_completion_is_discarded() {
    let mut application = ControlCenter::new(model("/tmp/calibration-first.conf"));
    let ownership = CalibrationOwnership {
        transaction: application.model.begin_calibration().expect("calibration starts"),
        device: String::new(),
    };
    application.model.set_path("/tmp/calibration-second.conf".into());
    let retargeted = application.model.config.clone();

    application.complete_calibration(
        ownership,
        decode_calibration(
            b"aim-motion-plus-bias-x=11\naim-motion-plus-bias-y=12\naim-motion-plus-bias-z=13\n",
        ),
    );

    assert!(application.model.config.same(&retargeted));
}

#[test]
fn queued_save_restart_runs_after_any_active_service_action() {
    for active_action in [ServiceAction::IsActive, ServiceAction::Stop] {
        let mut application = ControlCenter::new(model("/tmp/service-queue.conf"));
        application.service_program = "/bin/true".into();
        application.dispatch_service_action(active_action);
        application.request_restart_after_save();
        assert_eq!(
            application.pending_service_actions.pending,
            Some(ServiceAction::Restart)
        );
        assert_eq!(application.service_status, "Restart queued…");

        application.poll_service();
        assert_eq!(application.service_task.as_ref().unwrap().0, active_action);
        application.service_task.as_mut().unwrap().1.send(ended(true, Some(0), b"active\n"));
        application.poll_service();

        assert_eq!(
            application.service_task.as_ref().map(|(action, _)| action.as_str()),
            Some("restart"),
            "restart did not dispatch after {active_action:?}"
        );
        assert_eq!(application.pending_service_actions.pending, None);
    }
}

#[test]
fn an_applied_calibration_is_an_unsaved_edit() {
    let mut application = ControlCenter::new(model("/tmp/calibration.conf"));
    application.trace_device = " 1 ".into();
    application.direct_capture = true;
    application.start_calibration();
    let task = application.validation_task.as_mut().unwrap();
    assert_eq!(task.kind, ValidationKind::Calibration);
    match &mut task.process {
        CaptureTask::Direct(process) => {
            assert_eq!(
                process.args,
                [
                    "--calibrate-aim",
                    "--aim-calibration-duration",
                    "5",
                    "--device",
                    "1",
                    "--config",
                    "/tmp/calibration.conf"
                ]
            );
            assert!(process.captures);
            process.send(ended(
                true,
                Some(0),
                b"aim-accel-zero-x=1\naim-accel-zero-y=2\naim-accel-zero-z=3\n",
            ));
        }
        CaptureTask::Daemon(_) => panic!("a direct capture was asked for"),
    }
    application.start_calibration();
    assert_eq!(
        application.status,
        "Wait for the current trace or calibration capture to finish"
    );
    application.poll_validation(0);
    assert_eq!(application.status, "Calibration values applied; save to persist them");
    assert_eq!(
        application.model.config.aim_accel_zero,
        Some(SensorCalibration { x: 1, y: 2, z: 3 })
    );
    assert_eq!(application.model.config.aim_motion_plus_bias, None);
    assert!(application.model.dirty);
}

#[test]
fn a_stopped_capture_applies_nothing() {
    let mut application = ControlCenter::new(model("/tmp/calibration.conf"));
    application.start_calibration();
    assert!(application.can_stop_capture());
    application.stop_capture();
    assert!(!application.can_stop_capture());
    assert_eq!(application.status, "Stopping capture…");
    match &mut application.validation_task.as_mut().unwrap().process {
        CaptureTask::Daemon(capture) => {
            assert!(capture.session().is_cancelled());
            capture.session().complete(Ok(()));
        }
        CaptureTask::Direct(_) => panic!("a capture through the daemon was asked for"),
    }
    application.poll_validation(0);
    assert_eq!(application.status, "Capture stopped");
    assert!(!application.model.dirty);
    assert!(application.model.begin_calibration().is_some());
}

#[test]
fn a_trace_ends_with_its_command() {
    let mut application = ControlCenter::new(model("/tmp/my file.conf"));
    application.direct_capture = true;
    application.trace_profile = Some(Profile::BOTH);
    application.start_trace();
    assert_eq!(
        application.model.output.as_text(),
        "$ wiilandd --dry-run --no-ipc --trace-events=all --verbose --profile both --config \
         '/tmp/my file.conf'\n"
    );
    match &mut application.validation_task.as_mut().unwrap().process {
        CaptureTask::Direct(process) => process.send(ended(false, Some(2), b"")),
        CaptureTask::Daemon(_) => panic!("a direct capture was asked for"),
    }
    application.poll_validation(0);
    assert_eq!(application.status, "Trace failed");
    assert!(application.model.output.as_text().ends_with("Capture process failed (exit Some(2))\n"));
}

fn drive_save(application: &mut ControlCenter) {
    let worker = &mut application.config_task.as_mut().unwrap().worker;
    assert!(matches!(worker.begin(), TaskStep::Prepare));
    assert!(matches!(worker.prepared(Ok("/tmp/t".into())), TaskStep::Run(_)));
    worker.forward_output(ConfigEvent::Stdout(b"checked\n".to_vec()), 8);
    let step = worker.run_process(ProcessResult {
        success: true,
        code: Some(0),
        stdout: Vec::new(),
        stderr: Vec::new(),
        error: None,
    });
    assert!(matches!(step, TaskStep::Persist));
    worker.persisted(Ok(()));
    application.poll_config_task();
}

#[test]
fn only_the_file_of_the_service_restarts_it() {
    let own = "/home/user/.config/wiiland/wiilandd.conf";
    for (path, restarted) in [(own, true), ("/tmp/custom.conf", false)] {
        let mut application = ControlCenter::new(model(path));
        application.model.mark_dirty();
        application.begin_save(true);
        assert_eq!(
            application.status,
            "Validating configuration before save (restart requested)"
        );
        drive_save(&mut application);
        assert_eq!(application.status, "Configuration saved");
        assert!(!application.model.dirty);
        assert_eq!(application.service_task.is_some(), restarted);
        assert!(application.model.output.as_text().contains("checked\n"));
    }
}

#[test]
fn an_overtaken_save_leaves_the_edits() {
    let mut application = ControlCenter::new(model("/tmp/custom.conf"));
    application.begin_save(false);
    application.model.config.pointer_speed = 33;
    application.model.mark_dirty();
    drive_save(&mut application);
    assert_eq!(
        application.status,
        "Captured configuration saved; newer edits or target remain unchanged"
    );
    assert!(application.model.dirty);
}

#[test]
fn a_form_that_cannot_be_saved_is_not() {
    let mut application = ControlCenter::new(model("/tmp/custom.conf"));
    application.model.config.pointer_speed = 0;
    application.begin_save(false);
    assert_eq!(application.status, "Configuration has validation errors");
    assert_eq!(
        application.save_bar().notice,
        SaveNotice::Problem(ConfigProblem::OutOfRange(Setting::PointerSpeed))
    );
    application.model.config.pointer_speed = 1;
    application.model.config_path = String::new();
    application.begin_save(false);
    assert_eq!(application.status, "Choose a configuration target");
    assert_eq!(application.save_bar().notice, SaveNotice::NoTarget);
    assert!(application.config_task.is_none());
}

#[test]
fn a_worker_that_goes_away_fails_the_load() {
    let mut application = ControlCenter::new(model("/tmp/custom.conf"));
    application.begin_load();
    let worker = &mut application.config_task.as_mut().unwrap().worker;
    worker.close();
    worker.begin();
    while worker.try_recv().is_ok() {}
    application.poll_config_task();
    assert_eq!(
        application.status,
        "Configuration operation failed: Configuration worker disconnected"
    );
    assert!(application.output_open);
    assert!(application.model.transaction.is_none());
}

#[test]
fn commands_report_how_they_ended() {
    let mut application = ControlCenter::new(model("/tmp/custom.conf"));
    application.run_command(vec!["--doctor".into()], true);
    assert_eq!(application.status, "Command running");
    assert_eq!(
        application.model.output.as_text(),
        "$ wiilandd --doctor --config /tmp/custom.conf\n"
    );
    application.command_task.as_mut().unwrap().send(ended(false, Some(3), b""));
    application.poll_command();
    assert_eq!(application.status, "Command failed (exit 3)");
    application.run_command(vec!["--axis-map".into()], false);
    application.command_task.as_mut().unwrap().lost = true;
    application.poll_command();
    assert_eq!(application.status, "Command failed (exit unknown)");
    assert!(application
        .model
        .output
        .as_text()
        .ends_with("process error: process result channel closed\n"));
    application.run_command(vec!["--list".into(), "--verbose".into()], false);
    assert!(application.command_task.is_none());
    assert!(!application.ipc_query.as_ref().unwrap().is_status());
}

#[test]
fn the_service_is_asked_after_a_change() {
    let mut application = ControlCenter::new(model("/tmp/custom.conf"));
    application.service_action(ServiceAction::Start);
    application.service_action(ServiceAction::Stop);
    assert_eq!(application.service_task.as_ref().unwrap().0, ServiceAction::Start);
    application.service_task.as_mut().unwrap().1.send(ended(true, Some(0), b""));
    application.poll_service();
    assert_eq!(application.status, "Service start succeeded");
    assert_eq!(application.service_task.as_ref().unwrap().0, ServiceAction::IsActive);
    application.service_task.as_mut().unwrap().1.send(ended(true, Some(0), b"active\n"));
    application.poll_service();
    assert_eq!(application.service_status, "Running");
    assert_eq!(application.service_card().note, ServiceNote::Running);
    assert_eq!(application.service_card().primary, ServiceAction::Restart);
    application.service_action(ServiceAction::Restart);
    application.service_task.as_mut().unwrap().1.send(ended(false, Some(1), b""));
    application.poll_service();
    assert_eq!(application.service_status, "Unavailable");
    assert_eq!(application.status, "Service restart failed · see activity log");
    assert!(application.service_card().warning);
}

#[test]
fn service_answers_are_read_strictly() {
    let answer = |success, code, stdout: &[u8]| {
        service_query_status(&ProcessResult {
            success,
            code,
            stdout: stdout.to_vec(),
            stderr: Vec::new(),
            error: None,
        })
    };
    assert_eq!(answer(true, Some(0), b"active\n"), "Running");
    assert_eq!(answer(false, Some(0), b"active\n"), "Unavailable");
    assert_eq!(answer(false, Some(3), b"inactive\n"), "Stopped");
    assert_eq!(answer(false, Some(3), b"failed\n"), "Failed");
    assert_eq!(answer(false, Some(4), b"failed\n"), "Unavailable");
    assert_eq!(answer(false, Some(3), b"activating"), "Starting");
    assert_eq!(answer(false, Some(3), b"deactivating"), "Stopping");
    assert_eq!(answer(true, Some(0), &[0xff]), "Unavailable");
}

#[test]
fn arguments_with_spaces_are_quoted() {
    let args: Vec<String> = vec!["a".into(), "it's b".into(), "c'd".into()];
    assert_eq!(shell_args(&args), "a 'it'\\''s b' c'd");
    assert_eq!(shell_args(&Vec::new()), "");
}

#[test]
fn unsaved_edits_are_not_lost_without_a_confirmation() {
    let mut application = ControlCenter::new(model("/tmp/custom.conf"));
    assert!(!application.request_close());
    assert!(!application.shortcut_saves());
    application.model.mark_dirty();
    assert!(application.shortcut_saves());
    application.request_reload();
    assert_eq!(application.confirmation(), Some(Confirmation::Reload));
    assert!(!application.shortcut_saves());
    assert!(application.request_close());
    assert_eq!(application.confirmation(), Some(Confirmation::Close));
    application.keep_editing();
    assert_eq!(application.confirmation(), None);
    application.request_reload();
    assert_eq!(application.discard_changes(), Discard::Reload);
    assert!(application.config_task.is_some());
    assert!(application.request_close());
    assert_eq!(application.discard_changes(), Discard::Close);
    assert!(!application.request_close());
}

#[test]
fn the_window_follows_the_state() {
    let own = "/home/user/.config/wiiland/wiilandd.conf";
    let mut application = ControlCenter::new(model(own));
    assert_eq!(application.repaint_delay(), 250);
    assert!(!application.is_occupied());
    assert_eq!(application.capture_notice(), CaptureNotice::Nothing);
    assert_eq!(application.save_bar().notice, SaveNotice::ServiceFile);
    assert!(application.save_bar().can_restart);
    application.model.mark_dirty();
    assert_eq!(application.capture_notice(), CaptureNotice::UnsavedDaemon);
    application.direct_capture = true;
    assert_eq!(application.capture_notice(), CaptureNotice::UnsavedDirect);
    application.direct_capture = false;
    application.model.set_path("/tmp/other".into());
    assert_eq!(application.capture_notice(), CaptureNotice::CustomFile);
    assert_eq!(application.save_bar().notice, SaveNotice::CustomFile);
    assert!(!application.save_bar().can_restart);
    assert!(application.save_bar().can_save);
    application.refresh_daemon_status();
    assert_eq!(application.repaint_delay(), 40);
}

#[test]
fn answers_of_the_daemon_reach_the_log() {
    let mut application = ControlCenter::new(model("/tmp/custom.conf"));
    application.poll_query();
    let mut query = Query::start(false);
    query.complete(Ok(QueryResult::Status {
        status: Status {
            daemon_version: "2".into(),
            pid: 9,
            device_count: 0,
            dry_run: false,
            socket_path: String::new(),
        },
        diagnostics: wiiland::protocol::Diagnostics {
            trace_records_dropped: 0,
            lifecycle_records_dropped: 0,
            max_pointer_lateness_us: 0,
            max_dispatch_duration_us: 0,
        },
        config: String::new(),
    }));
    application.ipc_query = Some(query);
    application.poll_query();
    assert_eq!(application.daemon_status, "wiilandd 2 (pid 9): 0 device(s)");
    assert!(application.ipc_query.is_none());
    let mut query = Query::start(false);
    query.complete(Err(wiiland::client::ClientError::PrematureEof));
    application.ipc_query = Some(query);
    application.poll_query();
    assert_eq!(application.daemon_status, "Daemon unavailable · see activity log");
    assert!(application.model.output.as_text().ends_with(
        "Cannot query running daemon: IPC peer closed the connection. Start or upgrade the service \
         and retry.\n"
    ));
}

#[test]
fn output_that_is_no_text_is_shown_as_far_as_it_is() {
    let mut task = ProcessTask::spawn("/bin/true".into(), Vec::new());
    task.send(ProcessEvent::Stdout(vec![b'a', 0xff, b'b']));
    task.send(ProcessEvent::Stderr("ä".as_bytes().to_vec()));
    let mut model = model("/tmp/unused.conf");
    assert!(poll_process(&mut task, &mut model).is_none());
    assert_eq!(model.output.as_text(), "a\u{fffd}bä");
}
