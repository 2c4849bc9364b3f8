use std::collections::HashMap;

use wiiland::config_task::{ConfigEvent, ConfigTask, TaskStep, EVENT_QUEUE_CAPACITY};
use wiiland::failure::{IoFailure, IoKind};
use wiiland::model::{
    ApplyCompletion, Completion, ConfigFailureStage, ConfigModel, ConfigValue, TransactionKind,
};
use wiiland::process::ProcessResult;
use wiiland::session::TryRecvError;

/// The files of the tests, and what the daemon's run does.
struct World {
    files: HashMap<String, Vec<u8>>,
    output: Vec<Vec<u8>>,
    result: Option<ProcessResult>,
    prepare_fails: bool,
    persist_fails: bool,
    dropped: bool,
}

fn succeeding(stdout: &[u8]) -> ProcessResult {
    ProcessResult {
        success: true,
        code: Some(0),
        stdout: stdout.to_vec(),
        stderr: Vec::new(),
        error: None,
    }
}

fn world(result: ProcessResult) -> World {
    World {
        files: HashMap::new(),
        output: Vec::new(),
        result: Some(result),
        prepare_fails: false,
        persist_fails: false,
        dropped: false,
    }
}

impl World {
    fn run(&mut self, task: &mut ConfigTask) {
        let mut step = task.begin();
        loop {
            step = match step {
                TaskStep::Stop => {
                    self.files.remove("temporary");
                    return;
                }
                TaskStep::Prepare if self.prepare_fails => task
                    .prepared(Err(IoFailure::new(IoKind::NotADirectory, "Not a directory"))),
                TaskStep::Prepare => {
                    self.files.insert("temporary".into(), task.transaction.captured.clone());
                    task.prepared(Ok("temporary".into()))
                }
                TaskStep::Run(_) => task.waiting(),
                TaskStep::Wait if self.dropped => {
                    task.close();
                    task.waiting()
                }
                TaskStep::Wait => match self.output.pop() {
                    Some(bytes) => {
                        let count = bytes.len();
                        task.forward_output(ConfigEvent::Stdout(bytes), count)
                    }
                    None => match self.result.take() {
                        Some(result) => task.run_process(result),
                        None => task.lost(),
                    },
                },
                TaskStep::Persist if self.persist_fails => {
                    task.persisted(Err(IoFailure::new(IoKind::Other, "Is a directory")))
                }
                TaskStep::Persist => {
                    let bytes = self.files.remove("temporary").unwrap();
                    self.files.insert(task.transaction.target.clone(), bytes);
                    task.persisted(Ok(()))
                }
            };
        }
    }
}

fn finish(task: &mut ConfigTask) -> Completion {
    loop {
        match task.try_recv() {
            Ok(ConfigEvent::Finished(completion)) => return completion,
            Ok(_) => {}
            Err(error) => panic!("configuration worker did not finish: {error:?}"),
        }
    }
}

#[test]
fn worker_persists_captured_save_without_ui_polling_and_retains_later_edits() {
    let mut world = world(succeeding(b""));
    let mut model = ConfigModel::new("first/config".into(), None);
    model.config.pointer_speed = 17;
    model.mark_dirty();
    let captured = model.render();
    let transaction = model.begin(TransactionKind::Save, captured.clone()).unwrap();
    let mut task = ConfigTask::spawn(transaction, "/bin/true".into(), None);
    model.config.pointer_speed = 33;
    model.mark_dirty();
    model.set_path("second/config".into());

    world.run(&mut task);
    assert_eq!(world.files["first/config"], captured);
    assert!(!world.files.contains_key("second/config"), "save needed UI polling to complete");
    let completion = finish(&mut task);
    assert!(matches!(completion.result, Ok(ConfigValue::Saved)));
    assert_eq!(model.finish(completion), ApplyCompletion::Stale);
    assert!(model.transaction.is_none());
    assert!(model.dirty);
    assert_eq!(model.config.pointer_speed, 33);
}

#[test]
fn validation_failure_preserves_existing_file_and_releases_transaction() {
    let mut world = world(ProcessResult {
        success: false,
        code: Some(9),
        stdout: Vec::new(),
        stderr: b"invalid configuration".to_vec(),
        error: None,
    });
    world.files.insert("config".into(), b"original".to_vec());
    let mut model = ConfigModel::new("config".into(), None);
    model.mark_dirty();
    let rendered = model.render();
    let transaction = model.begin(TransactionKind::Save, rendered).unwrap();
    let mut task = ConfigTask::spawn(transaction, "daemon".into(), None);
    world.run(&mut task);
    let completion = finish(&mut task);
    let failure = completion.result.as_ref().unwrap_err();
    assert_eq!(failure.stage, ConfigFailureStage::Validation);
    assert_eq!(failure.message, "Daemon command failed (exit Some(9)): invalid configuration");
    assert_eq!(world.files["config"], b"original");
    assert_eq!(model.finish(completion), ApplyCompletion::Failed);
    assert!(model.transaction.is_none());
    assert!(model.dirty);
}

#[test]
fn noisy_validation_persists_with_stalled_ui_and_reports_omitted_log_bytes() {
    let mut world = world(succeeding(b""));
    world.output = vec![vec![0; 8192]; 96];
    let mut model = ConfigModel::new("config".into(), None);
    let captured = model.render();
    let transaction = model.begin(TransactionKind::Save, captured.clone()).unwrap();
    let mut task = ConfigTask::spawn(transaction, "daemon".into(), None);
    world.run(&mut task);
    assert_eq!(world.files["config"], captured);
    assert_eq!(task.events.len(), EVENT_QUEUE_CAPACITY);
    let mut omitted = 0;
    let completion = loop {
        match task.try_recv() {
            Ok(ConfigEvent::OmittedOutput(bytes)) => omitted += bytes,
            Ok(ConfigEvent::Finished(completion)) => break completion,
            Ok(_) => {}
            Err(error) => panic!("save failed: {error:?}"),
        }
    };
    assert!(omitted > 0);
    assert_eq!(omitted, (96 - (EVENT_QUEUE_CAPACITY - 1)) * 8192);
    assert!(matches!(completion.result, Ok(ConfigValue::Saved)));
    assert!(matches!(task.try_recv(), Err(TryRecvError::Disconnected)));
}

#[test]
fn preparation_and_persistence_errors_retain_their_stage_and_cause() {
    for (prepare_fails, stage) in [
        (true, ConfigFailureStage::Preparation),
        (false, ConfigFailureStage::Persistence),
    ] {
        let mut world = world(succeeding(b""));
        world.files.insert("file".into(), b"original".to_vec());
        world.prepare_fails = prepare_fails;
        world.persist_fails = !prepare_fails;
        let mut model = ConfigModel::new("file/config".into(), None);
        let rendered = model.render();
        let transaction = model.begin(TransactionKind::Save, rendered).unwrap();
        let mut task = ConfigTask::spawn(transaction, "/bin/true".into(), None);
        world.run(&mut task);
        let completion = finish(&mut task);
        let failure = completion.result.as_ref().unwrap_err();
        assert_eq!(failure.stage, stage);
        assert!(!failure.message.is_empty());
        assert_eq!(model.finish(completion), ApplyCompletion::Failed);
        assert!(model.transaction.is_none());
        assert_eq!(world.files["file"], b"original");
    }
}

#[test]
fn load_returns_parsed_values_and_stale_completion_preserves_form() {
    let mut world = world(succeeding(b"profile=desktop\npointer-speed=19\n"));
    let mut model = ConfigModel::new("config".into(), None);
    let transaction = model.begin(TransactionKind::Load, Vec::new()).unwrap();
    let mut task = ConfigTask::spawn(transaction, "daemon".into(), None);
    model.config.pointer_speed = 55;
    model.mark_dirty();
    world.run(&mut task);
    let completion = finish(&mut task);
    assert!(
        matches!(&completion.result, Ok(ConfigValue::Loaded(value)) if value.pointer_speed == 19)
    );
    assert_eq!(model.finish(completion), ApplyCompletion::Stale);
    assert_eq!(model.config.pointer_speed, 55);
    assert!(model.dirty);
}

#[test]
fn invalid_load_is_reported_at_parsing_boundary() {
    let mut world = world(succeeding(b"profile=invalid\n"));
    let mut model = ConfigModel::new("config".into(), None);
    let transaction = model.begin(TransactionKind::Load, Vec::new()).unwrap();
    let mut task = ConfigTask::spawn(transaction, "daemon".into(), None);
    world.run(&mut task);
    let completion = finish(&mut task);
    assert_eq!(
        completion.result.as_ref().unwrap_err().stage,
        ConfigFailureStage::Parsing
    );
    assert_eq!(
        completion.result.as_ref().unwrap_err().message,
        "daemon-output: invalid configuration on line 1"
    );
    assert_eq!(model.finish(completion), ApplyCompletion::Failed);
}

#[test]
fn dropping_save_cancels_validation_and_cleans_up_without_persisting() {
    let mut world = world(succeeding(b""));
    world.files.insert("config".into(), b"original".to_vec());
    world.dropped = true;
    let mut model = ConfigModel::new("config".into(), None);
    let rendered = model.render();
    let transaction = model.begin(TransactionKind::Save, rendered).unwrap();
    let mut task = ConfigTask::spawn(transaction, "daemon".into(), None);
    world.run(&mut task);
    let failure = finish(&mut task).result.unwrap_err();
    assert_eq!(failure.stage, ConfigFailureStage::Cancelled);
    assert_eq!(failure.message, "Configuration operation cancelled");
    assert_eq!(world.files.len(), 1);
    assert_eq!(world.files["config"], b"original");
}

#[test]
fn a_save_is_validated_in_a_temporary_file() {
    let mut model = ConfigModel::new("config".into(), None);
    let rendered = model.render();
    let transaction = model.begin(TransactionKind::Save, rendered).unwrap();
    let mut task = ConfigTask::spawn(transaction, "daemon".into(), None);
    assert!(matches!(task.begin(), TaskStep::Prepare));
    assert!(matches!(task.prepared(Ok("temporary".into())), TaskStep::Run(args)
        if args == ["--check-config", "--config", "temporary"]));
    assert!(matches!(task.waiting(), TaskStep::Wait));
}

#[test]
fn output_for_a_consumer_that_is_gone_ends_the_operation() {
    let mut model = ConfigModel::new("config".into(), Some("config".into()));
    let transaction = model.begin(TransactionKind::Load, Vec::new()).unwrap();
    let mut task = ConfigTask::spawn(transaction, "daemon".into(), Some("config".into()));
    assert!(matches!(task.begin(), TaskStep::Run(args) if args == ["--dump-config"]));
    task.close();
    assert!(matches!(
        task.forward_output(ConfigEvent::Stderr(b"x".to_vec()), 1),
        TaskStep::Stop
    ));
    let failure = finish(&mut task).result.unwrap_err();
    assert_eq!(failure.stage, ConfigFailureStage::Cancelled);
    assert_eq!(failure.message, "Configuration consumer closed");
}

#[test]
fn a_runner_that_goes_away_fails_the_operation() {
    let mut model = ConfigModel::new("other".into(), Some("config".into()));
    let transaction = model.begin(TransactionKind::Load, Vec::new()).unwrap();
    let mut task = ConfigTask::spawn(transaction, "daemon".into(), Some("config".into()));
    assert!(matches!(task.begin(), TaskStep::Run(args)
        if args == ["--dump-config", "--config", "other"]));
    task.lost();
    let failure = finish(&mut task).result.unwrap_err();
    assert_eq!(failure.stage, ConfigFailureStage::Worker);
}

#[test]
fn a_failed_load_keeps_the_reason_of_the_runner() {
    let mut world = world(ProcessResult::unavailable("no such program"));
    let mut model = ConfigModel::new("config".into(), None);
    let transaction = model.begin(TransactionKind::Load, Vec::new()).unwrap();
    let mut task = ConfigTask::spawn(transaction, "daemon".into(), None);
    world.run(&mut task);
    let failure = finish(&mut task).result.unwrap_err();
    assert_eq!(failure.stage, ConfigFailureStage::Load);
    assert_eq!(failure.message, "no such program");
}

#[test]
fn ill_formed_error_output_is_shown_as_far_as_it_can_be() {
    let mut world = world(ProcessResult {
        success: false,
        code: None,
        stdout: Vec::new(),
        stderr: vec![b' ', b'a', 0xff, b'\n'],
        error: None,
    });
    let mut model = ConfigModel::new("config".into(), None);
    let transaction = model.begin(TransactionKind::Load, Vec::new()).unwrap();
    let mut task = ConfigTask::spawn(transaction, "daemon".into(), None);
    world.run(&mut task);
    let failure = finish(&mut task).result.unwrap_err();
    assert_eq!(failure.message, "Daemon command failed (exit None): a\u{fffd}");
}
