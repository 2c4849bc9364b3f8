use wiiland::client::ClientError;
use wiiland::config::{Config, Profile};
use wiiland::live::{format_input_line, Capture, Query, QueryResult};
use wiiland::model::ConfigModel;
use wiiland::process::ProcessResult;
use wiiland::protocol::{
    Axis3, ButtonEvent, DeviceInfo, Diagnostics, InputPayload, Notification, RemovalReason, Status,
    Timestamp,
};
use wiiland::session::{Session, SessionEvent};
use wiiland::trace::TraceFilter;

fn device() -> DeviceInfo {
    DeviceInfo {
        syspath: "/sys/test".into(),
        profile: Profile::Desktop,
        opened_interfaces: 0x103,
        pending_interfaces: 0,
        gamepad_output: false,
        desktop_output: true,
    }
}

fn status() -> Status {
    Status {
        daemon_version: "test".into(),
        pid: 1,
        device_count: 1,
        dry_run: true,
        socket_path: String::new(),
    }
}

fn input(sequence: u64, payload: InputPayload) -> SessionEvent {
    SessionEvent::Notification(Notification::Input {
        sequence,
        syspath: device().syspath,
        timestamp: Timestamp { seconds: 0, micros: sequence as u32 },
        payload,
    })
}

fn calibration_capture(interrupted: bool) -> ProcessResult {
    let mut capture = Capture::with_session(
        Session::start(Some("capture.sock".into()), "1".into(), true),
        TraceFilter::All,
        Some(30),
    );
    let mut model = ConfigModel::new("config".into(), None);
    let session = capture.session();
    session.send(SessionEvent::Connected { status: status(), devices: vec![device()] }).unwrap();
    for sequence in 0..32 {
        let axis = Axis3 { x: 10, y: 20, z: 30 };
        let payload = if sequence % 2 == 0 {
            InputPayload::Accel(axis)
        } else {
            InputPayload::MotionPlus(axis)
        };
        session.send(input(sequence, payload)).unwrap();
    }
    if interrupted {
        session
            .send(SessionEvent::Notification(Notification::DeviceRemoved {
                sequence: 32,
                syspath: device().syspath,
                reason: RemovalReason::Gone,
            }))
            .unwrap();
    }
    assert!(capture.poll(100, &mut model).is_none());
    assert_eq!(capture.session().is_cancelled(), interrupted);
    assert!(capture.poll(130, &mut model).is_none());
    assert!(capture.session().is_cancelled());
    capture.session().complete(Ok(()));
    assert_eq!(
        model.output.as_text(),
        "Connected to wiilandd test (pid 1), 1 capture device(s)\n"
    );
    capture.poll(135, &mut model).expect("capture did not finish")
}

#[test]
fn daemon_samples_produce_independent_complete_calibration_triples() {
    let result = calibration_capture(false);
    assert!(result.success, "{:?}", result.error);
    let parsed = Config::parse_bytes("capture", &result.stdout).unwrap();
    assert_eq!(parsed.aim_accel_zero.unwrap().x, 10);
    assert_eq!(parsed.aim_motion_plus_bias.unwrap().z, 30);
}

#[test]
fn device_loss_rejects_even_a_previously_stable_capture() {
    let result = calibration_capture(true);
    assert!(!result.success);
    assert!(result.stdout.is_empty());
    assert_eq!(result.error.unwrap(), "Device disconnected: /sys/test");
}

fn calibrate(payloads: Vec<InputPayload>) -> ProcessResult {
    let mut capture = Capture::start(String::new(), TraceFilter::All, Some(1));
    let mut model = ConfigModel::new("config".into(), None);
    for (sequence, payload) in payloads.into_iter().enumerate() {
        capture.session().send(input(sequence as u64, payload)).unwrap();
    }
    capture.session().complete(Ok(()));
    capture.poll(0, &mut model).unwrap()
}

#[test]
fn unsteady_or_few_samples_give_no_calibration() {
    let still = Axis3 { x: -7, y: 0, z: 5 };
    let few = calibrate(vec![InputPayload::Accel(still); 7]);
    assert_eq!(
        few.error.unwrap(),
        "No stable sensor samples; keep the controller still and capture again"
    );
    let enough = calibrate(vec![InputPayload::Accel(still); 8]);
    assert_eq!(
        String::from_utf8(enough.stdout).unwrap(),
        "aim-accel-zero-x=-7\naim-accel-zero-y=0\naim-accel-zero-z=5\n"
    );
    let mut moving = vec![InputPayload::MotionPlus(still); 8];
    moving.push(InputPayload::MotionPlus(Axis3 { x: 58, y: 0, z: 5 }));
    assert!(!calibrate(moving).success);
}

#[test]
fn the_mean_is_rounded_towards_zero() {
    let mut samples = vec![InputPayload::Accel(Axis3 { x: -1, y: 1, z: 3 }); 7];
    samples.push(InputPayload::Accel(Axis3 { x: 0, y: 0, z: 4 }));
    assert_eq!(
        String::from_utf8(calibrate(samples).stdout).unwrap(),
        "aim-accel-zero-x=0\naim-accel-zero-y=0\naim-accel-zero-z=3\n"
    );
}

#[test]
fn a_change_of_the_interfaces_rejects_a_calibration() {
    let mut payloads = vec![InputPayload::Accel(Axis3 { x: 1, y: 1, z: 1 }); 20];
    payloads.push(InputPayload::Watch);
    assert_eq!(
        calibrate(payloads).error.unwrap(),
        "Device interfaces changed during calibration; capture again"
    );
}

#[test]
fn a_trace_shows_what_passes_its_filter() {
    let mut capture = Capture::start("1".into(), TraceFilter::Keys, None);
    let mut model = ConfigModel::new("config".into(), None);
    capture
        .session()
        .send(input(3, InputPayload::Key(ButtonEvent { code: 4, state: 1 })))
        .unwrap();
    capture
        .session()
        .send(input(4, InputPayload::Accel(Axis3 { x: 1, y: 2, z: 3 })))
        .unwrap();
    assert!(capture.poll(0, &mut model).is_none());
    assert_eq!(
        model.output.as_text(),
        "seq=3 time=0.000003 device=/sys/test Key(ButtonEvent { code: 4, state: 1 })\n"
    );
    capture.cancel();
    capture.session().complete(Err(ClientError::PrematureEof));
    assert_eq!(
        capture.poll(0, &mut model).unwrap().error.unwrap(),
        "Daemon capture: IPC peer closed the connection"
    );
    assert!(capture.poll(0, &mut model).is_none());
}

#[test]
fn payloads_read_as_they_are_written() {
    let axis = Axis3 { x: 1, y: -2, z: 3 };
    for payload in [
        InputPayload::Ir([axis; 4]),
        InputPayload::DrumsMove([axis; 8]),
        InputPayload::Unknown(77),
        InputPayload::Gone,
        InputPayload::GuitarKey(ButtonEvent { code: 1, state: 2 }),
    ] {
        let line = format_input_line(1, "/sys/a", Timestamp { seconds: -2, micros: 5 }, &payload);
        assert_eq!(line, format!("seq=1 time=-2.000005 device=/sys/a {payload:?}\n"));
    }
}

#[test]
fn queries_give_their_answer_once() {
    let mut query = Query::start(true);
    assert!(!query.is_status());
    assert!(query.poll().is_none());
    query.complete(Ok(QueryResult::Devices(vec![device()])));
    assert_eq!(query.poll().unwrap().unwrap(), "1\t/sys/test\tDesktop\n");
    assert!(query.poll().is_none());

    let mut query = Query::start(false);
    assert!(query.is_status());
    query.complete(Ok(QueryResult::Status {
        status: status(),
        diagnostics: Diagnostics {
            trace_records_dropped: 1,
            lifecycle_records_dropped: 2,
            max_pointer_lateness_us: 3,
            max_dispatch_duration_us: 4,
        },
        config: "profile=both\n".into(),
    }));
    assert_eq!(
        query.poll().unwrap().unwrap(),
        "wiilandd test (pid 1): 1 device(s)\ntrace drops=1 lifecycle drops=2 max pointer \
         lateness=3us max dispatch=4us\nRunning configuration:\nprofile=both\n"
    );
    query.complete(Err(ClientError::RuntimeDirectoryMissing));
    assert_eq!(
        query.poll().unwrap().unwrap_err(),
        "Cannot query running daemon: XDG_RUNTIME_DIR is not set. Start or upgrade the service and \
         retry."
    );
}
