use wiiland::aim::{AimConfig, AimState, AimVector};
use wiiland::config::{
    AimActivation, AimMode, Config, IrAimMapping, IrTracking, Profile, SensorCalibration,
};
use wiiland::hid::EventKind;
use wiiland::input::{Button, ButtonState};
use wiiland::mapping::{map_button, map_motion, Abs3, MotionKind};
use wiiland::pointer::{IrFrame, IrPoint, IrPosition, PointerDelta, PointerKey, PointerState};
use wiiland::protocol::{
    ButtonEvent, DeviceInfo, InputPayload, Notification, RemovalReason, Status, Timestamp,
};
use wiiland::session::SessionEvent;
use wiiland::view::{
    configure, input, list, terminal_problem, KeyStep, Turn, Update, Viewer,
};

fn point(x: i32, y: i32) -> IrPoint {
    IrPoint { valid: true, x, y }
}

const HIDDEN: IrPoint = IrPoint { valid: false, x: 0, y: 0 };

#[test]
fn points_are_tracked_as_configured() {
    let frame = IrFrame { points: [HIDDEN, point(10, 20), point(21, 40), point(5, 6)] };
    let at = |tracking| PointerState::new(16, 8, 2, 0, tracking).select_ir(&frame);
    assert_eq!(at(IrTracking::First), Some(IrPosition { x: 10, y: 20 }));
    assert_eq!(at(IrTracking::Dual), Some(IrPosition { x: 15, y: 30 }));
    assert_eq!(at(IrTracking::Centroid), Some(IrPosition { x: 12, y: 22 }));
}

#[test]
fn small_movements_are_ignored_and_others_scaled() {
    let mut pointer = PointerState::new(16, 8, 2, 50, IrTracking::First);
    let mut step = |x| pointer.update_ir_frame(&IrFrame { points: [point(x, 0); 4] });
    assert_eq!(step(100), PointerDelta { dx: 0, dy: 0 });
    assert_eq!(step(102), PointerDelta { dx: 0, dy: 0 });
    assert_eq!(step(38), PointerDelta { dx: -4, dy: 0 });
}

#[test]
fn held_directions_move_the_pointer() {
    let mut pointer = PointerState::new(7, 8, 2, 0, IrTracking::Dual);
    assert_eq!(pointer.update_key(PointerKey::Up, true), PointerDelta { dx: 0, dy: -7 });
    assert_eq!(pointer.update_key(PointerKey::Right, true), PointerDelta { dx: 7, dy: -7 });
    assert_eq!(pointer.tick(), PointerDelta { dx: 7, dy: -7 });
    pointer.reset();
    assert!(!pointer.active());
}

fn aim(config: &Config) -> AimState {
    AimState::new(AimConfig::from_config(config))
}

#[test]
fn aiming_scales_inverts_and_smooths() {
    let mut config = Config::default();
    config.aim_mode = AimMode::Mouse;
    config.aim_activation = AimActivation::Always;
    config.aim_sensitivity = 32;
    config.aim_deadzone = 10;
    config.aim_smoothing = 50;
    config.aim_invert_y = true;
    config.aim_accel_zero = Some(SensorCalibration { x: 100, y: 0, z: 0 });
    let mut state = aim(&config);
    assert_eq!(
        state.process_accelerometer([150, 10, 0]).output,
        Some(AimVector { x: 50, y: 0 })
    );
    assert_eq!(
        state.process_accelerometer([100, 20, 0]).output,
        Some(AimVector { x: 25, y: -20 })
    );
}

#[test]
fn the_better_sensor_wins() {
    let mut config = Config::default();
    config.aim_mode = AimMode::Mouse;
    config.aim_activation = AimActivation::Always;
    let mut state = aim(&config);
    assert!(state.process_accelerometer([100, 0, 0]).output.is_some());
    assert!(state.process_motion_plus([100, 0, 0]).output.is_some());
    assert!(state.process_accelerometer([100, 0, 0]).output.is_none());
}

#[test]
fn letting_the_activation_button_go_centres() {
    let mut config = Config::default();
    config.aim_mode = AimMode::RightStick;
    let mut state = aim(&config);
    assert!(state.process_accelerometer([500, 0, 0]).output.is_none());
    state.activation_key(Button::B, true);
    assert!(state.process_accelerometer([500, 0, 0]).output.is_some());
    assert_eq!(
        state.activation_key(Button::B, false).output,
        Some(AimVector { x: 0, y: 0 })
    );
    assert!(state.activation_key(Button::A, true).output.is_none());
}

#[test]
fn absolute_aiming_covers_the_range() {
    let mut config = Config::default();
    config.aim_mode = AimMode::RightStick;
    config.aim_activation = AimActivation::Always;
    config.ir_aim_mapping = IrAimMapping::Absolute;
    config.aim_deadzone = 0;
    let mut state = aim(&config);
    assert_eq!(
        state.process_ir(Some(IrPosition { x: 0, y: 767 })).output,
        Some(AimVector { x: -32768, y: 32767 })
    );
    assert!(state.process_ir(None).output.is_none());
}

#[test]
fn buttons_and_axes_have_their_codes() {
    assert_eq!(map_button(Button::A), 0x130);
    assert_eq!(map_button(Button::Up), 0x220);
    let mut axes = [Abs3 { x: 0, y: 0, z: 0 }; 8];
    axes[0] = Abs3 { x: 1, y: 2, z: 3 };
    let mapped: Vec<(u16, i32)> = map_motion(MotionKind::Nunchuk, axes)
        .into_iter()
        .map(|axis| (axis.code, axis.value))
        .collect();
    assert_eq!(mapped, [(0, 1), (1, 2)]);
}

fn status() -> Status {
    Status {
        daemon_version: "3".into(),
        pid: 8,
        device_count: 1,
        dry_run: false,
        socket_path: String::new(),
    }
}

fn device(path: &str) -> DeviceInfo {
    DeviceInfo {
        syspath: path.into(),
        profile: Profile::Both,
        opened_interfaces: 0x103,
        pending_interfaces: 0,
        gamepad_output: true,
        desktop_output: true,
    }
}

#[test]
fn payloads_become_reports() {
    let key = |code, state| input(InputPayload::NunchukKey(ButtonEvent { code, state }));
    assert!(matches!(
        key(20, 1),
        Some(EventKind::NunchukKey(event))
            if event.button == Button::Z && event.state == ButtonState::Pressed
    ));
    assert!(key(28, 1).is_none());
    assert!(key(20, 3).is_none());
    assert!(matches!(input(InputPayload::Unknown(99)), Some(EventKind::Unknown(99))));
}

#[test]
fn the_view_shows_a_device_until_it_goes_away() {
    let devices = vec![device("/sys/a"), device("/sys/b")];
    assert_eq!(list(&devices), "1\t/sys/a\n2\t/sys/b\n");
    let path = Viewer::device_path(devices, "2").unwrap();
    assert_eq!(path, "/sys/b");
    let mut viewer = Viewer::start(None, path);
    let mut updates = Vec::new();
    assert!(matches!(viewer.turn(&mut updates), Turn::Draw));
    viewer
        .session
        .send(SessionEvent::Connected { status: status(), devices: vec![device("/sys/b")] })
        .unwrap();
    viewer
        .session
        .send(SessionEvent::Notification(Notification::Input {
            sequence: 1,
            syspath: "/sys/b".into(),
            timestamp: Timestamp { seconds: 1, micros: 2 },
            payload: InputPayload::Gone,
        }))
        .unwrap();
    assert!(matches!(viewer.turn(&mut updates), Turn::Draw));
    assert!(matches!(&updates[0], Update::Info(line) if line == "Connected to wiilandd 3 (pid 8)"));
    assert!(matches!(&updates[1], Update::Show(panels) if *panels == configure(0x103)));
    assert!(matches!(&updates[2], Update::Report { kind: EventKind::Gone, .. }));
    assert_eq!(viewer.key(Some('f')), KeyStep::Toggled);
    assert!(viewer.frozen);
    assert_eq!(viewer.key(Some('x')), KeyStep::Hint);
    assert_eq!(viewer.key(Some('q')), KeyStep::Quit);
    viewer
        .session
        .send(SessionEvent::Notification(Notification::DeviceRemoved {
            sequence: 2,
            syspath: "/sys/b".into(),
            reason: RemovalReason::Gone,
        }))
        .unwrap();
    assert!(matches!(viewer.turn(&mut updates), Turn::Failed(reason)
        if reason == "Device disconnected"));
    viewer.session.complete(Ok(()));
    assert!(matches!(viewer.turn(&mut updates), Turn::Done));
}

#[test]
fn the_terminal_must_be_usable() {
    assert_eq!(terminal_problem(true, true, Some("xterm"), 80, 24), None);
    assert!(terminal_problem(false, true, Some("xterm"), 80, 24).unwrap().contains("stdin"));
    assert!(terminal_problem(true, true, Some("dumb"), 80, 24).unwrap().contains("TERM"));
    assert!(terminal_problem(true, true, Some(""), 80, 24).unwrap().contains("TERM"));
    assert!(terminal_problem(true, true, None, 80, 24).unwrap().contains("TERM"));
    assert!(terminal_problem(true, true, Some("xterm"), 79, 24).unwrap().contains("80 columns"));
    assert!(terminal_problem(true, true, Some("xterm"), 80, 23).unwrap().contains("24 lines"));
}
