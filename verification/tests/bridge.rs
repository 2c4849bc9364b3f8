use std::io;

use wiiland::bridge::{
    create_outputs, engine_input, forwards_to_engine, io_errno, profile_for_device,
    requested_interfaces, BridgeAction, BridgeDevice, Drain, DrainEvent, DrainStep, EventStep,
    OpenOutcome, VirtualKind, WatchEvent, WatchStep, ENODEV, MAX_EVENTS_PER_DRAIN,
};
use wiiland::config::{
    AimActivation, AimMode, AimSource, Config, DeviceRule, DeviceRuleKind, Profile,
};
use wiiland::engine::{needs_desktop, needs_gamepad, EngineInput};
use wiiland::failure::{IoFailure, IoKind};
use wiiland::hid::{Event, EventKind, Interface, InterfaceMask};
use wiiland::input::{Button, ButtonEvent, ButtonState};
use wiiland::platform::{
    request_snapshot, take_snapshot, MonitorDrain, MonitorEvent, MonitorPoll, MonitorStep,
    RequestOutcome, Snapshot, SnapshotStep, EOVERFLOW, MAX_SNAPSHOT_DEVICES,
};
use wiiland::protocol::{Axis3, Timestamp};
use wiiland::session::TryRecvError;
use wiiland::trace::{format_trace_line, monotonic_time_us, TraceContext, TraceFilter};

const ZERO: Axis3 = Axis3 { x: 0, y: 0, z: 0 };

#[test]
fn diagnostic_only_interfaces_never_change_virtual_input() {
    let config = Config::default();
    let key = EventKind::NunchukKey(ButtonEvent {
        button: Button::C,
        state: ButtonState::Pressed,
    });
    assert!(!forwards_to_engine(&key, Profile::DESKTOP, &config));
    assert!(forwards_to_engine(&key, Profile::GAMEPAD, &config));
    assert!(!forwards_to_engine(&EventKind::Accel(ZERO), Profile::DESKTOP, &config));
    assert!(!forwards_to_engine(&EventKind::Ir([ZERO; 4]), Profile::GAMEPAD, &config));
}

#[test]
fn button_states_preserve_linux_input_values() {
    assert_eq!(ButtonState::Released.value(), 0);
    assert_eq!(ButtonState::Pressed.value(), 1);
    assert_eq!(ButtonState::Repeated.value(), 2);
}

/// What is done with the virtual devices.
#[derive(Debug, PartialEq)]
enum RecordingOp {
    Open(VirtualKind),
}

fn record(
    outputs: (Option<VirtualKind>, Option<VirtualKind>),
    operations: &mut Vec<RecordingOp>,
) {
    operations.extend(outputs.0.map(RecordingOp::Open));
    operations.extend(outputs.1.map(RecordingOp::Open));
}

#[test]
fn disabled_outputs_remain_absent_when_recreated_after_watch() {
    let config = Config { profile: Profile::BOTH, ..Config::default() };
    let mut operations = Vec::new();
    let initial = create_outputs(config.profile, &config, false);
    record(initial, &mut operations);
    assert!(initial.0.is_none());
    assert!(initial.1.is_none());
    let refreshed = create_outputs(config.profile, &config, false);
    record(refreshed, &mut operations);
    assert!(refreshed.0.is_none());
    assert!(refreshed.1.is_none());
    assert!(operations.is_empty());
}

#[test]
fn enabled_outputs_use_the_recording_backend() {
    let config = Config { profile: Profile::BOTH, ..Config::default() };
    let outputs = create_outputs(config.profile, &config, true);
    assert!(outputs.0.is_some());
    assert!(outputs.1.is_some());
    let mut operations = Vec::new();
    record(outputs, &mut operations);
    let opens = operations.iter().filter(|op| matches!(op, RecordingOp::Open(_))).count();
    assert_eq!(opens, 2);
    assert_eq!(
        operations,
        [RecordingOp::Open(VirtualKind::Controller), RecordingOp::Open(VirtualKind::Desktop)]
    );
}

#[test]
fn profile_selection_uses_syspath_and_trimmed_devtype() {
    let config = Config {
        profile: Profile::GAMEPAD,
        device_rules: vec![
            DeviceRule {
                kind: DeviceRuleKind::Syspath,
                match_text: "wii-red".into(),
                profile: Profile::DESKTOP,
            },
            DeviceRule {
                kind: DeviceRuleKind::Devtype,
                match_text: "balanceboard".into(),
                profile: Profile::BOTH,
            },
        ],
        ..Config::default()
    };
    assert_eq!(
        profile_for_device(&config, "/sys/devices/wii-red", Some(b"balanceboard\n")),
        Profile::BOTH
    );
    assert_eq!(profile_for_device(&config, "/sys/devices/wii-red", None), Profile::DESKTOP);
    assert_eq!(profile_for_device(&config, "/sys/devices/wii-blue", None), Profile::GAMEPAD);
    assert_eq!(
        profile_for_device(&config, "/sys/devices/wii-blue", Some(&[0xff, 0xfe])),
        Profile::GAMEPAD
    );
}

#[test]
fn requested_interfaces_include_nunchuk_for_z_and_c_activation() {
    for activation in [AimActivation::Z, AimActivation::C] {
        let config = Config {
            profile: Profile::DESKTOP,
            aim_mode: AimMode::Mouse,
            aim_source: AimSource::Accelerometer,
            aim_activation: activation,
            ..Config::default()
        };
        assert!(requested_interfaces(config.profile, &config).contains(Interface::Nunchuk));
    }

    let config = Config {
        profile: Profile::DESKTOP,
        aim_mode: AimMode::Mouse,
        aim_source: AimSource::Accelerometer,
        aim_activation: AimActivation::B,
        ..Config::default()
    };

    assert!(!requested_interfaces(config.profile, &config).contains(Interface::Nunchuk));
}

#[test]
fn gamepad_forwarding_predicate_includes_right_stick_aim_output() {
    let config = Config {
        profile: Profile::DESKTOP,
        aim_mode: AimMode::RightStick,
        ..Config::default()
    };
    assert!(needs_gamepad(config.profile, &config));
    assert!(!config.profile.contains(Profile::GAMEPAD));
}

#[test]
fn desktop_pointer_controls_require_the_desktop_profile_not_only_an_aim_output() {
    let config = Config {
        profile: Profile::GAMEPAD,
        aim_mode: AimMode::Mouse,
        ..Config::default()
    };
    assert!(needs_desktop(config.profile, &config));
    assert!(!config.profile.contains(Profile::DESKTOP));
}

#[test]
fn trace_lines_use_emission_time_and_include_name_type_and_key_payload() {
    let event = Event {
        time: Timestamp { seconds: 99, micros: 999 },
        kind: EventKind::NunchukKey(ButtonEvent {
            button: Button::Z,
            state: ButtonState::Pressed,
        }),
    };

    assert_eq!(
        format_trace_line(7, 12_000_034, "/sys/wii0", &event),
        "time=12.000034 seq=7 /sys/wii0 nunchuk-key type=10 key=20 state=1"
    );
}

#[test]
fn trace_lines_include_all_eight_absolute_payloads() {
    let event = Event {
        time: Timestamp { seconds: 0, micros: 0 },
        kind: EventKind::DrumsMove(std::array::from_fn(|i| Axis3 {
            x: i as i32,
            y: -(i as i32),
            z: (i * 10) as i32,
        })),
    };

    assert_eq!(
        format_trace_line(8, 1_000_002, "/sys/wii1", &event),
        "time=1.000002 seq=8 /sys/wii1 drums-move type=13 abs0=0,0,0 abs1=1,-1,10 abs2=2,-2,20 \
         abs3=3,-3,30 abs4=4,-4,40 abs5=5,-5,50 abs6=6,-6,60 abs7=7,-7,70"
    );
}

#[test]
fn trace_contexts_share_sequence_and_timestamp_lifecycle_events_at_emission() {
    let mut sequence = 0;
    let mut lines = Vec::new();
    let first = TraceContext { filter: TraceFilter::All };
    let second = TraceContext { filter: TraceFilter::All };
    let watch = Event { time: Timestamp { seconds: 0, micros: 0 }, kind: EventKind::Watch };
    let gone = Event { time: Timestamp { seconds: 0, micros: 0 }, kind: EventKind::Gone };

    lines.extend(first.emit(&mut sequence, 41_000_007, "/sys/wii0", &watch));
    lines.extend(second.emit(&mut sequence, 42_000_008, "/sys/wii1", &gone));

    assert_eq!(sequence, 2);
    assert_eq!(
        lines,
        [
            "time=41.000007 seq=1 /sys/wii0 watch type=7",
            "time=42.000008 seq=2 /sys/wii1 gone type=16",
        ]
    );
}

#[test]
fn filtered_reports_use_up_no_number() {
    let mut sequence = 5;
    let keys = TraceContext { filter: TraceFilter::parse("keys").unwrap() };
    let event = Event {
        time: Timestamp { seconds: 0, micros: 0 },
        kind: EventKind::Accel(ZERO),
    };
    assert_eq!(keys.emit(&mut sequence, 0, "/sys/wii0", &event), None);
    assert_eq!(sequence, 5);
    assert!(TraceFilter::parse("nothing").is_none());
}

#[test]
fn clock_readings_become_microseconds() {
    assert_eq!(monotonic_time_us(None), 0);
    assert_eq!(monotonic_time_us(Some((3, 4_567))), 3_000_004);
    assert_eq!(monotonic_time_us(Some((i64::MAX, 999_999_999))), i64::MAX);
}

#[test]
fn snapshot_limit_never_presents_a_truncated_list_as_authoritative() {
    assert_eq!(EOVERFLOW, libc::EOVERFLOW);
    for count in [MAX_SNAPSHOT_DEVICES, MAX_SNAPSHOT_DEVICES + 1] {
        let mut paths = (0..count).map(|n| format!("/device/{n}"));
        let mut snapshot = Snapshot::new();
        let result: io::Result<Vec<String>> = loop {
            match snapshot.collect_snapshot(Ok::<Option<String>, IoFailure>(paths.next())) {
                SnapshotStep::Continue => {}
                SnapshotStep::Complete(devices) => break Ok(devices),
                SnapshotStep::Fail(failure) => break Err(io::Error::other(failure.message)),
                SnapshotStep::Overflow(errno) => break Err(io::Error::from_raw_os_error(errno)),
            }
        };
        if count == MAX_SNAPSHOT_DEVICES {
            assert_eq!(result.unwrap().len(), count);
        } else {
            assert_eq!(result.unwrap_err().raw_os_error(), Some(libc::EOVERFLOW));
        }
    }
}

#[test]
fn error_numbers_are_negated() {
    assert_eq!(io_errno(Some(libc::EACCES)), -libc::EACCES);
    assert_eq!(io_errno(None), -libc::EIO);
    assert_eq!(wiiland::bridge::ENODEV, libc::ENODEV);
    assert_eq!(wiiland::bridge::EINVAL, libc::EINVAL);
}

#[test]
fn a_captured_device_forwards_no_more_than_before() {
    let config = Config { profile: Profile::DESKTOP, ..Config::default() };
    let wanted = requested_interfaces(config.profile, &config);
    let mut device = BridgeDevice::with_backend_outputs(
        &config,
        Profile::DESKTOP,
        OpenOutcome { opened: wanted, failure: None },
        true,
    )
    .ok()
    .unwrap();
    assert!(device.pending().is_empty());
    device.set_capture(true, InterfaceMask::all());
    assert!(device.requested_interfaces().contains(Interface::Guitar));
    let strum = EventKind::GuitarKey(ButtonEvent {
        button: Button::A,
        state: ButtonState::Pressed,
    });
    assert!(matches!(device.handle_event(&strum), EventStep::Ignore));
    assert!(matches!(device.handle_event(&EventKind::Gone), EventStep::Gone));
    let press = EventKind::Key(ButtonEvent {
        button: Button::Right,
        state: ButtonState::Pressed,
    });
    let input = match device.handle_event(&press) {
        EventStep::Process(input) => input,
        step => panic!("unexpected step: {step:?}"),
    };
    assert_eq!(device.process(input).len(), 3);
    assert!(device.pointer_active());
    assert_eq!(device.tick_pointer().len(), 3);
}

#[test]
fn reports_become_engine_input() {
    assert!(engine_input(&EventKind::Watch).is_none());
    assert!(matches!(
        engine_input(&EventKind::Key(ButtonEvent {
            button: Button::Home,
            state: ButtonState::Repeated,
        })),
        Some(EngineInput::Key { button: Button::Home, state: ButtonState::Repeated, .. })
    ));
}

#[test]
fn interface_bits_read_back() {
    let mask = InterfaceMask::empty().with(Interface::Core).with(Interface::Guitar);
    assert_eq!(mask.bits(), 0x4001);
    assert_eq!(InterfaceMask::from_bits(0x4001).bits(), 0x4001);
    assert_eq!(InterfaceMask::from_bits(0x8000_0000).bits(), 0);
    assert_eq!(InterfaceMask::all().without(Interface::Ir).difference(mask).bits(), 0x3f02);
}

fn gone() -> Event {
    Event { time: Timestamp { seconds: 0, micros: 0 }, kind: EventKind::Gone }
}

#[test]
fn one_turn_handles_a_bounded_number_of_reports() {
    let mut drain = Drain::new();
    let mut step = drain.drain_with(DrainEvent::Begin);
    for _ in 0..MAX_EVENTS_PER_DRAIN {
        assert!(matches!(step, DrainStep::Dispatch));
        step = drain.drain_with(DrainEvent::Dispatched(Ok(gone())));
        assert!(matches!(step, DrainStep::Handle(_)));
        step = drain.drain_with(DrainEvent::Handled(Ok(BridgeAction::Continue)));
    }
    assert!(matches!(step, DrainStep::Done(Ok(BridgeAction::Continue))));
}

#[test]
fn a_turn_ends_early_when_nothing_waits_or_the_device_is_gone() {
    let failed = |kind, errno| {
        let failure = IoFailure { kind, errno, message: String::new() };
        Drain::new().drain_with(DrainEvent::Dispatched(Err(failure)))
    };
    assert!(matches!(
        failed(IoKind::WouldBlock, Some(11)),
        DrainStep::Done(Ok(BridgeAction::Continue))
    ));
    assert!(matches!(failed(IoKind::Other, Some(ENODEV)), DrainStep::Done(Err(-19))));
    assert!(matches!(failed(IoKind::Other, None), DrainStep::Done(Err(-5))));
    let handled = |result| Drain::new().drain_with(DrainEvent::Handled(result));
    assert!(matches!(
        handled(Ok(BridgeAction::Gone)),
        DrainStep::Done(Ok(BridgeAction::Gone))
    ));
    assert!(matches!(handled(Err(-7)), DrainStep::Done(Err(-7))));
}

#[test]
fn losing_a_needed_interface_ends_what_is_held() {
    let config = Config { profile: Profile::DESKTOP, ..Config::default() };
    let wanted = requested_interfaces(config.profile, &config);
    let outcome = OpenOutcome { opened: wanted, failure: None };
    let mut device =
        BridgeDevice::with_backend_outputs(&config, Profile::DESKTOP, outcome, true).ok().unwrap();
    let up = ButtonEvent { button: Button::Up, state: ButtonState::Pressed };
    let EventStep::Process(input) = device.handle_event(&EventKind::Key(up)) else {
        panic!("the key was ignored");
    };
    assert!(!device.process(input).is_empty());
    assert!(device.pointer_active());
    let owned = device.outputs();
    assert_eq!(device.handle_watch(WatchEvent::Changed(wanted)), WatchStep::Done(Ok(())));
    assert!(device.pointer_active());
    let opened = InterfaceMask::empty();
    let step = device.handle_watch(WatchEvent::Changed(opened));
    assert_eq!(step, WatchStep::Recreate { opened });
    assert!(!device.pointer_active());
    assert_eq!(device.outputs(), (None, None));
    let step = device.handle_watch(WatchEvent::Recreated { opened, result: Ok(()) });
    assert_eq!(step, WatchStep::Reopen(wanted));
    assert_eq!(device.outputs(), owned);
    let failure = OpenOutcome { opened: InterfaceMask::empty(), failure: Some(-13) };
    assert_eq!(device.retry_open(failure), Err(-13));
    let nothing = OpenOutcome { opened: InterfaceMask::empty(), failure: None };
    assert_eq!(device.retry_open(nothing), Err(-ENODEV));
    let core = InterfaceMask::empty().with(Interface::Core);
    assert_eq!(device.retry_open(OpenOutcome { opened: core, failure: Some(-13) }), Ok(()));
    assert!(!device.pending().contains(Interface::Core));
    let outcome = OpenOutcome { opened: wanted, failure: None };
    let step = device.handle_watch(WatchEvent::Reopened(outcome));
    assert_eq!(step, WatchStep::Done(Ok(())));
    assert!(!device.needs_retry());
}

#[test]
fn outputs_that_cannot_be_recreated_leave_the_interfaces_as_they_were() {
    let config = Config { profile: Profile::DESKTOP, ..Config::default() };
    let wanted = requested_interfaces(config.profile, &config);
    let outcome = OpenOutcome { opened: wanted, failure: None };
    let mut device =
        BridgeDevice::with_backend_outputs(&config, Profile::DESKTOP, outcome, true).ok().unwrap();
    let opened = InterfaceMask::empty();
    device.handle_watch(WatchEvent::Changed(opened));
    let step = device.handle_watch(WatchEvent::Recreated { opened, result: Err(-13) });
    assert_eq!(step, WatchStep::Done(Err(-13)));
    assert_eq!(device.opened(), wanted);
    assert_eq!(device.pending(), InterfaceMask::empty());
    assert_eq!(device.outputs(), (None, None));
    let up = ButtonEvent { button: Button::Up, state: ButtonState::Pressed };
    let EventStep::Process(input) = device.handle_event(&EventKind::Key(up)) else {
        panic!("the key was ignored");
    };
    assert!(device.process(input).is_empty());
}

#[test]
fn nothing_is_opened_again_where_nothing_is_pending() {
    let config = Config { profile: Profile::DESKTOP, ..Config::default() };
    let wanted = requested_interfaces(config.profile, &config);
    let outcome = OpenOutcome { opened: wanted, failure: None };
    let mut device =
        BridgeDevice::with_backend_outputs(&config, Profile::DESKTOP, outcome, true).ok().unwrap();
    assert!(!device.needs_retry());
    let nothing = OpenOutcome { opened: InterfaceMask::empty(), failure: Some(-13) };
    assert_eq!(device.retry_open(nothing), Ok(()));
    assert_eq!(device.opened(), wanted);
    assert_eq!(device.set_capture(true, wanted), Some(InterfaceMask::empty()));
    device.refresh(wanted);
    assert!(device.needs_retry());
    assert!(device.pending().contains(Interface::Accel));
}

#[test]
fn a_stopped_discovery_worker_is_a_failure() {
    assert!(request_snapshot(RequestOutcome::Sent).is_ok());
    assert!(request_snapshot(RequestOutcome::Full).is_ok());
    let failure = request_snapshot(RequestOutcome::Disconnected).unwrap_err();
    assert_eq!(failure.message, "discovery worker stopped");
    assert!(take_snapshot(Err(TryRecvError::Empty)).is_none());
    assert!(take_snapshot(Err(TryRecvError::Disconnected)).unwrap().is_err());
    let paths = vec!["/sys/a".to_owned()];
    assert_eq!(take_snapshot(Ok(Ok(paths.clone()))).unwrap().unwrap(), paths);
}

#[test]
fn the_monitor_is_drained_within_a_budget() {
    let polled = |budget, poll| {
        MonitorDrain { budget }.drain_monitor(MonitorEvent::Polled(poll))
    };
    let begun =
        |budget, watched| MonitorDrain { budget }.drain_monitor(MonitorEvent::Begin { watched });
    assert!(matches!(begun(2, true), MonitorStep::Poll));
    assert!(matches!(begun(0, true), MonitorStep::Done(Ok(true))));
    assert!(matches!(begun(2, false), MonitorStep::Done(Ok(false))));
    assert!(matches!(begun(0, false), MonitorStep::Done(Ok(false))));
    let mut drain = MonitorDrain { budget: 2 };
    let event = || MonitorEvent::Polled(MonitorPoll::Event);
    assert!(matches!(drain.drain_monitor(event()), MonitorStep::Poll));
    assert!(matches!(drain.drain_monitor(event()), MonitorStep::Done(Ok(true))));
    assert_eq!(drain.budget, 0);
    assert!(matches!(polled(2, MonitorPoll::Empty), MonitorStep::Done(Ok(false))));
    let failure = IoFailure::new(IoKind::Other, "monitor");
    assert!(matches!(polled(2, MonitorPoll::Failed(failure)), MonitorStep::Done(Err(_))));
}
