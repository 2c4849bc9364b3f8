use wiiland::bridge::{BridgeDevice, OpenOutcome};
use wiiland::config::{Config, DeviceRule, DeviceRuleKind, IrTracking, Profile};
use wiiland::engine::EngineInput;
use wiiland::form::{set_accel, set_motion, set_screen};
use wiiland::hid::{EventKind, Interface, InterfaceMask};
use wiiland::input::{Button, ButtonEvent, ButtonState, InputSource};
use wiiland::mapping::map_button;
use wiiland::model::ConfigModel;
use wiiland::pointer::{IrFrame, IrPoint, PointerDelta, PointerKey, PointerState};
use wiiland::protocol::{self, Axis3, InputPayload};
use wiiland::rules::{edit_rules, RuleActions, RuleEdit, RuleIds};
use wiiland::view;

const STILL: PointerDelta = PointerDelta { dx: 0, dy: 0 };

fn frame(x: i32, valid: bool) -> IrFrame {
    IrFrame { points: [IrPoint { valid, x, y: 0 }; 4] }
}

#[test]
fn gamepad_keys_are_distinct() {
    for a in Button::ALL {
        for b in Button::ALL {
            assert_eq!(map_button(a) == map_button(b), a == b, "{a:?} {b:?}");
        }
    }
}

#[test]
fn a_point_that_comes_back_does_not_move_the_pointer() {
    let mut pointer = PointerState::new(16, 64, 0, 0, IrTracking::First);
    assert_eq!(pointer.update_ir_frame(&frame(10, true)), STILL);
    assert_eq!(pointer.update_ir_frame(&frame(20, true)).dx, 10);
    assert_eq!(pointer.update_ir_frame(&frame(0, false)), STILL);
    assert_eq!(pointer.update_ir_frame(&frame(900, true)), STILL);
}

#[test]
fn releasing_a_direction_undoes_holding_it() {
    let mut pointer = PointerState::new(5, 8, 0, 0, IrTracking::Dual);
    pointer.update_key(PointerKey::Left, true);
    assert!(pointer.active());
    assert_eq!(pointer.update_key(PointerKey::Left, false), STILL);
    assert!(!pointer.active());
}

fn rule(text: &str, profile: Profile) -> DeviceRule {
    DeviceRule { kind: DeviceRuleKind::Devtype, match_text: text.into(), profile }
}

#[test]
fn the_rule_in_the_last_place_has_priority() {
    let mut model = ConfigModel::new(String::new(), None);
    model.config.device_rules = vec![rule("pad", Profile::Both), rule("pad", Profile::Desktop)];
    let mut ids = RuleIds::new();
    ids.fit(2);
    let profile = |model: &ConfigModel| model.config.profile_for_device(None, Some("gamepad"));
    assert_eq!(profile(&model), Profile::Desktop);
    let moved = |from, to| RuleActions {
        changed: false,
        edit: Some(RuleEdit::Move(from, to)),
        add: false,
    };
    edit_rules(&mut model, &mut ids, moved(0, 1));
    assert_eq!(profile(&model), Profile::Both);
    edit_rules(&mut model, &mut ids, moved(1, 0));
    assert_eq!(profile(&model), Profile::Desktop);
    assert_eq!(ids.rows, [0, 1]);
    assert_eq!(model.config.profile_for_device(None, Some("board")), Profile::Gamepad);
}

#[test]
fn a_report_has_either_a_key_or_axes() {
    let key = EventKind::Key(ButtonEvent { button: Button::A, state: ButtonState::Pressed });
    assert!(key.key_event().is_some() && key.axis_events().is_empty());
    let axes = EventKind::NunchukMove([Axis3 { x: 1, y: 2, z: 3 }; 2]);
    assert!(axes.key_event().is_none() && axes.axis_events().len() == 2);
    assert!(EventKind::Watch.key_event().is_none() && EventKind::Watch.axis_events().is_empty());
}

#[test]
fn transitions_read_back_from_their_numbers() {
    for button in Button::ALL {
        for state in [ButtonState::Released, ButtonState::Pressed, ButtonState::Repeated] {
            let numbers = protocol::ButtonEvent { code: button.code(), state: state.value() };
            assert_eq!(view::button(numbers), Some(ButtonEvent { button, state }));
        }
    }
}

#[test]
fn reports_keep_the_type_of_their_payload() {
    let axis = Axis3 { x: 0, y: 0, z: 0 };
    for payload in [
        InputPayload::Accel(axis),
        InputPayload::MotionPlus(axis),
        InputPayload::Watch,
        InputPayload::Gone,
        InputPayload::Unknown(77),
    ] {
        let code = payload.event_code();
        assert_eq!(view::input(payload).unwrap().event_type_code(), code);
    }
}

#[test]
fn owned_outputs_receive_every_action() {
    let config = Config { profile: Profile::Both, ..Config::default() };
    let device = |enabled| {
        let opened = InterfaceMask::empty().with(Interface::Core);
        let outcome = OpenOutcome { opened, failure: None };
        BridgeDevice::with_backend_outputs(&config, Profile::Both, outcome, enabled).ok().unwrap()
    };
    let press = || EngineInput::Key {
        source: InputSource::Core,
        button: Button::A,
        state: ButtonState::Pressed,
    };
    assert_eq!(device(true).process(press()).len(), 2);
    assert!(device(false).process(press()).is_empty());
}

#[test]
fn switched_on_parts_are_valid() {
    let mut config = Config::default();
    set_screen(&mut config, true);
    set_accel(&mut config, true);
    set_motion(&mut config, true);
    assert_eq!(config.validate(), Ok(()));
}

#[test]
fn settings_that_are_left_out_keep_their_defaults() {
    let read = Config::parse_bytes("file", b"profile=gamepad\npointer-speed=99\n").unwrap();
    let expected =
        Config { profile: Profile::Gamepad, pointer_speed: 99, ..Config::default() };
    assert!(read.same(&expected));
}

#[test]
fn a_new_frame_sees_no_points() {
    for point in IrFrame::default().points {
        assert_eq!((point.valid, point.x, point.y), (false, 0, 0));
    }
}
