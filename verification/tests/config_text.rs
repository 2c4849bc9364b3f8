use wiiland::config::{
    AimActivation, AimMode, AimSource, Config, ConfigProblem, DesktopAction, DeviceRule,
    DeviceRuleKind, IrAimMapping, IrScreen, IrTracking, Profile, SensorCalibration, Setting,
    SYSTEM_CONFIG_PATH,
};
use wiiland::config_text::{parse_integer, render, ConfigError, ConfigFault, Layer};
use wiiland::failure::{IoFailure, IoKind};

fn rule(kind: DeviceRuleKind, text: &str, profile: Profile) -> DeviceRule {
    DeviceRule { kind, match_text: text.into(), profile }
}

fn full() -> Config {
    let mut config = Config::default();
    config.profile = Profile::Both;
    config.pointer_speed = 127;
    config.ir_speed = 1;
    config.ir_deadzone = 0;
    config.ir_smoothing = 95;
    config.ir_tracking = IrTracking::Centroid;
    config.ir_aim_mapping = IrAimMapping::Absolute;
    config.ir_screen = Some(IrScreen { left: 1, right: 1000, top: 2, bottom: 700 });
    config.aim_mode = AimMode::RightStick;
    config.aim_source = AimSource::MotionPlus;
    config.aim_activation = AimActivation::C;
    config.aim_sensitivity = 33;
    config.aim_deadzone = 32767;
    config.aim_smoothing = 12;
    config.aim_invert_x = true;
    config.aim_invert_y = true;
    config.aim_calibration_duration = 30;
    config.aim_accel_zero = Some(SensorCalibration { x: -32768, y: 0, z: 32767 });
    config.aim_motion_plus_bias = Some(SensorCalibration { x: -1, y: 2, z: -3 });
    config.desktop_bindings.a = DesktopAction::Disabled;
    config.desktop_bindings.two = DesktopAction::PageUp;
    config.device_rules = vec![
        rule(DeviceRuleKind::Syspath, "wii = red # not a comment", Profile::Desktop),
        rule(DeviceRuleKind::Devtype, "balanceboard", Profile::Both),
    ];
    config
}

#[test]
fn saved_configurations_read_back() {
    for config in [Config::default(), full()] {
        let file = render(&config);
        assert!(Config::parse_bytes("file", file.as_bytes()).unwrap().same(&config));
    }
}

#[test]
fn whitespace_around_the_text_of_a_rule_is_not_kept() {
    let mut config = Config::default();
    config.device_rules = vec![rule(DeviceRuleKind::Devtype, " pad ", Profile::Desktop)];
    let read = Config::parse_bytes("file", render(&config).as_bytes()).unwrap();
    assert_eq!(read.device_rules[0].match_text, "pad");
}

#[test]
fn comments_blank_lines_and_whitespace_change_nothing() {
    let config = Config::parse_bytes(
        "file",
        b"# comment\n\n  pointer-speed =  19 \r\n\tprofile=desktop\n  # profile=both\n",
    )
    .unwrap();
    assert_eq!(config.pointer_speed, 19);
    assert_eq!(config.profile, Profile::Desktop);
}

#[test]
fn the_last_value_of_a_key_counts() {
    let config = Config::parse_bytes("file", b"pointer-speed=1\npointer-speed=2").unwrap();
    assert_eq!(config.pointer_speed, 2);
}

#[test]
fn errors_say_what_is_wrong() {
    let parse = |bytes: &[u8]| {
        let error = Config::parse_bytes("my.conf", bytes).unwrap_err();
        let in_range = matches!(error.fault, ConfigFault::Invalid(_));
        assert_eq!(error.origin.as_deref(), if in_range { None } else { Some("my.conf") });
        error
    };
    let fault = |bytes: &[u8]| parse(bytes).fault;
    assert!(matches!(fault(&[0xff]), ConfigFault::NotText));
    assert!(matches!(fault(b"pointer-speed=1\nunknown=1\n"), ConfigFault::Line(2)));
    assert!(matches!(fault(b"pointer-speed"), ConfigFault::Line(1)));
    assert!(matches!(fault(b"pointer-speed=fast"), ConfigFault::Line(1)));
    assert!(matches!(fault(b"rule-devtype=gamepad"), ConfigFault::Line(1)));
    assert!(matches!(fault(b"aim-accel-zero-x=1"), ConfigFault::Incomplete));
    assert!(matches!(fault(b"ir-screen-left=1\nir-screen-right=2"), ConfigFault::Incomplete));
    assert!(matches!(
        fault(b"pointer-speed=128"),
        ConfigFault::Invalid(ConfigProblem::OutOfRange(Setting::PointerSpeed))
    ));
    let text = |bytes: &[u8]| parse(bytes).describe();
    assert_eq!(text(b"x"), "my.conf: invalid configuration on line 1");
    assert_eq!(text(b"pointer-speed=0"), "pointer-speed is out of range");
    assert_eq!(text(&[0xff]), "my.conf: configuration is not valid UTF-8");
    assert_eq!(text(b"aim-accel-zero-x=1"), "my.conf: incomplete calibration values");
}

#[test]
fn rules_are_limited_and_never_blank() {
    let mut config = Config::default();
    for _ in 0..64 {
        config.device_rules.push(rule(DeviceRuleKind::Devtype, "pad", Profile::Gamepad));
    }
    assert_eq!(config.validate(), Ok(()));
    config.device_rules[3].match_text = " \t".into();
    assert_eq!(config.validate(), Err(ConfigProblem::BlankRule(3)));
    assert_eq!(ConfigProblem::BlankRule(3).describe(), "device rule 4 has no match text");
    config.device_rules.push(rule(DeviceRuleKind::Devtype, "pad", Profile::Gamepad));
    assert_eq!(config.validate(), Err(ConfigProblem::TooManyRules));
}

#[test]
fn the_screen_must_have_an_inside() {
    let mut config = Config::default();
    config.ir_screen = Some(IrScreen { left: 5, right: 5, top: 0, bottom: 1 });
    assert_eq!(config.validate(), Err(ConfigProblem::OutOfRange(Setting::IrScreen)));
}

#[test]
fn integers_have_an_optional_sign() {
    assert_eq!(parse_integer("-2147483648"), Some(i32::MIN));
    assert_eq!(parse_integer("+7"), Some(7));
    assert_eq!(parse_integer("007"), Some(7));
    assert_eq!(parse_integer("2147483648"), None);
    assert_eq!(parse_integer(""), None);
    assert_eq!(parse_integer("-"), None);
    assert_eq!(parse_integer("1 2"), None);
}

fn missing() -> Result<Vec<u8>, IoFailure> {
    Err(IoFailure::new(IoKind::NotFound, "missing"))
}

fn layer(origin: &str, read: Result<Vec<u8>, IoFailure>) -> Option<Layer> {
    Some(Layer { origin: origin.into(), read })
}

#[test]
fn layers_lie_on_top_of_each_other() {
    let system = || layer("/etc/a", Ok(b"pointer-speed=2\nir-speed=3\n".to_vec()));
    let user = || layer("/home/b", Ok(b"pointer-speed=4\n".to_vec()));
    let config = Config::load_layers(system(), user(), None).unwrap();
    assert_eq!((config.pointer_speed, config.ir_speed), (4, 3));
    let explicit = layer("/c", Ok(b"ir-speed=9\n".to_vec()));
    let config = Config::load_layers(system(), user(), explicit).unwrap();
    assert_eq!((config.pointer_speed, config.ir_speed), (16, 9));
}

#[test]
fn only_the_layers_are_optional() {
    let none = Config::load_layers(layer("/etc/a", missing()), layer("/home/b", missing()), None);
    assert!(none.unwrap().same(&Config::default()));
    let good = || layer("/etc/a", Ok(b"pointer-speed=2\n".to_vec()));
    for result in [
        Config::load_file("/c", missing()),
        Config::load_layers(good(), good(), layer("/c", missing())),
    ] {
        let error = result.unwrap_err();
        assert!(matches!(&error.fault, ConfigFault::Io(failure)
            if failure.kind == IoKind::NotFound));
        assert_eq!(error.origin.as_deref(), Some("/c"));
        assert_eq!(error.describe(), "/c: missing");
    }
}

#[test]
fn errors_name_the_layer_at_fault() {
    let good = || Ok(b"pointer-speed=2\n".to_vec());
    let bad = || Ok(b"unknown=1\n".to_vec());
    let origin = |result: Result<Config, ConfigError>| result.unwrap_err().origin.unwrap();
    assert_eq!(origin(Config::load_file("/c", bad())), "/c");
    assert_eq!(origin(Config::load(good(), layer("/home/b", bad()))), "/home/b");
    assert_eq!(origin(Config::load(bad(), layer("/home/b", bad()))), SYSTEM_CONFIG_PATH);
    assert_eq!(origin(Config::load_default_layers(bad(), None)), SYSTEM_CONFIG_PATH);
    let denied = Err(IoFailure::new(IoKind::PermissionDenied, "denied"));
    assert_eq!(origin(Config::load_default_layers(denied, None)), SYSTEM_CONFIG_PATH);
    let low = Ok(b"pointer-speed=0\n".to_vec());
    assert!(Config::load_file("/c", low).unwrap_err().origin.is_none());
}

#[test]
fn profiles_have_names() {
    for profile in [Profile::Gamepad, Profile::Desktop, Profile::Both] {
        assert_eq!(Profile::parse(profile.as_str()), Some(profile));
    }
    assert_eq!(Profile::parse("none"), None);
    assert_eq!(Profile::BOTH.bits(), Profile::GAMEPAD.bits() | Profile::DESKTOP.bits());
}
