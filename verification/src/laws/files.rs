//! The configuration file: its words, its lines and its layers.
use crate::config::{
    AimActivation, AimMode, AimSource, Config, ConfigView, DesktopAction, DesktopBindings,
    DeviceRuleKind, DeviceRuleView, IrAimMapping, IrScreen, IrTracking, Profile, SensorCalibration,
};
use crate::config_text::{
    self, Assignment, ConfigError, ConfigFault, DraftView, Layer, PartialScreen, PartialTriple,
};
use crate::failure::IoFailure;
use crate::round_trip;
use crate::text;
use vstd::prelude::*;
use vstd::string::*;

verus! {

/// Profiles have these names, and are found by them.
pub proof fn profiles_have_names(
    value: Profile,
    name: &'static str,
    word: &str,
    found: Option<Profile>,
)
    requires
        call_ensures(config_text::profile_name, (value, ), name),
        call_ensures(config_text::parse_profile, (word, ), found),
    ensures
        value is Gamepad ==> name@ == "gamepad"@,
        value is Desktop ==> name@ == "desktop"@,
        value is Both ==> name@ == "both"@,
        word@ == "gamepad"@ <==> found == Some(Profile::Gamepad),
        word@ == "desktop"@ <==> found == Some(Profile::Desktop),
        word@ == "both"@ <==> found == Some(Profile::Both),
        word@ == name@ <==> found == Some(value),
{
    round_trip::lemma_profile_value(Profile::Gamepad);
    round_trip::lemma_profile_value(Profile::Desktop);
    round_trip::lemma_profile_value(Profile::Both);
}

/// Ways of tracking have these names, and are found by them.
pub proof fn trackings_have_names(
    value: IrTracking,
    name: &'static str,
    word: &str,
    found: Option<IrTracking>,
)
    requires
        call_ensures(config_text::ir_tracking_name, (value, ), name),
        call_ensures(config_text::parse_ir_tracking, (word, ), found),
    ensures
        value is Dual ==> name@ == "dual"@,
        value is Centroid ==> name@ == "centroid"@,
        value is First ==> name@ == "first"@,
        word@ == "dual"@ <==> found == Some(IrTracking::Dual),
        word@ == "centroid"@ <==> found == Some(IrTracking::Centroid),
        word@ == "first"@ <==> found == Some(IrTracking::First),
        word@ == name@ <==> found == Some(value),
{
    round_trip::lemma_ir_tracking_value(IrTracking::Dual);
    round_trip::lemma_ir_tracking_value(IrTracking::Centroid);
    round_trip::lemma_ir_tracking_value(IrTracking::First);
}

/// Ways of mapping have these names, and are found by them.
pub proof fn mappings_have_names(
    value: IrAimMapping,
    name: &'static str,
    word: &str,
    found: Option<IrAimMapping>,
)
    requires
        call_ensures(config_text::ir_mapping_name, (value, ), name),
        call_ensures(config_text::parse_ir_mapping, (word, ), found),
    ensures
        value is Relative ==> name@ == "relative"@,
        value is Absolute ==> name@ == "absolute"@,
        word@ == "relative"@ <==> found == Some(IrAimMapping::Relative),
        word@ == "absolute"@ <==> found == Some(IrAimMapping::Absolute),
        word@ == name@ <==> found == Some(value),
{
    round_trip::lemma_ir_mapping_value(IrAimMapping::Relative);
    round_trip::lemma_ir_mapping_value(IrAimMapping::Absolute);
}

/// Modes of aiming have these names, and are found by them.
pub proof fn modes_have_names(
    value: AimMode,
    name: &'static str,
    word: &str,
    found: Option<AimMode>,
)
    requires
        call_ensures(config_text::aim_mode_name, (value, ), name),
        call_ensures(config_text::parse_aim_mode, (word, ), found),
    ensures
        value is Off ==> name@ == "off"@,
        value is RightStick ==> name@ == "right-stick"@,
        value is Mouse ==> name@ == "mouse"@,
        word@ == "off"@ <==> found == Some(AimMode::Off),
        word@ == "right-stick"@ <==> found == Some(AimMode::RightStick),
        word@ == "mouse"@ <==> found == Some(AimMode::Mouse),
        word@ == name@ <==> found == Some(value),
{
    round_trip::lemma_aim_mode_value(AimMode::Off);
    round_trip::lemma_aim_mode_value(AimMode::RightStick);
    round_trip::lemma_aim_mode_value(AimMode::Mouse);
}

/// Sources of aiming have these names, and are found by them.
pub proof fn sources_have_names(
    value: AimSource,
    name: &'static str,
    word: &str,
    found: Option<AimSource>,
)
    requires
        call_ensures(config_text::aim_source_name, (value, ), name),
        call_ensures(config_text::parse_aim_source, (word, ), found),
    ensures
        value is Auto ==> name@ == "auto"@,
        value is Ir ==> name@ == "ir"@,
        value is MotionPlus ==> name@ == "motion-plus"@,
        value is Accelerometer ==> name@ == "accelerometer"@,
        word@ == "auto"@ <==> found == Some(AimSource::Auto),
        word@ == "ir"@ <==> found == Some(AimSource::Ir),
        word@ == "motion-plus"@ <==> found == Some(AimSource::MotionPlus),
        word@ == "accelerometer"@ <==> found == Some(AimSource::Accelerometer),
        word@ == name@ <==> found == Some(value),
{
    round_trip::lemma_aim_source_value(AimSource::Auto);
    round_trip::lemma_aim_source_value(AimSource::Ir);
    round_trip::lemma_aim_source_value(AimSource::MotionPlus);
    round_trip::lemma_aim_source_value(AimSource::Accelerometer);
}

/// Activations of aiming have these names, and are found by them.
pub proof fn activations_have_names(
    value: AimActivation,
    name: &'static str,
    word: &str,
    found: Option<AimActivation>,
)
    requires
        call_ensures(config_text::aim_activation_name, (value, ), name),
        call_ensures(config_text::parse_aim_activation, (word, ), found),
    ensures
        value is B ==> name@ == "b"@,
        value is Always ==> name@ == "always"@,
        value is Z ==> name@ == "z"@,
        value is C ==> name@ == "c"@,
        word@ == "b"@ <==> found == Some(AimActivation::B),
        word@ == "always"@ <==> found == Some(AimActivation::Always),
        word@ == "z"@ <==> found == Some(AimActivation::Z),
        word@ == "c"@ <==> found == Some(AimActivation::C),
        word@ == name@ <==> found == Some(value),
{
    round_trip::lemma_aim_activation_value(AimActivation::B);
    round_trip::lemma_aim_activation_value(AimActivation::Always);
    round_trip::lemma_aim_activation_value(AimActivation::Z);
    round_trip::lemma_aim_activation_value(AimActivation::C);
}

/// Actions on the desktop have these names, and are found by them.
pub proof fn actions_have_names(
    value: DesktopAction,
    name: &'static str,
    word: &str,
    found: Option<DesktopAction>,
)
    requires
        call_ensures(config_text::action_name, (value, ), name),
        call_ensures(config_text::parse_action, (word, ), found),
    ensures
        value is LeftClick ==> name@ == "left-click"@,
        value is RightClick ==> name@ == "right-click"@,
        value is Enter ==> name@ == "enter"@,
        value is Escape ==> name@ == "escape"@,
        value is Overview ==> name@ == "overview"@,
        value is PageUp ==> name@ == "page-up"@,
        value is PageDown ==> name@ == "page-down"@,
        value is Disabled ==> name@ == "disabled"@,
        word@ == "left-click"@ <==> found == Some(DesktopAction::LeftClick),
        word@ == "right-click"@ <==> found == Some(DesktopAction::RightClick),
        word@ == "enter"@ <==> found == Some(DesktopAction::Enter),
        word@ == "escape"@ <==> found == Some(DesktopAction::Escape),
        word@ == "overview"@ <==> found == Some(DesktopAction::Overview),
        word@ == "page-up"@ <==> found == Some(DesktopAction::PageUp),
        word@ == "page-down"@ <==> found == Some(DesktopAction::PageDown),
        word@ == "disabled"@ <==> found == Some(DesktopAction::Disabled),
        word@ == name@ <==> found == Some(value),
{
    round_trip::lemma_action_value(DesktopAction::LeftClick);
    round_trip::lemma_action_value(DesktopAction::RightClick);
    round_trip::lemma_action_value(DesktopAction::Enter);
    round_trip::lemma_action_value(DesktopAction::Escape);
    round_trip::lemma_action_value(DesktopAction::Overview);
    round_trip::lemma_action_value(DesktopAction::PageUp);
    round_trip::lemma_action_value(DesktopAction::PageDown);
    round_trip::lemma_action_value(DesktopAction::Disabled);
}

/// Switches are set by two words.
pub proof fn switches_have_names(word: &str, found: Option<bool>)
    requires
        call_ensures(config_text::parse_switch, (word, ), found),
    ensures
        word@ == "true"@ <==> found == Some(true),
        word@ == "false"@ <==> found == Some(false),
{
    round_trip::lemma_switch_value(true);
    round_trip::lemma_switch_value(false);
}

/// A whole number is read as it is written, with or without a sign.
pub proof fn whole_numbers_are_read(s: &str, n: i32, found: Option<i32>)
    requires
        call_ensures(config_text::parse_integer, (s, ), found),
    ensures
        s@ == text::signed_decimal(n as int) ==> found == Some(n),
        n >= 0 && s@ == seq!['+'] + text::decimal(n as nat) ==> found == Some(n),
        s@.len() == 0 ==> found is None,
{
    round_trip::lemma_number_value(n);
    if n >= 0 && s@ == seq!['+'] + text::decimal(n as nat) {
        round_trip::lemma_digits(n as nat);
        assert(s@.subrange(1, s@.len() as int) =~= text::decimal(n as nat));
    }
}

/// A line that sets a key to a value.
pub open spec fn line(key: Seq<char>, value: Seq<char>) -> Seq<char> {
    key + "="@ + value
}

proof fn lemma_single_line(t: Seq<char>)
    requires
        forall|i: int| 0 <= i < t.len() ==> #[trigger] t[i] != '\n',
    ensures
        config_text::lines(t) == seq![t],
    decreases t.len(),
{
    if t.len() == 0 {
        assert(t =~= Seq::<char>::empty());
    } else {
        let front = t.drop_last();
        assert forall|i: int| 0 <= i < front.len() implies #[trigger] front[i] != '\n' by {
            assert(front[i] == t[i]);
        }
        lemma_single_line(front);
        assert(t[t.len() - 1] != '\n');
        assert(front.push(t.last()) =~= t);
        assert(config_text::lines(t) =~= seq![t]);
    }
}

proof fn lemma_one_line(config: ConfigView, bytes: Seq<u8>, t: Seq<char>)
    requires
        text::decoded(bytes) == Some(t),
        forall|i: int| 0 <= i < t.len() ==> #[trigger] t[i] != '\n',
    ensures
        config_text::reading(config, bytes) == (match config_text::after_line(
            config_text::fresh(config),
            t,
        ) {
            None => config_text::Reading::Line(1),
            Some(next) => match config_text::completed(next) {
                None => config_text::Reading::Incomplete,
                Some(done) => config_text::Reading::Config(done),
            },
        }),
{
    lemma_single_line(t);
    reveal_with_fuel(config_text::after_lines, 2);
    assert(config_text::lines(t)[0] == t);
}

proof fn lemma_set(config: ConfigView, bytes: Seq<u8>, key: Seq<char>, value: Seq<char>)
    requires
        round_trip::is_key(key),
        round_trip::is_plain(value),
        text::decoded(bytes) == Some(line(key, value)),
    ensures
        config_text::reading(config, bytes) == (match config_text::assignment(
            config_text::fresh(config),
            key,
            value,
        ) {
            Assignment::Accepted(next) => match config_text::completed(next) {
                None => config_text::Reading::Incomplete,
                Some(done) => config_text::Reading::Config(done),
            },
            _ => config_text::Reading::Line(1),
        }),
{
    reveal_strlit("=");
    let t = line(key, value);
    assert forall|i: int| 0 <= i < t.len() implies #[trigger] t[i] != '\n' by {
        if i < key.len() {
            assert(t[i] == key[i]);
        } else if i > key.len() {
            assert(t[i] == value[i - key.len() - 1]);
        }
    }
    round_trip::lemma_line(config_text::fresh(config), key, value);
    lemma_one_line(config, bytes, t);
}

/// A line that sets a number sets that number, and nothing else.
pub proof fn number_lines_set_their_number(
    config: &mut Config,
    origin: &str,
    bytes: &[u8],
    result: Result<(), ConfigError>,
    n: i32,
)
    requires
        call_ensures(Config::apply_bytes, (config, origin, bytes), result),

    ensures
        text::decoded(bytes@) == Some(line("pointer-speed"@, text::signed_decimal(n as int)))
            ==> result is Ok
            && final(config)@ == (ConfigView { pointer_speed: n, ..old(config)@ }),
        text::decoded(bytes@) == Some(line("ir-speed"@, text::signed_decimal(n as int)))
            ==> result is Ok
            && final(config)@ == (ConfigView { ir_speed: n, ..old(config)@ }),
        text::decoded(bytes@) == Some(line("ir-deadzone"@, text::signed_decimal(n as int)))
            ==> result is Ok
            && final(config)@ == (ConfigView { ir_deadzone: n, ..old(config)@ }),
        text::decoded(bytes@) == Some(line("ir-smoothing"@, text::signed_decimal(n as int)))
            ==> result is Ok
            && final(config)@ == (ConfigView { ir_smoothing: n, ..old(config)@ }),
        text::decoded(bytes@) == Some(line("aim-sensitivity"@, text::signed_decimal(n as int)))
            ==> result is Ok
            && final(config)@ == (ConfigView { aim_sensitivity: n, ..old(config)@ }),
        text::decoded(bytes@) == Some(line("aim-deadzone"@, text::signed_decimal(n as int)))
            ==> result is Ok
            && final(config)@ == (ConfigView { aim_deadzone: n, ..old(config)@ }),
        text::decoded(bytes@) == Some(line("aim-smoothing"@, text::signed_decimal(n as int)))
            ==> result is Ok
            && final(config)@ == (ConfigView { aim_smoothing: n, ..old(config)@ }),
        text::decoded(bytes@)
            == Some(line("aim-calibration-duration"@, text::signed_decimal(n as int)))
                ==> result is Ok
            && final(config)@ == (ConfigView { aim_calibration_duration: n, ..old(config)@ }),
{
    round_trip::lemma_number_keys();
    round_trip::lemma_number_value(n);
    let value = text::signed_decimal(n as int);
    if text::decoded(bytes@) == Some(line("pointer-speed"@, value)) {
        lemma_set(old(config)@, bytes@, "pointer-speed"@, value);
        round_trip::lemma_keys();
    }
    if text::decoded(bytes@) == Some(line("ir-speed"@, value)) {
        lemma_set(old(config)@, bytes@, "ir-speed"@, value);
        round_trip::lemma_keys();
    }
    if text::decoded(bytes@) == Some(line("ir-deadzone"@, value)) {
        lemma_set(old(config)@, bytes@, "ir-deadzone"@, value);
        round_trip::lemma_keys();
    }
    if text::decoded(bytes@) == Some(line("ir-smoothing"@, value)) {
        lemma_set(old(config)@, bytes@, "ir-smoothing"@, value);
        round_trip::lemma_keys();
    }
    if text::decoded(bytes@) == Some(line("aim-sensitivity"@, value)) {
        lemma_set(old(config)@, bytes@, "aim-sensitivity"@, value);
        round_trip::lemma_keys();
    }
    if text::decoded(bytes@) == Some(line("aim-deadzone"@, value)) {
        lemma_set(old(config)@, bytes@, "aim-deadzone"@, value);
        round_trip::lemma_keys();
    }
    if text::decoded(bytes@) == Some(line("aim-smoothing"@, value)) {
        lemma_set(old(config)@, bytes@, "aim-smoothing"@, value);
        round_trip::lemma_keys();
    }
    if text::decoded(bytes@) == Some(line("aim-calibration-duration"@, value)) {
        lemma_set(old(config)@, bytes@, "aim-calibration-duration"@, value);
        round_trip::lemma_keys();
    }
}

/// A line that sets `profile` to a name sets what is so named, and nothing else.
pub proof fn profile_lines_set_their_choice(
    config: &mut Config,
    origin: &str,
    bytes: &[u8],
    result: Result<(), ConfigError>,
    word: &str,
    value: Profile,
)
    requires
        call_ensures(Config::apply_bytes, (config, origin, bytes), result),
        call_ensures(config_text::parse_profile, (word, ), Some(value)),
        text::decoded(bytes@) == Some(line("profile"@, word@)),
    ensures
        result is Ok && final(config)@ == (ConfigView { profile: value, ..old(config)@ }),
{
    round_trip::lemma_choice_keys();
    round_trip::lemma_profile_value(value);
    assert(word@ == config_text::profile_text(value));
    lemma_set(old(config)@, bytes@, "profile"@, word@);
    round_trip::lemma_keys();
}

/// A line that sets `ir-tracking` to a name sets what is so named, and nothing else.
pub proof fn ir_tracking_lines_set_their_choice(
    config: &mut Config,
    origin: &str,
    bytes: &[u8],
    result: Result<(), ConfigError>,
    word: &str,
    value: IrTracking,
)
    requires
        call_ensures(Config::apply_bytes, (config, origin, bytes), result),
        call_ensures(config_text::parse_ir_tracking, (word, ), Some(value)),
        text::decoded(bytes@) == Some(line("ir-tracking"@, word@)),
    ensures
        result is Ok && final(config)@ == (ConfigView { ir_tracking: value, ..old(config)@ }),
{
    round_trip::lemma_choice_keys();
    round_trip::lemma_ir_tracking_value(value);
    assert(word@ == config_text::ir_tracking_text(value));
    lemma_set(old(config)@, bytes@, "ir-tracking"@, word@);
    round_trip::lemma_keys();
}

/// A line that sets `ir-aim-mapping` to a name sets what is so named, and nothing else.
pub proof fn ir_mapping_lines_set_their_choice(
    config: &mut Config,
    origin: &str,
    bytes: &[u8],
    result: Result<(), ConfigError>,
    word: &str,
    value: IrAimMapping,
)
    requires
        call_ensures(Config::apply_bytes, (config, origin, bytes), result),
        call_ensures(config_text::parse_ir_mapping, (word, ), Some(value)),
        text::decoded(bytes@) == Some(line("ir-aim-mapping"@, word@)),
    ensures
        result is Ok && final(config)@ == (ConfigView { ir_aim_mapping: value, ..old(config)@ }),
{
    round_trip::lemma_choice_keys();
    round_trip::lemma_ir_mapping_value(value);
    assert(word@ == config_text::ir_mapping_text(value));
    lemma_set(old(config)@, bytes@, "ir-aim-mapping"@, word@);
    round_trip::lemma_keys();
}

/// A line that sets `aim-mode` to a name sets what is so named, and nothing else.
pub proof fn aim_mode_lines_set_their_choice(
    config: &mut Config,
    origin: &str,
    bytes: &[u8],
    result: Result<(), ConfigError>,
    word: &str,
    value: AimMode,
)
    requires
        call_ensures(Config::apply_bytes, (config, origin, bytes), result),
        call_ensures(config_text::parse_aim_mode, (word, ), Some(value)),
        text::decoded(bytes@) == Some(line("aim-mode"@, word@)),
    ensures
        result is Ok && final(config)@ == (ConfigView { aim_mode: value, ..old(config)@ }),
{
    round_trip::lemma_choice_keys();
    round_trip::lemma_aim_mode_value(value);
    assert(word@ == config_text::aim_mode_text(value));
    lemma_set(old(config)@, bytes@, "aim-mode"@, word@);
    round_trip::lemma_keys();
}

/// A line that sets `aim-source` to a name sets what is so named, and nothing else.
pub proof fn aim_source_lines_set_their_choice(
    config: &mut Config,
    origin: &str,
    bytes: &[u8],
    result: Result<(), ConfigError>,
    word: &str,
    value: AimSource,
)
    requires
        call_ensures(Config::apply_bytes, (config, origin, bytes), result),
        call_ensures(config_text::parse_aim_source, (word, ), Some(value)),
        text::decoded(bytes@) == Some(line("aim-source"@, word@)),
    ensures
        result is Ok && final(config)@ == (ConfigView { aim_source: value, ..old(config)@ }),
{
    round_trip::lemma_choice_keys();
    round_trip::lemma_aim_source_value(value);
    assert(word@ == config_text::aim_source_text(value));
    lemma_set(old(config)@, bytes@, "aim-source"@, word@);
    round_trip::lemma_keys();
}

/// A line that sets `aim-activation` to a name sets what is so named, and nothing else.
pub proof fn aim_activation_lines_set_their_choice(
    config: &mut Config,
    origin: &str,
    bytes: &[u8],
    result: Result<(), ConfigError>,
    word: &str,
    value: AimActivation,
)
    requires
        call_ensures(Config::apply_bytes, (config, origin, bytes), result),
        call_ensures(config_text::parse_aim_activation, (word, ), Some(value)),
        text::decoded(bytes@) == Some(line("aim-activation"@, word@)),
    ensures
        result is Ok && final(config)@ == (ConfigView { aim_activation: value, ..old(config)@ }),
{
    round_trip::lemma_choice_keys();
    round_trip::lemma_aim_activation_value(value);
    assert(word@ == config_text::aim_activation_text(value));
    lemma_set(old(config)@, bytes@, "aim-activation"@, word@);
    round_trip::lemma_keys();
}

/// A line that sets a switch sets that switch, and nothing else.
pub proof fn switch_lines_set_their_switch(
    config: &mut Config,
    origin: &str,
    bytes: &[u8],
    result: Result<(), ConfigError>,

)
    requires
        call_ensures(Config::apply_bytes, (config, origin, bytes), result),

    ensures
        text::decoded(bytes@) == Some(line("aim-invert-x"@, "true"@)) ==> result is Ok
            && final(config)@ == (ConfigView { aim_invert_x: true, ..old(config)@ }),
        text::decoded(bytes@) == Some(line("aim-invert-x"@, "false"@)) ==> result is Ok
            && final(config)@ == (ConfigView { aim_invert_x: false, ..old(config)@ }),
        text::decoded(bytes@) == Some(line("aim-invert-y"@, "true"@)) ==> result is Ok
            && final(config)@ == (ConfigView { aim_invert_y: true, ..old(config)@ }),
        text::decoded(bytes@) == Some(line("aim-invert-y"@, "false"@)) ==> result is Ok
            && final(config)@ == (ConfigView { aim_invert_y: false, ..old(config)@ }),
{
    round_trip::lemma_choice_keys();
    round_trip::lemma_switch_value(true);
    round_trip::lemma_switch_value(false);
    if text::decoded(bytes@) == Some(line("aim-invert-x"@, "true"@)) {
        lemma_set(old(config)@, bytes@, "aim-invert-x"@, "true"@);
        round_trip::lemma_keys();
    }
    if text::decoded(bytes@) == Some(line("aim-invert-x"@, "false"@)) {
        lemma_set(old(config)@, bytes@, "aim-invert-x"@, "false"@);
        round_trip::lemma_keys();
    }
    if text::decoded(bytes@) == Some(line("aim-invert-y"@, "true"@)) {
        lemma_set(old(config)@, bytes@, "aim-invert-y"@, "true"@);
        round_trip::lemma_keys();
    }
    if text::decoded(bytes@) == Some(line("aim-invert-y"@, "false"@)) {
        lemma_set(old(config)@, bytes@, "aim-invert-y"@, "false"@);
        round_trip::lemma_keys();
    }
}

#[verifier::spinoff_prover]
proof fn lemma_bind_a(
    config: ConfigView,
    origin: Seq<char>,
    bytes: Seq<u8>,
    value: DesktopAction,
)
    requires
        text::decoded(bytes) == Some(line("bind-a"@, config_text::action_text(value))),
    ensures
        config_text::after_bytes(config, origin, bytes) == Ok::<
            ConfigView,
            config_text::ConfigErrorView,
        >(
            ConfigView {
                desktop_bindings: DesktopBindings { a: value, ..config.desktop_bindings },
                ..config
            },
        ),
{
    round_trip::lemma_binding_keys();
    round_trip::lemma_action_value(value);
    lemma_set(config, bytes, "bind-a"@, config_text::action_text(value));
    round_trip::lemma_keys();
}

#[verifier::spinoff_prover]
proof fn lemma_bind_b(
    config: ConfigView,
    origin: Seq<char>,
    bytes: Seq<u8>,
    value: DesktopAction,
)
    requires
        text::decoded(bytes) == Some(line("bind-b"@, config_text::action_text(value))),
    ensures
        config_text::after_bytes(config, origin, bytes) == Ok::<
            ConfigView,
            config_text::ConfigErrorView,
        >(
            ConfigView {
                desktop_bindings: DesktopBindings { b: value, ..config.desktop_bindings },
                ..config
            },
        ),
{
    round_trip::lemma_binding_keys();
    round_trip::lemma_action_value(value);
    lemma_set(config, bytes, "bind-b"@, config_text::action_text(value));
    round_trip::lemma_keys();
}

#[verifier::spinoff_prover]
proof fn lemma_bind_plus(
    config: ConfigView,
    origin: Seq<char>,
    bytes: Seq<u8>,
    value: DesktopAction,
)
    requires
        text::decoded(bytes) == Some(line("bind-plus"@, config_text::action_text(value))),
    ensures
        config_text::after_bytes(config, origin, bytes) == Ok::<
            ConfigView,
            config_text::ConfigErrorView,
        >(
            ConfigView {
                desktop_bindings: DesktopBindings { plus: value, ..config.desktop_bindings },
                ..config
            },
        ),
{
    round_trip::lemma_binding_keys();
    round_trip::lemma_action_value(value);
    lemma_set(config, bytes, "bind-plus"@, config_text::action_text(value));
    round_trip::lemma_keys();
}

#[verifier::spinoff_prover]
proof fn lemma_bind_minus(
    config: ConfigView,
    origin: Seq<char>,
    bytes: Seq<u8>,
    value: DesktopAction,
)
    requires
        text::decoded(bytes) == Some(line("bind-minus"@, config_text::action_text(value))),
    ensures
        config_text::after_bytes(config, origin, bytes) == Ok::<
            ConfigView,
            config_text::ConfigErrorView,
        >(
            ConfigView {
                desktop_bindings: DesktopBindings { minus: value, ..config.desktop_bindings },
                ..config
            },
        ),
{
    round_trip::lemma_binding_keys();
    round_trip::lemma_action_value(value);
    lemma_set(config, bytes, "bind-minus"@, config_text::action_text(value));
    round_trip::lemma_keys();
}

#[verifier::spinoff_prover]
proof fn lemma_bind_home(
    config: ConfigView,
    origin: Seq<char>,
    bytes: Seq<u8>,
    value: DesktopAction,
)
    requires
        text::decoded(bytes) == Some(line("bind-home"@, config_text::action_text(value))),
    ensures
        config_text::after_bytes(config, origin, bytes) == Ok::<
            ConfigView,
            config_text::ConfigErrorView,
        >(
            ConfigView {
                desktop_bindings: DesktopBindings { home: value, ..config.desktop_bindings },
                ..config
            },
        ),
{
    round_trip::lemma_binding_keys();
    round_trip::lemma_action_value(value);
    lemma_set(config, bytes, "bind-home"@, config_text::action_text(value));
    round_trip::lemma_keys();
}

#[verifier::spinoff_prover]
proof fn lemma_bind_one(
    config: ConfigView,
    origin: Seq<char>,
    bytes: Seq<u8>,
    value: DesktopAction,
)
    requires
        text::decoded(bytes) == Some(line("bind-one"@, config_text::action_text(value))),
    ensures
        config_text::after_bytes(config, origin, bytes) == Ok::<
            ConfigView,
            config_text::ConfigErrorView,
        >(
            ConfigView {
                desktop_bindings: DesktopBindings { one: value, ..config.desktop_bindings },
                ..config
            },
        ),
{
    round_trip::lemma_binding_keys();
    round_trip::lemma_action_value(value);
    lemma_set(config, bytes, "bind-one"@, config_text::action_text(value));
    round_trip::lemma_keys();
}

#[verifier::spinoff_prover]
proof fn lemma_bind_two(
    config: ConfigView,
    origin: Seq<char>,
    bytes: Seq<u8>,
    value: DesktopAction,
)
    requires
        text::decoded(bytes) == Some(line("bind-two"@, config_text::action_text(value))),
    ensures
        config_text::after_bytes(config, origin, bytes) == Ok::<
            ConfigView,
            config_text::ConfigErrorView,
        >(
            ConfigView {
                desktop_bindings: DesktopBindings { two: value, ..config.desktop_bindings },
                ..config
            },
        ),
{
    round_trip::lemma_binding_keys();
    round_trip::lemma_action_value(value);
    lemma_set(config, bytes, "bind-two"@, config_text::action_text(value));
    round_trip::lemma_keys();
}

/// A line that binds a button binds that button, and nothing else.
pub proof fn binding_lines_bind_their_button(
    config: &mut Config,
    origin: &str,
    bytes: &[u8],
    result: Result<(), ConfigError>,
    word: &str,
    value: DesktopAction,
)
    requires
        call_ensures(Config::apply_bytes, (config, origin, bytes), result),
        call_ensures(config_text::parse_action, (word, ), Some(value)),
    ensures
        text::decoded(bytes@) == Some(line("bind-a"@, word@)) ==> result is Ok && final(config)@
            == (ConfigView {
            desktop_bindings: DesktopBindings { a: value, ..old(config)@.desktop_bindings },
            ..old(config)@
        }),
        text::decoded(bytes@) == Some(line("bind-b"@, word@)) ==> result is Ok && final(config)@
            == (ConfigView {
            desktop_bindings: DesktopBindings { b: value, ..old(config)@.desktop_bindings },
            ..old(config)@
        }),
        text::decoded(bytes@) == Some(line("bind-plus"@, word@)) ==> result is Ok && final(config)@
            == (ConfigView {
            desktop_bindings: DesktopBindings { plus: value, ..old(config)@.desktop_bindings },
            ..old(config)@
        }),
        text::decoded(bytes@) == Some(line("bind-minus"@, word@)) ==> result is Ok && final(config)@
            == (ConfigView {
            desktop_bindings: DesktopBindings { minus: value, ..old(config)@.desktop_bindings },
            ..old(config)@
        }),
        text::decoded(bytes@) == Some(line("bind-home"@, word@)) ==> result is Ok && final(config)@
            == (ConfigView {
            desktop_bindings: DesktopBindings { home: value, ..old(config)@.desktop_bindings },
            ..old(config)@
        }),
        text::decoded(bytes@) == Some(line("bind-one"@, word@)) ==> result is Ok && final(config)@
            == (ConfigView {
            desktop_bindings: DesktopBindings { one: value, ..old(config)@.desktop_bindings },
            ..old(config)@
        }),
        text::decoded(bytes@) == Some(line("bind-two"@, word@)) ==> result is Ok && final(config)@
            == (ConfigView {
            desktop_bindings: DesktopBindings { two: value, ..old(config)@.desktop_bindings },
            ..old(config)@
        }),
{
    assert(word@ == config_text::action_text(value));
    if text::decoded(bytes@) == Some(line("bind-a"@, word@)) {
        lemma_bind_a(old(config)@, origin@, bytes@, value);
    }
    if text::decoded(bytes@) == Some(line("bind-b"@, word@)) {
        lemma_bind_b(old(config)@, origin@, bytes@, value);
    }
    if text::decoded(bytes@) == Some(line("bind-plus"@, word@)) {
        lemma_bind_plus(old(config)@, origin@, bytes@, value);
    }
    if text::decoded(bytes@) == Some(line("bind-minus"@, word@)) {
        lemma_bind_minus(old(config)@, origin@, bytes@, value);
    }
    if text::decoded(bytes@) == Some(line("bind-home"@, word@)) {
        lemma_bind_home(old(config)@, origin@, bytes@, value);
    }
    if text::decoded(bytes@) == Some(line("bind-one"@, word@)) {
        lemma_bind_one(old(config)@, origin@, bytes@, value);
    }
    if text::decoded(bytes@) == Some(line("bind-two"@, word@)) {
        lemma_bind_two(old(config)@, origin@, bytes@, value);
    }
}

/// The keys of calibrations and of the screen set one part each.
pub proof fn part_lines_set_one_part(draft: DraftView, n: i32)
    ensures
        config_text::assignment(draft, "aim-accel-zero-x"@, text::signed_decimal(n as int))
            == Assignment::Accepted(
            DraftView { accel: PartialTriple { x: Some(n), ..draft.accel }, ..draft },
        ),
        config_text::assignment(draft, "aim-accel-zero-y"@, text::signed_decimal(n as int))
            == Assignment::Accepted(
            DraftView { accel: PartialTriple { y: Some(n), ..draft.accel }, ..draft },
        ),
        config_text::assignment(draft, "aim-accel-zero-z"@, text::signed_decimal(n as int))
            == Assignment::Accepted(
            DraftView { accel: PartialTriple { z: Some(n), ..draft.accel }, ..draft },
        ),
        config_text::assignment(draft, "aim-motion-plus-bias-x"@, text::signed_decimal(n as int))
            == Assignment::Accepted(
            DraftView { motion: PartialTriple { x: Some(n), ..draft.motion }, ..draft },
        ),
        config_text::assignment(draft, "aim-motion-plus-bias-y"@, text::signed_decimal(n as int))
            == Assignment::Accepted(
            DraftView { motion: PartialTriple { y: Some(n), ..draft.motion }, ..draft },
        ),
        config_text::assignment(draft, "aim-motion-plus-bias-z"@, text::signed_decimal(n as int))
            == Assignment::Accepted(
            DraftView { motion: PartialTriple { z: Some(n), ..draft.motion }, ..draft },
        ),
        config_text::assignment(draft, "ir-screen-left"@, text::signed_decimal(n as int))
            == Assignment::Accepted(
            DraftView { screen: PartialScreen { left: Some(n), ..draft.screen }, ..draft },
        ),
        config_text::assignment(draft, "ir-screen-right"@, text::signed_decimal(n as int))
            == Assignment::Accepted(
            DraftView { screen: PartialScreen { right: Some(n), ..draft.screen }, ..draft },
        ),
        config_text::assignment(draft, "ir-screen-top"@, text::signed_decimal(n as int))
            == Assignment::Accepted(
            DraftView { screen: PartialScreen { top: Some(n), ..draft.screen }, ..draft },
        ),
        config_text::assignment(draft, "ir-screen-bottom"@, text::signed_decimal(n as int))
            == Assignment::Accepted(
            DraftView { screen: PartialScreen { bottom: Some(n), ..draft.screen }, ..draft },
        ),
{
    round_trip::lemma_keys();
    round_trip::lemma_number_value(n);
}

/// A part of a calibration or of a screen without the other parts is refused, and changes nothing.
pub proof fn parts_need_each_other(
    config: &mut Config,
    origin: &str,
    bytes: &[u8],
    result: Result<(), ConfigError>,
    n: i32,
    key: Seq<char>,
)
    requires
        call_ensures(Config::apply_bytes, (config, origin, bytes), result),
        key == "aim-accel-zero-x"@ || key == "aim-accel-zero-y"@ || key == "aim-accel-zero-z"@
            || key == "aim-motion-plus-bias-x"@ || key == "aim-motion-plus-bias-y"@ || key
                == "aim-motion-plus-bias-z"@ || key == "ir-screen-left"@ || key
                    == "ir-screen-right"@ || key == "ir-screen-top"@ || key == "ir-screen-bottom"@,
        text::decoded(bytes@) == Some(line(key, text::signed_decimal(n as int))),
    ensures
        result matches Err(error) && error.fault is Incomplete && (error.origin matches Some(o)
            && o@ == origin@),
        final(config)@ == old(config)@,
{
    round_trip::lemma_part_keys();
    round_trip::lemma_number_value(n);
    part_lines_set_one_part(config_text::fresh(old(config)@), n);
    lemma_set(old(config)@, bytes@, key, text::signed_decimal(n as int));
    if let Err(error) = result {
        assert(error@.fault == error.fault);
        assert(error@.origin == Some(origin@));
    }
}

/// With all parts there, a calibration and a screen are what their parts say.
pub proof fn complete_parts_are_taken(draft: DraftView, x: i32, y: i32, z: i32, w: i32)
    ensures
        draft.accel == (PartialTriple { x: Some(x), y: Some(y), z: Some(z) }) ==> (
        config_text::completed(draft) matches Some(c) ==> c.aim_accel_zero == Some(
            SensorCalibration { x, y, z },
        )),
        draft.motion == (PartialTriple { x: Some(x), y: Some(y), z: Some(z) }) ==> (
        config_text::completed(draft) matches Some(c) ==> c.aim_motion_plus_bias == Some(
            SensorCalibration { x, y, z },
        )),
        draft.screen == (PartialScreen {
            left: Some(x),
            right: Some(y),
            top: Some(z),
            bottom: Some(w),
        }) ==> (config_text::completed(draft) matches Some(c) ==> c.ir_screen == Some(
            IrScreen { left: x, right: y, top: z, bottom: w },
        )),
        draft.accel.x is Some && draft.accel.y is None ==> config_text::completed(draft) is None,
        draft == config_text::fresh(draft.config) ==> config_text::completed(draft) == Some(
            draft.config,
        ),
{
}

/// A rule's line adds a rule with its kind, its profile and its text behind the others.
pub proof fn rule_lines_add_a_rule(draft: DraftView, profile: Profile, match_text: Seq<char>)
    requires
        round_trip::is_plain(match_text),
    ensures
        ({
            let value = config_text::profile_text(profile) + " "@ + match_text;
            &&& config_text::assignment(draft, "rule-syspath"@, value) == Assignment::Accepted(
                DraftView {
                    config: ConfigView {
                        device_rules: draft.config.device_rules.push(
                            DeviceRuleView { kind: DeviceRuleKind::Syspath, match_text, profile },
                        ),
                        ..draft.config
                    },
                    ..draft
                },
            )
            &&& config_text::assignment(draft, "rule-devtype"@, value) == Assignment::Accepted(
                DraftView {
                    config: ConfigView {
                        device_rules: draft.config.device_rules.push(
                            DeviceRuleView { kind: DeviceRuleKind::Devtype, match_text, profile },
                        ),
                        ..draft.config
                    },
                    ..draft
                },
            )
        }),
{
    round_trip::lemma_keys();
    round_trip::lemma_rule_value(
        DeviceRuleView { kind: DeviceRuleKind::Syspath, match_text, profile },
    );
    round_trip::lemma_rule_value(
        DeviceRuleView { kind: DeviceRuleKind::Devtype, match_text, profile },
    );
}

/// A comment and an empty line change nothing.
pub proof fn comments_change_nothing(
    config: &mut Config,
    origin: &str,
    bytes: &[u8],
    result: Result<(), ConfigError>,
    t: Seq<char>,
)
    requires
        call_ensures(Config::apply_bytes, (config, origin, bytes), result),
        text::decoded(bytes@) == Some(t),
        forall|i: int| 0 <= i < t.len() ==> #[trigger] t[i] != '\n',
        t.len() == 0 || (t[0] == '#' && !text::is_space(t[t.len() - 1])),
    ensures
        result is Ok,
        final(config)@ == old(config)@,
{
    lemma_one_line(old(config)@, bytes@, t);
}

/// A line without an equals sign is refused under its number, and changes nothing.
pub proof fn lines_need_an_equals_sign(
    config: &mut Config,
    origin: &str,
    bytes: &[u8],
    result: Result<(), ConfigError>,
    t: Seq<char>,
)
    requires
        call_ensures(Config::apply_bytes, (config, origin, bytes), result),
        text::decoded(bytes@) == Some(t),
        round_trip::is_key(t),
    ensures
        result matches Err(error) && error.fault == ConfigFault::Line(1),
        final(config)@ == old(config)@,
{
    lemma_one_line(old(config)@, bytes@, t);
    lemma_no_equals(t, 0);
    if let Err(error) = result {
        assert(error@.fault == error.fault);
    }
}

proof fn lemma_no_equals(s: Seq<char>, from: nat)
    requires
        forall|i: int| 0 <= i < s.len() ==> #[trigger] s[i] != '=',
    ensures
        config_text::first_equals(s, from) is None,
    decreases s.len() - from,
{
    if from < s.len() {
        lemma_no_equals(s, from + 1);
    }
}

/// What is not text is refused, and changes nothing.
pub proof fn files_are_text(
    config: &mut Config,
    origin: &str,
    bytes: &[u8],
    result: Result<(), ConfigError>,
)
    requires
        call_ensures(Config::apply_bytes, (config, origin, bytes), result),
        text::decoded(bytes@) is None,
    ensures
        result matches Err(error) && error.fault is NotText,
        final(config)@ == old(config)@,
{
    if let Err(error) = result {
        assert(error@.fault == error.fault);
    }
}

/// A file that was asked for must be there; the usual files may be missing, and what is missing
/// leaves the defaults.
pub proof fn usual_files_may_be_missing(
    system: IoFailure,
    user: Layer,
    missing: IoFailure,
    path: &str,
    defaults: Result<Config, ConfigError>,
    explicit: Result<Config, ConfigError>,
    config: Config,
)
    requires
        call_ensures(Config::load, (Err(system), Some(user)), defaults),
        call_ensures(Config::load_file, (path, Err(missing)), explicit),
        call_ensures(Config::default, (), config),
        system.kind is NotFound,
        user.read == Err::<Vec<u8>, IoFailure>(missing),
        missing.kind is NotFound,
    ensures
        defaults matches Ok(c) && c@ == config@,
        explicit matches Err(error) && (error.fault matches ConfigFault::Io(failure) && failure
            == missing) && (error.origin matches Some(o) && o@ == path@),
{
    crate::config::default_configuration_is_valid();
    crate::config::valid_means_nothing_to_report(crate::config::default_config());
    if let Err(error) = explicit {
        assert(error@.fault == error.fault);
        assert(error@.origin == Some(path@));
    }
}

/// An explicit file stands alone: the usual files are not read on top of or below it.
pub proof fn explicit_files_stand_alone(
    system: Option<Layer>,
    user: Option<Layer>,
    explicit: Layer,
    layered: Result<Config, ConfigError>,
    alone: Result<Config, ConfigError>,
    path: &str,
)
    requires
        call_ensures(Config::load_layers, (system, user, Some(explicit)), layered),
        call_ensures(Config::load_file, (path, explicit.read), alone),
        explicit.origin@ == path@,
    ensures
        layered is Ok <==> alone is Ok,
        layered matches Ok(a) ==> (alone matches Ok(b) && a@ == b@),
        layered matches Err(a) ==> (alone matches Err(b) && a@ == b@),
{
}

/// The user's file is read on top of the system's.
pub proof fn the_users_file_is_on_top(
    system: Vec<u8>,
    user: Layer,
    top: Vec<u8>,
    layered: Result<Config, ConfigError>,
    config: Config,
    below: &mut Config,
    first: Result<(), ConfigError>,
    above: &mut Config,
    second: Result<(), ConfigError>,
    place: &str,
    own: &str,
    a: &[u8],
    b: &[u8],
)
    requires
        call_ensures(Config::load, (Ok(system), Some(user)), layered),
        user.read == Ok::<Vec<u8>, IoFailure>(top),
        call_ensures(Config::default, (), config),
        *old(below) == config,
        a@ == system@,
        b@ == top@,
        call_ensures(Config::apply_bytes, (below, place, a), first),
        *old(above) == *final(below),
        call_ensures(Config::apply_bytes, (above, own, b), second),
        first is Ok,
        second is Ok,
    ensures
        layered matches Ok(c) ==> c@ == final(above)@,
        layered is Ok <==> final(above)@.first_problem() is None,
{
}

/// Bytes are read on top of the defaults, and must be in range.
pub proof fn bytes_are_read_on_the_defaults(
    origin: &str,
    bytes: &[u8],
    read: Result<Config, ConfigError>,
    config: Config,
    target: &mut Config,
    applied: Result<(), ConfigError>,
)
    requires
        call_ensures(Config::parse_bytes, (origin, bytes), read),
        call_ensures(Config::default, (), config),
        *old(target) == config,
        call_ensures(Config::apply_bytes, (target, origin, bytes), applied),
    ensures
        read matches Ok(c) ==> applied is Ok && c@ == final(target)@,
        applied is Ok && final(target)@.first_problem() is None ==> read is Ok,
        applied is Err ==> read is Err,
{
}

/// A profile has the name that the file has for it.
pub proof fn profile_words_are_those_of_the_file(
    profile: Profile,
    name: &'static str,
    word: &str,
    found: Option<Profile>,
)
    requires
        call_ensures(Profile::as_str, (profile, ), name),
        call_ensures(Profile::parse, (word, ), found),
    ensures
        profile is Gamepad ==> name@ == "gamepad"@,
        profile is Desktop ==> name@ == "desktop"@,
        profile is Both ==> name@ == "both"@,
        word@ == name@ <==> found == Some(profile),
{
    round_trip::lemma_profile_value(Profile::Gamepad);
    round_trip::lemma_profile_value(Profile::Desktop);
    round_trip::lemma_profile_value(Profile::Both);
}

/// A form that is saved reads back as it is: what is written for it, read on the defaults, is it.
pub proof fn written_forms_read_back(
    form: &crate::model::ConfigModel,
    written: Vec<u8>,
    origin: &str,
    bytes: &[u8],
    read: Result<Config, ConfigError>,
)
    requires
        call_ensures(crate::model::ConfigModel::render, (form, ), written),
        call_ensures(Config::parse_bytes, (origin, bytes), read),
        bytes@ == written@,
        form.config@.valid(),
        forall|i: int|
            0 <= i < form.config@.device_rules.len() ==> round_trip::is_plain(
                (#[trigger] form.config@.device_rules[i]).match_text,
            ),
    ensures
        read matches Ok(c) && c@ == form.config@,
{
    round_trip::saved_configurations_read_back(origin@, form.config@);
}

} // verus!
