//! The settings: what they may be, what they are by default, and which profile a device gets.
use crate::config::{
    Config, ConfigProblem, ConfigView, DeviceRule, DeviceRuleKind, IrScreen, Profile,
    SensorCalibration, Setting, ValidatedConfig,
};
use crate::text;
use vstd::prelude::*;

verus! {

/// Whether a number is in a range, both ends included.
pub open spec fn between(low: int, n: int, high: int) -> bool {
    low <= n && n <= high
}

/// Whether each part of a calibration is a signed 16-bit number.
pub open spec fn is_calibration(c: SensorCalibration) -> bool {
    between(-32768, c.x as int, 32767) && between(-32768, c.y as int, 32767) && between(
        -32768,
        c.z as int,
        32767,
    )
}

/// Whether a screen lies in the positive signed 16-bit numbers and has an area.
pub open spec fn is_screen(s: IrScreen) -> bool {
    between(0, s.left as int, 32767) && between(0, s.right as int, 32767) && between(
        0,
        s.top as int,
        32767,
    ) && between(0, s.bottom as int, 32767) && s.left < s.right && s.top < s.bottom
}

/// Whether a text holds anything but white space.
pub open spec fn has_ink(s: Seq<char>) -> bool {
    exists|i: int| 0 <= i < s.len() && !text::is_space(#[trigger] s[i])
}

/// The ranges of all settings.
pub open spec fn in_ranges(c: ConfigView) -> bool {
    &&& between(1, c.pointer_speed as int, 127)
    &&& between(1, c.ir_speed as int, 127)
    &&& between(0, c.ir_deadzone as int, 127)
    &&& between(0, c.ir_smoothing as int, 95)
    &&& c.ir_screen matches Some(s) ==> is_screen(s)
    &&& between(1, c.aim_sensitivity as int, 127)
    &&& between(0, c.aim_deadzone as int, 32767)
    &&& between(0, c.aim_smoothing as int, 95)
    &&& between(1, c.aim_calibration_duration as int, 30)
    &&& c.aim_accel_zero matches Some(s) ==> is_calibration(s)
    &&& c.aim_motion_plus_bias matches Some(s) ==> is_calibration(s)
    &&& c.device_rules.len() <= 64
    &&& forall|i: int|
        0 <= i < c.device_rules.len() ==> has_ink((#[trigger] c.device_rules[i]).match_text)
}

proof fn lemma_trim_start(s: Seq<char>)
    ensures
        has_ink(s) ==> text::trim_start(s).len() > 0 && !text::is_space(text::trim_start(s)[0]),
        !has_ink(s) ==> text::trim_start(s).len() == 0,
    decreases s.len(),
{
    if s.len() > 0 {
        let rest = s.subrange(1, s.len() as int);
        lemma_trim_start(rest);
        if text::is_space(s[0]) {
            assert(has_ink(s) ==> has_ink(rest)) by {
                if has_ink(s) {
                    let i = choose|i: int| 0 <= i < s.len() && !text::is_space(#[trigger] s[i]);
                    assert(rest[i - 1] == s[i]);
                }
            }
            assert(has_ink(rest) ==> has_ink(s)) by {
                if has_ink(rest) {
                    let i = choose|i: int|
                        0 <= i < rest.len() && !text::is_space(#[trigger] rest[i]);
                    assert(rest[i] == s[i + 1]);
                }
            }
        }
    }
}

proof fn lemma_trim_end(s: Seq<char>)
    requires
        s.len() > 0 ==> !text::is_space(s[0]),
    ensures
        s.len() > 0 ==> text::trim_end(s).len() > 0,
        s.len() == 0 ==> text::trim_end(s).len() == 0,
    decreases s.len(),
{
    if s.len() > 1 {
        lemma_trim_end(s.drop_last());
    }
}

/// A text has nothing left after trimming exactly if it is all white space.
pub proof fn blank_texts_have_no_ink(s: Seq<char>)
    ensures
        text::trimmed(s).len() > 0 <==> has_ink(s),
{
    lemma_trim_start(s);
    lemma_trim_end(text::trim_start(s));
}

/// A configuration is accepted exactly if every setting is in its range, there are at most
/// sixty-four rules, and each of them has something to match.
pub proof fn settings_have_ranges(config: &Config, result: Result<(), ConfigProblem>)
    requires
        call_ensures(Config::validate, (config, ), result),
    ensures
        result is Ok <==> in_ranges(config@),
{
    let c = config@;
    assert(c.setting_valid(Setting::PointerSpeed) == between(1, c.pointer_speed as int, 127));
    assert(c.setting_valid(Setting::IrSpeed) == between(1, c.ir_speed as int, 127));
    assert(c.setting_valid(Setting::IrDeadzone) == between(0, c.ir_deadzone as int, 127));
    assert(c.setting_valid(Setting::IrSmoothing) == between(0, c.ir_smoothing as int, 95));
    assert(c.setting_valid(Setting::IrScreen) == (c.ir_screen matches Some(s) ==> is_screen(s)));
    assert(c.setting_valid(Setting::AimSensitivity) == between(1, c.aim_sensitivity as int, 127));
    assert(c.setting_valid(Setting::AimDeadzone) == between(0, c.aim_deadzone as int, 32767));
    assert(c.setting_valid(Setting::AimSmoothing) == between(0, c.aim_smoothing as int, 95));
    assert(c.setting_valid(Setting::AimCalibrationDuration) == between(
        1,
        c.aim_calibration_duration as int,
        30,
    ));
    assert(c.setting_valid(Setting::AimAccelZero) == (c.aim_accel_zero matches Some(s)
        ==> is_calibration(s)));
    assert(c.setting_valid(Setting::AimMotionPlusBias) == (c.aim_motion_plus_bias matches Some(s)
        ==> is_calibration(s)));
    assert forall|i: int| 0 <= i < c.device_rules.len() implies crate::config::rule_valid(
        #[trigger] c.device_rules[i],
    ) == has_ink(c.device_rules[i].match_text) by {
        blank_texts_have_no_ink(c.device_rules[i].match_text);
    }
    if in_ranges(c) {
        assert forall|i: int| 0 <= i < c.device_rules.len() implies crate::config::rule_valid(
            #[trigger] c.device_rules[i],
        ) by {
            assert(has_ink(c.device_rules[i].match_text));
        }
        assert(c.valid());
    }
    if c.valid() {
        assert forall|i: int| 0 <= i < c.device_rules.len() implies has_ink(
            (#[trigger] c.device_rules[i]).match_text,
        ) by {
            assert(crate::config::rule_valid(c.device_rules[i]));
        }
    }
}

/// A validated configuration is the configuration that was accepted.
pub proof fn accepted_settings_are_kept(
    config: Config,
    result: Result<ValidatedConfig, ConfigProblem>,
    validated: &ValidatedConfig,
    kept: &Config,
)
    requires
        call_ensures(ValidatedConfig::try_from, (config, ), result),
        call_ensures(ValidatedConfig::get, (validated, ), kept),
        result == Ok::<ValidatedConfig, ConfigProblem>(*validated),
    ensures
        kept@ == config@,
{
}

/// The first setting that is out of its range is the one that is named.
pub proof fn the_first_problem_is_named(config: &Config, result: Result<(), ConfigProblem>)
    requires
        call_ensures(Config::validate, (config, ), result),
    ensures
        result == Err::<(), ConfigProblem>(ConfigProblem::OutOfRange(Setting::PointerSpeed))
            <==> !between(1, config@.pointer_speed as int, 127),
        result == Err::<(), ConfigProblem>(ConfigProblem::OutOfRange(Setting::IrSpeed))
            <==> between(1, config@.pointer_speed as int, 127) && !between(
            1,
            config@.ir_speed as int,
            127,
        ),
        result == Err::<(), ConfigProblem>(ConfigProblem::TooManyRules)
            ==> config@.device_rules.len()
            > 64,
        result matches Err(ConfigProblem::BlankRule(i)) ==> i < config@.device_rules.len()
            && !has_ink(config@.device_rules[i as int].match_text) && forall|k: int|
            0 <= k < i ==> has_ink((#[trigger] config@.device_rules[k]).match_text),
{
    if result matches Err(ConfigProblem::BlankRule(i)) {
        lemma_first_blank(config@, 0);
    }
}

proof fn lemma_first_blank(c: ConfigView, from: nat)
    requires
        from <= c.device_rules.len() <= 64,
    ensures
        c.first_blank_rule(from) matches Some(i) ==> from <= i < c.device_rules.len() && !has_ink(
            c.device_rules[i as int].match_text,
        ) && forall|k: int|
            from <= k < i ==> has_ink((#[trigger] c.device_rules[k]).match_text),
    decreases c.device_rules.len() - from,
{
    if from < c.device_rules.len() {
        blank_texts_have_no_ink(c.device_rules[from as int].match_text);
        if crate::config::rule_valid(c.device_rules[from as int]) {
            lemma_first_blank(c, from + 1);
        }
    }
}

/// The defaults.
pub proof fn defaults_are_these(config: Config)
    requires
        call_ensures(Config::default, (), config),
    ensures
        config.profile is Gamepad,
        config.pointer_speed == 16 && config.ir_speed == 8 && config.ir_deadzone == 2,
        config.ir_smoothing == 0 && config.aim_smoothing == 0,
        config.ir_tracking is Dual && config.ir_aim_mapping is Relative,
        config.ir_screen is None && config.aim_accel_zero is None,
        config.aim_motion_plus_bias is None,
        config.aim_mode is Off && config.aim_source is Auto && config.aim_activation is B,
        config.aim_sensitivity == 16 && config.aim_deadzone == 16,
        !config.aim_invert_x && !config.aim_invert_y,
        config.aim_calibration_duration == 5,
        config.desktop_bindings.a is LeftClick && config.desktop_bindings.b is RightClick,
        config.desktop_bindings.plus is PageUp && config.desktop_bindings.minus is PageDown,
        config.desktop_bindings.home is Overview && config.desktop_bindings.one is Enter,
        config.desktop_bindings.two is Escape,
        config.device_rules@.len() == 0,
        in_ranges(config@),
{
    assert(config@.device_rules.len() == config.device_rules@.len());
}

/// A profile is a set of two outputs: the gamepad counts one and the desktop two.
pub proof fn profiles_are_sets_of_outputs(profile: Profile, bits: u8)
    requires
        call_ensures(Profile::bits, (profile, ), bits),
    ensures
        profile is Gamepad <==> bits == 1,
        profile is Desktop <==> bits == 2,
        profile is Both <==> bits == 3,
{
}

/// A profile contains itself; both outputs contain each of them; neither contains the other or both.
pub proof fn both_contains_each(profile: Profile, other: Profile, r: bool)
    requires
        call_ensures(Profile::contains, (profile, other), r),
    ensures
        r <==> profile == other || profile is Both,
{
}

proof fn lemma_profile(
    c: ConfigView,
    n: nat,
    syspath: Option<Seq<char>>,
    devtype: Option<Seq<char>>,
    last: int,
)
    requires
        last < n <= c.device_rules.len(),
        forall|k: int|
            last < k < n ==> !ConfigView::rule_matches(
                #[trigger] c.device_rules[k],
                syspath,
                devtype,
            ),
    ensures
        last < 0 ==> c.profile_after(n, syspath, devtype) == c.profile,
        last >= 0 && ConfigView::rule_matches(c.device_rules[last], syspath, devtype)
            ==> c.profile_after(n, syspath, devtype) == c.device_rules[last].profile,
    decreases n,
{
    if n > 0 && last < n - 1 {
        assert(!ConfigView::rule_matches(c.device_rules[n - 1], syspath, devtype));
        lemma_profile(c, (n - 1) as nat, syspath, devtype, last);
    }
}

/// The place of a text in another.
pub open spec fn stands_in(part: Seq<char>, whole: Seq<char>, before: Seq<char>, after: Seq<char>) -> bool {
    whole == before + part + after
}

/// Whether a rule speaks of a device: its text stands somewhere in the path or in the type,
/// whichever the rule is about.
pub open spec fn speaks_of(rule: DeviceRule, syspath: Option<&str>, devtype: Option<&str>) -> bool {
    match rule.kind {
        DeviceRuleKind::Syspath => syspath matches Some(path) && exists|
            before: Seq<char>,
            after: Seq<char>,
        | #[trigger] stands_in(rule.match_text@, path@, before, after),
        DeviceRuleKind::Devtype => devtype matches Some(name) && exists|
            before: Seq<char>,
            after: Seq<char>,
        | #[trigger] stands_in(rule.match_text@, name@, before, after),
    }
}

proof fn lemma_occurs(whole: Seq<char>, part: Seq<char>)
    ensures
        text::occurs_in(whole, part) <==> exists|before: Seq<char>, after: Seq<char>| #[trigger]
            stands_in(part, whole, before, after),
{
    if text::occurs_in(whole, part) {
        let i = choose|i: int| #[trigger] text::occurs_at(whole, part, i);
        let before = whole.subrange(0, i);
        let after = whole.subrange(i + part.len(), whole.len() as int);
        assert(whole =~= before + part + after);
        assert(stands_in(part, whole, before, after));
    }
    if exists|before: Seq<char>, after: Seq<char>| #[trigger]
        stands_in(part, whole, before, after) {
        let (before, after) = choose|before: Seq<char>, after: Seq<char>| #[trigger]
            stands_in(part, whole, before, after);
        let i = before.len() as int;
        assert(whole.subrange(i, i + part.len()) =~= part);
        assert(text::occurs_at(whole, part, i));
    }
}

proof fn lemma_speaks(rule: DeviceRule, syspath: Option<&str>, devtype: Option<&str>)
    ensures
        ConfigView::rule_matches(
            rule@,
            crate::config::optional_text(syspath),
            crate::config::optional_text(devtype),
        ) <==> speaks_of(rule, syspath, devtype),
{
    match rule.kind {
        DeviceRuleKind::Syspath => {
            if let Some(path) = syspath {
                lemma_occurs(path@, rule.match_text@);
            }
        },
        DeviceRuleKind::Devtype => {
            if let Some(name) = devtype {
                lemma_occurs(name@, rule.match_text@);
            }
        },
    }
}

/// A device gets the profile of the last rule that speaks of it, and the general profile where none
/// does.
pub proof fn the_last_matching_rule_decides(
    config: &Config,
    syspath: Option<&str>,
    devtype: Option<&str>,
    profile: Profile,
    last: int,
)
    requires
        call_ensures(Config::profile_for_device, (config, syspath, devtype), profile),
        -1 <= last < config.device_rules@.len(),
        last >= 0 ==> speaks_of(config.device_rules@[last], syspath, devtype),
        forall|k: int|
            last < k < config.device_rules@.len() ==> !speaks_of(
                #[trigger] config.device_rules@[k],
                syspath,
                devtype,
            ),
    ensures
        last == -1 ==> profile == config.profile,
        last >= 0 ==> profile == config.device_rules@[last].profile,
{
    let path = crate::config::optional_text(syspath);
    let name = crate::config::optional_text(devtype);
    let c = config@;
    assert forall|k: int| last < k < c.device_rules.len() implies !ConfigView::rule_matches(
        #[trigger] c.device_rules[k],
        path,
        name,
    ) by {
        lemma_speaks(config.device_rules@[k], syspath, devtype);
    }
    if last >= 0 {
        lemma_speaks(config.device_rules@[last], syspath, devtype);
    }
    lemma_profile(c, c.device_rules.len(), path, name, last);
}

/// The names of the settings are those of the configuration file.
pub proof fn settings_have_names(setting: Setting, name: &'static str)
    requires
        call_ensures(Setting::as_str, (setting, ), name),
    ensures
        setting is PointerSpeed ==> name@ == "pointer-speed"@,
        setting is IrSpeed ==> name@ == "ir-speed"@,
        setting is IrDeadzone ==> name@ == "ir-deadzone"@,
        setting is IrSmoothing ==> name@ == "ir-smoothing"@,
        setting is IrScreen ==> name@ == "ir-screen"@,
        setting is AimSensitivity ==> name@ == "aim-sensitivity"@,
        setting is AimDeadzone ==> name@ == "aim-deadzone"@,
        setting is AimSmoothing ==> name@ == "aim-smoothing"@,
        setting is AimCalibrationDuration ==> name@ == "aim-calibration-duration"@,
        setting is AimAccelZero ==> name@ == "aim-accel-zero"@,
        setting is AimMotionPlusBias ==> name@ == "aim-motion-plus-bias"@,
{
}

/// Two configurations are the same exactly if all their settings are.
pub proof fn equal_settings_are_the_same(a: &Config, b: &Config, r: bool)
    requires
        call_ensures(Config::same, (a, b), r),
    ensures
        r ==> a.profile == b.profile && a.pointer_speed == b.pointer_speed && a.ir_speed
            == b.ir_speed && a.ir_deadzone == b.ir_deadzone && a.ir_smoothing == b.ir_smoothing
            && a.ir_tracking == b.ir_tracking && a.ir_aim_mapping == b.ir_aim_mapping && a.ir_screen
            == b.ir_screen && a.aim_mode == b.aim_mode && a.aim_source == b.aim_source
            && a.aim_activation == b.aim_activation && a.aim_sensitivity == b.aim_sensitivity
            && a.aim_deadzone == b.aim_deadzone && a.aim_smoothing == b.aim_smoothing
            && a.aim_invert_x == b.aim_invert_x && a.aim_invert_y == b.aim_invert_y
            && a.aim_calibration_duration == b.aim_calibration_duration && a.aim_accel_zero
            == b.aim_accel_zero && a.aim_motion_plus_bias == b.aim_motion_plus_bias
            && a.desktop_bindings == b.desktop_bindings,
        r ==> a.device_rules@.len() == b.device_rules@.len() && forall|i: int|
            0 <= i < a.device_rules@.len() ==> (#[trigger] a.device_rules@[i])@
                == b.device_rules@[i]@,
        *a == *b ==> r,
{
    if r {
        let x = a@;
        let y = b@;
        assert(x.device_rules.len() == a.device_rules@.len());
        assert(y.device_rules.len() == b.device_rules@.len());
        assert forall|i: int| 0 <= i < a.device_rules@.len() implies (
        #[trigger] a.device_rules@[i])@ == b.device_rules@[i]@ by {
            assert(x.device_rules[i] == y.device_rules[i]);
        }
    }
}

} // verus!
