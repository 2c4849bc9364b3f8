//! Configuration values, their valid ranges, and the profile that a controller gets.
use crate::text;
use vstd::prelude::*;

verus! {

/// Where the system-wide configuration is kept.
pub const SYSTEM_CONFIG_PATH: &'static str = "/etc/wiiland/wiilandd.conf";

/// How many device rules one configuration may hold.
pub const MAX_DEVICE_RULES: usize = 64;

/// Which virtual outputs a controller drives.
#[derive(Clone, Copy, Debug, PartialEq, Eq, Structural, Hash)]
pub enum Profile {
    Gamepad,
    Desktop,
    Both,
}

impl Profile {
    pub const GAMEPAD: Profile = Profile::Gamepad;

    pub const DESKTOP: Profile = Profile::Desktop;

    pub const BOTH: Profile = Profile::Both;

    /// Whether a profile drives the virtual gamepad.
    pub open spec fn has_gamepad(self) -> bool {
        self is Gamepad || self is Both
    }

    /// Whether a profile drives the virtual desktop device.
    pub open spec fn has_desktop(self) -> bool {
        self is Desktop || self is Both
    }

    /// Whether every output of `other` is an output of `self`.
    pub open spec fn covers(self, other: Profile) -> bool {
        &&& other.has_gamepad() ==> self.has_gamepad()
        &&& other.has_desktop() ==> self.has_desktop()
    }

    /// Whether every output of `other` is an output of this profile.
    pub fn contains(self, other: Profile) -> (r: bool)
        ensures
            r == self.covers(other),
    {
        match self {
            Profile::Both => true,
            _ => self == other,
        }
    }

    /// The outputs as bits: one for the gamepad, two for the desktop.
    pub fn bits(self) -> (bits: u8)
        ensures
            bits == (if self.has_gamepad() {
                1int
            } else {
                0
            }) + (if self.has_desktop() {
                2int
            } else {
                0
            }),
    {
        match self {
            Profile::Gamepad => 1,
            Profile::Desktop => 2,
            Profile::Both => 3,
        }
    }
}

/// What motion aiming drives.
#[derive(Clone, Copy, Debug, PartialEq, Eq, Structural, Hash)]
pub enum AimMode {
    Off,
    RightStick,
    Mouse,
}

/// Which sensor motion aiming reads.
#[derive(Clone, Copy, Debug, PartialEq, Eq, Structural, Hash)]
pub enum AimSource {
    Auto,
    Ir,
    MotionPlus,
    Accelerometer,
}

/// What switches motion aiming on.
#[derive(Clone, Copy, Debug, PartialEq, Eq, Structural, Hash)]
pub enum AimActivation {
    B,
    Always,
    Z,
    C,
}

/// How visible IR points are reduced to one position.
#[derive(Clone, Copy, Debug, PartialEq, Eq, Structural, Hash)]
pub enum IrTracking {
    Dual,
    Centroid,
    First,
}

/// Whether IR aiming follows movement or position.
#[derive(Clone, Copy, Debug, PartialEq, Eq, Structural, Hash)]
pub enum IrAimMapping {
    Relative,
    Absolute,
}

/// What a controller button does on the desktop.
#[derive(Clone, Copy, Debug, PartialEq, Eq, Structural, Hash)]
pub enum DesktopAction {
    LeftClick,
    RightClick,
    Enter,
    Escape,
    Overview,
    PageUp,
    PageDown,
    Disabled,
}

/// The desktop action of each bindable button.
#[derive(Clone, Copy, Debug, PartialEq, Eq, Structural, Hash)]
pub struct DesktopBindings {
    pub a: DesktopAction,
    pub b: DesktopAction,
    pub plus: DesktopAction,
    pub minus: DesktopAction,
    pub home: DesktopAction,
    pub one: DesktopAction,
    pub two: DesktopAction,
}

/// The rest position of a sensor.
#[derive(Clone, Copy, Debug, PartialEq, Eq, Structural, Hash)]
pub struct SensorCalibration {
    pub x: i32,
    pub y: i32,
    pub z: i32,
}

/// The part of the IR sensor that stands for the screen.
#[derive(Clone, Copy, Debug, PartialEq, Eq, Structural, Hash)]
pub struct IrScreen {
    pub left: i32,
    pub right: i32,
    pub top: i32,
    pub bottom: i32,
}

/// Which property of a controller a rule looks at.
#[derive(Clone, Copy, Debug, PartialEq, Eq, Structural, Hash)]
pub enum DeviceRuleKind {
    Syspath,
    Devtype,
}

/// Gives a profile to the controllers whose property contains a text.
#[derive(Debug)]
pub struct DeviceRule {
    pub kind: DeviceRuleKind,
    pub match_text: String,
    pub profile: Profile,
}

/// The value of a rule.
pub struct DeviceRuleView {
    pub kind: DeviceRuleKind,
    pub match_text: Seq<char>,
    pub profile: Profile,
}

impl View for DeviceRule {
    type V = DeviceRuleView;

    open spec fn view(&self) -> DeviceRuleView {
        DeviceRuleView { kind: self.kind, match_text: self.match_text@, profile: self.profile }
    }
}

impl Clone for DeviceRule {
    fn clone(&self) -> (rule: DeviceRule)
        ensures
            rule@ == self@,
    {
        DeviceRule {
            kind: self.kind,
            match_text: self.match_text.clone(),
            profile: self.profile,
        }
    }
}

impl DeviceRule {
    /// Whether two rules have the same value.
    pub fn same(&self, other: &DeviceRule) -> (r: bool)
        ensures
            r == (self@ == other@),
    {
        self.kind == other.kind && self.profile == other.profile && self.match_text
            == other.match_text
    }
}

/// Everything that can be configured. A value of this type may still be out of range.
#[derive(Debug)]
pub struct Config {
    pub profile: Profile,
    pub pointer_speed: i32,
    pub ir_speed: i32,
    pub ir_deadzone: i32,
    pub ir_smoothing: i32,
    pub ir_tracking: IrTracking,
    pub ir_aim_mapping: IrAimMapping,
    pub ir_screen: Option<IrScreen>,
    pub aim_mode: AimMode,
    pub aim_source: AimSource,
    pub aim_activation: AimActivation,
    pub aim_sensitivity: i32,
    pub aim_deadzone: i32,
    pub aim_smoothing: i32,
    pub aim_invert_x: bool,
    pub aim_invert_y: bool,
    pub aim_calibration_duration: i32,
    pub aim_accel_zero: Option<SensorCalibration>,
    pub aim_motion_plus_bias: Option<SensorCalibration>,
    pub desktop_bindings: DesktopBindings,
    pub device_rules: Vec<DeviceRule>,
}

/// The value of a configuration.
#[verifier::ext_equal]
pub struct ConfigView {
    pub profile: Profile,
    pub pointer_speed: i32,
    pub ir_speed: i32,
    pub ir_deadzone: i32,
    pub ir_smoothing: i32,
    pub ir_tracking: IrTracking,
    pub ir_aim_mapping: IrAimMapping,
    pub ir_screen: Option<IrScreen>,
    pub aim_mode: AimMode,
    pub aim_source: AimSource,
    pub aim_activation: AimActivation,
    pub aim_sensitivity: i32,
    pub aim_deadzone: i32,
    pub aim_smoothing: i32,
    pub aim_invert_x: bool,
    pub aim_invert_y: bool,
    pub aim_calibration_duration: i32,
    pub aim_accel_zero: Option<SensorCalibration>,
    pub aim_motion_plus_bias: Option<SensorCalibration>,
    pub desktop_bindings: DesktopBindings,
    pub device_rules: Seq<DeviceRuleView>,
}

/// The values of a list of rules.
pub open spec fn rules_view(rules: Seq<DeviceRule>) -> Seq<DeviceRuleView> {
    rules.map_values(|rule: DeviceRule| rule@)
}

impl View for Config {
    type V = ConfigView;

    open spec fn view(&self) -> ConfigView {
        ConfigView {
            profile: self.profile,
            pointer_speed: self.pointer_speed,
            ir_speed: self.ir_speed,
            ir_deadzone: self.ir_deadzone,
            ir_smoothing: self.ir_smoothing,
            ir_tracking: self.ir_tracking,
            ir_aim_mapping: self.ir_aim_mapping,
            ir_screen: self.ir_screen,
            aim_mode: self.aim_mode,
            aim_source: self.aim_source,
            aim_activation: self.aim_activation,
            aim_sensitivity: self.aim_sensitivity,
            aim_deadzone: self.aim_deadzone,
            aim_smoothing: self.aim_smoothing,
            aim_invert_x: self.aim_invert_x,
            aim_invert_y: self.aim_invert_y,
            aim_calibration_duration: self.aim_calibration_duration,
            aim_accel_zero: self.aim_accel_zero,
            aim_motion_plus_bias: self.aim_motion_plus_bias,
            desktop_bindings: self.desktop_bindings,
            device_rules: rules_view(self.device_rules@),
        }
    }
}

/// The configuration before any file is read.
pub open spec fn default_config() -> ConfigView {
    ConfigView {
        profile: Profile::Gamepad,
        pointer_speed: 16,
        ir_speed: 8,
        ir_deadzone: 2,
        ir_smoothing: 0,
        ir_tracking: IrTracking::Dual,
        ir_aim_mapping: IrAimMapping::Relative,
        ir_screen: None,
        aim_mode: AimMode::Off,
        aim_source: AimSource::Auto,
        aim_activation: AimActivation::B,
        aim_sensitivity: 16,
        aim_deadzone: 16,
        aim_smoothing: 0,
        aim_invert_x: false,
        aim_invert_y: false,
        aim_calibration_duration: 5,
        aim_accel_zero: None,
        aim_motion_plus_bias: None,
        desktop_bindings: default_bindings(),
        device_rules: Seq::empty(),
    }
}

/// The bindings before any file is read.
pub open spec fn default_bindings() -> DesktopBindings {
    DesktopBindings {
        a: DesktopAction::LeftClick,
        b: DesktopAction::RightClick,
        plus: DesktopAction::PageUp,
        minus: DesktopAction::PageDown,
        home: DesktopAction::Overview,
        one: DesktopAction::Enter,
        two: DesktopAction::Escape,
    }
}

impl Default for Config {
    fn default() -> (config: Config)
        ensures
            config@ == default_config(),
    {
        let config = Config {
            profile: Profile::Gamepad,
            pointer_speed: 16,
            ir_speed: 8,
            ir_deadzone: 2,
            ir_smoothing: 0,
            ir_tracking: IrTracking::Dual,
            ir_aim_mapping: IrAimMapping::Relative,
            ir_screen: None,
            aim_mode: AimMode::Off,
            aim_source: AimSource::Auto,
            aim_activation: AimActivation::B,
            aim_sensitivity: 16,
            aim_deadzone: 16,
            aim_smoothing: 0,
            aim_invert_x: false,
            aim_invert_y: false,
            aim_calibration_duration: 5,
            aim_accel_zero: None,
            aim_motion_plus_bias: None,
            desktop_bindings: DesktopBindings {
                a: DesktopAction::LeftClick,
                b: DesktopAction::RightClick,
                plus: DesktopAction::PageUp,
                minus: DesktopAction::PageDown,
                home: DesktopAction::Overview,
                one: DesktopAction::Enter,
                two: DesktopAction::Escape,
            },
            device_rules: Vec::new(),
        };
        assert(config@ =~= default_config());
        config
    }
}

impl Clone for Config {
    fn clone(&self) -> (config: Config)
        ensures
            config@ == self@,
    {
        let config = Config {
            profile: self.profile,
            pointer_speed: self.pointer_speed,
            ir_speed: self.ir_speed,
            ir_deadzone: self.ir_deadzone,
            ir_smoothing: self.ir_smoothing,
            ir_tracking: self.ir_tracking,
            ir_aim_mapping: self.ir_aim_mapping,
            ir_screen: self.ir_screen,
            aim_mode: self.aim_mode,
            aim_source: self.aim_source,
            aim_activation: self.aim_activation,
            aim_sensitivity: self.aim_sensitivity,
            aim_deadzone: self.aim_deadzone,
            aim_smoothing: self.aim_smoothing,
            aim_invert_x: self.aim_invert_x,
            aim_invert_y: self.aim_invert_y,
            aim_calibration_duration: self.aim_calibration_duration,
            aim_accel_zero: self.aim_accel_zero,
            aim_motion_plus_bias: self.aim_motion_plus_bias,
            desktop_bindings: self.desktop_bindings,
            device_rules: clone_rules(&self.device_rules),
        };
        assert(config@ =~= self@);
        config
    }
}

fn clone_rules(rules: &Vec<DeviceRule>) -> (copy: Vec<DeviceRule>)
    ensures
        rules_view(copy@) == rules_view(rules@),
{
    let mut copy: Vec<DeviceRule> = Vec::new();
    let mut i: usize = 0;
    while i < rules.len()
        invariant
            i <= rules.len(),
            copy.len() == i,
            forall|k: int| 0 <= k < i ==> #[trigger] copy@[k]@ == rules@[k]@,
        decreases rules.len() - i,
    {
        copy.push(rules[i].clone());
        i = i + 1;
    }
    assert(rules_view(copy@) =~= rules_view(rules@));
    copy
}

/// A setting that is checked on its own.
#[derive(Clone, Copy, Debug, PartialEq, Eq, Structural, Hash)]
pub enum Setting {
    PointerSpeed,
    IrSpeed,
    IrDeadzone,
    IrSmoothing,
    IrScreen,
    AimSensitivity,
    AimDeadzone,
    AimSmoothing,
    AimCalibrationDuration,
    AimAccelZero,
    AimMotionPlusBias,
}

/// Why a configuration cannot be used.
#[derive(Clone, Copy, Debug, PartialEq, Eq, Structural, Hash)]
pub enum ConfigProblem {
    /// The setting is outside its range.
    OutOfRange(Setting),
    /// There are more device rules than one configuration may hold.
    TooManyRules,
    /// The rule at this position has no text to match.
    BlankRule(usize),
}

impl Setting {
    /// The name of a setting.
    pub open spec fn name(self) -> Seq<char> {
        match self {
            Setting::PointerSpeed => "pointer-speed"@,
            Setting::IrSpeed => "ir-speed"@,
            Setting::IrDeadzone => "ir-deadzone"@,
            Setting::IrSmoothing => "ir-smoothing"@,
            Setting::IrScreen => "ir-screen"@,
            Setting::AimSensitivity => "aim-sensitivity"@,
            Setting::AimDeadzone => "aim-deadzone"@,
            Setting::AimSmoothing => "aim-smoothing"@,
            Setting::AimCalibrationDuration => "aim-calibration-duration"@,
            Setting::AimAccelZero => "aim-accel-zero"@,
            Setting::AimMotionPlusBias => "aim-motion-plus-bias"@,
        }
    }

    /// The name of the setting.
    pub fn as_str(self) -> (name: &'static str)
        ensures
            name@ == self.name(),
    {
        match self {
            Setting::PointerSpeed => "pointer-speed",
            Setting::IrSpeed => "ir-speed",
            Setting::IrDeadzone => "ir-deadzone",
            Setting::IrSmoothing => "ir-smoothing",
            Setting::IrScreen => "ir-screen",
            Setting::AimSensitivity => "aim-sensitivity",
            Setting::AimDeadzone => "aim-deadzone",
            Setting::AimSmoothing => "aim-smoothing",
            Setting::AimCalibrationDuration => "aim-calibration-duration",
            Setting::AimAccelZero => "aim-accel-zero",
            Setting::AimMotionPlusBias => "aim-motion-plus-bias",
        }
    }
}

impl ConfigProblem {
    /// The text for people.
    pub open spec fn text(self) -> Seq<char> {
        match self {
            ConfigProblem::OutOfRange(setting) => setting.name() + " is out of range"@,
            ConfigProblem::TooManyRules => "too many device rules"@,
            ConfigProblem::BlankRule(i) => "device rule "@ + text::decimal(
                i.saturating_add(1) as nat,
            ) + " has no match text"@,
        }
    }

    /// The text for people.
    pub fn describe(&self) -> (r: String)
        ensures
            r@ == self.text(),
    {
        match self {
            ConfigProblem::OutOfRange(setting) => {
                let mut r = setting.as_str().to_owned();
                r.append(" is out of range");
                r
            },
            ConfigProblem::TooManyRules => "too many device rules".to_owned(),
            ConfigProblem::BlankRule(i) => {
                let mut r = "device rule ".to_owned();
                text::append_decimal(&mut r, i.saturating_add(1) as u64);
                r.append(" has no match text");
                r
            },
        }
    }
}

/// Whether a sensor's rest position is representable.
pub open spec fn calibration_valid(calibration: Option<SensorCalibration>) -> bool {
    calibration matches Some(c) ==> -32768 <= c.x <= 32767 && -32768 <= c.y <= 32767 && -32768
        <= c.z <= 32767
}

/// Whether the screen bounds lie on the sensor and enclose an area.
pub open spec fn screen_valid(screen: Option<IrScreen>) -> bool {
    screen matches Some(s) ==> 0 <= s.left < s.right <= 32767 && 0 <= s.top < s.bottom <= 32767
}

/// Whether a rule has a text to match.
pub open spec fn rule_valid(rule: DeviceRuleView) -> bool {
    text::trimmed(rule.match_text).len() > 0
}

impl ConfigView {
    /// Whether a setting is in its range.
    pub open spec fn setting_valid(self, setting: Setting) -> bool {
        match setting {
            Setting::PointerSpeed => 1 <= self.pointer_speed <= 127,
            Setting::IrSpeed => 1 <= self.ir_speed <= 127,
            Setting::IrDeadzone => 0 <= self.ir_deadzone <= 127,
            Setting::IrSmoothing => 0 <= self.ir_smoothing <= 95,
            Setting::IrScreen => screen_valid(self.ir_screen),
            Setting::AimSensitivity => 1 <= self.aim_sensitivity <= 127,
            Setting::AimDeadzone => 0 <= self.aim_deadzone <= 32767,
            Setting::AimSmoothing => 0 <= self.aim_smoothing <= 95,
            Setting::AimCalibrationDuration => 1 <= self.aim_calibration_duration <= 30,
            Setting::AimAccelZero => calibration_valid(self.aim_accel_zero),
            Setting::AimMotionPlusBias => calibration_valid(self.aim_motion_plus_bias),
        }
    }

    /// Whether a configuration can be used.
    pub open spec fn valid(self) -> bool {
        &&& forall|setting: Setting| #[trigger] self.setting_valid(setting)
        &&& self.device_rules.len() <= MAX_DEVICE_RULES
        &&& forall|i: int|
            0 <= i < self.device_rules.len() ==> rule_valid(#[trigger] self.device_rules[i])
    }

    /// The position of the first rule from `from` on that has no text to match.
    pub open spec fn first_blank_rule(self, from: nat) -> Option<usize>
        decreases self.device_rules.len() - from,
    {
        if from >= self.device_rules.len() {
            None
        } else if !rule_valid(self.device_rules[from as int]) {
            Some(from as usize)
        } else {
            self.first_blank_rule(from + 1)
        }
    }

    /// The problem that is reported: the first setting out of range, in the order in which the
    /// settings are declared, or else that there are too many rules, or else the first blank rule.
    pub open spec fn first_problem(self) -> Option<ConfigProblem> {
        if !self.setting_valid(Setting::PointerSpeed) {
            Some(ConfigProblem::OutOfRange(Setting::PointerSpeed))
        } else if !self.setting_valid(Setting::IrSpeed) {
            Some(ConfigProblem::OutOfRange(Setting::IrSpeed))
        } else if !self.setting_valid(Setting::IrDeadzone) {
            Some(ConfigProblem::OutOfRange(Setting::IrDeadzone))
        } else if !self.setting_valid(Setting::IrSmoothing) {
            Some(ConfigProblem::OutOfRange(Setting::IrSmoothing))
        } else if !self.setting_valid(Setting::IrScreen) {
            Some(ConfigProblem::OutOfRange(Setting::IrScreen))
        } else if !self.setting_valid(Setting::AimSensitivity) {
            Some(ConfigProblem::OutOfRange(Setting::AimSensitivity))
        } else if !self.setting_valid(Setting::AimDeadzone) {
            Some(ConfigProblem::OutOfRange(Setting::AimDeadzone))
        } else if !self.setting_valid(Setting::AimSmoothing) {
            Some(ConfigProblem::OutOfRange(Setting::AimSmoothing))
        } else if !self.setting_valid(Setting::AimCalibrationDuration) {
            Some(ConfigProblem::OutOfRange(Setting::AimCalibrationDuration))
        } else if !self.setting_valid(Setting::AimAccelZero) {
            Some(ConfigProblem::OutOfRange(Setting::AimAccelZero))
        } else if !self.setting_valid(Setting::AimMotionPlusBias) {
            Some(ConfigProblem::OutOfRange(Setting::AimMotionPlusBias))
        } else if self.device_rules.len() > MAX_DEVICE_RULES {
            Some(ConfigProblem::TooManyRules)
        } else {
            match self.first_blank_rule(0) {
                Some(i) => Some(ConfigProblem::BlankRule(i)),
                None => None,
            }
        }
    }

    /// What checking this configuration gives.
    pub open spec fn checked(self) -> Result<(), ConfigProblem> {
        match self.first_problem() {
            Some(problem) => Err(problem),
            None => Ok(()),
        }
    }

    /// Whether a rule applies to a controller with these properties.
    pub open spec fn rule_matches(
        rule: DeviceRuleView,
        syspath: Option<Seq<char>>,
        devtype: Option<Seq<char>>,
    ) -> bool {
        match rule.kind {
            DeviceRuleKind::Syspath => syspath matches Some(text) && text::occurs_in(
                text,
                rule.match_text,
            ),
            DeviceRuleKind::Devtype => devtype matches Some(text) && text::occurs_in(
                text,
                rule.match_text,
            ),
        }
    }

    /// The profile of the last rule among the first `n` that applies, or else the default profile.
    pub open spec fn profile_after(
        self,
        n: nat,
        syspath: Option<Seq<char>>,
        devtype: Option<Seq<char>>,
    ) -> Profile
        decreases n,
    {
        if n == 0 {
            self.profile
        } else if Self::rule_matches(self.device_rules[n - 1], syspath, devtype) {
            self.device_rules[n - 1].profile
        } else {
            self.profile_after((n - 1) as nat, syspath, devtype)
        }
    }

    /// The profile that a controller with these properties gets.
    pub open spec fn profile_of(
        self,
        syspath: Option<Seq<char>>,
        devtype: Option<Seq<char>>,
    ) -> Profile {
        self.profile_after(self.device_rules.len(), syspath, devtype)
    }
}

/// The value of an optional text.
pub open spec fn optional_text(text: Option<&str>) -> Option<Seq<char>> {
    match text {
        Some(t) => Some(t@),
        None => None,
    }
}

fn in_range(value: i32, min: i32, max: i32) -> (r: bool)
    ensures
        r == (min <= value <= max),
{
    value >= min && value <= max
}

fn check_calibration(calibration: Option<SensorCalibration>) -> (r: bool)
    ensures
        r == calibration_valid(calibration),
{
    match calibration {
        Some(c) => in_range(c.x, -32768, 32767) && in_range(c.y, -32768, 32767) && in_range(
            c.z,
            -32768,
            32767,
        ),
        None => true,
    }
}

impl Config {
    /// Checks every range, in the order of the settings, then the rules.
    pub fn validate(&self) -> (result: Result<(), ConfigProblem>)
        ensures
            result is Ok <==> self@.valid(),
            result == self@.checked(),
    {
        if !in_range(self.pointer_speed, 1, 127) {
            assert(!self@.setting_valid(Setting::PointerSpeed));
            return Err(ConfigProblem::OutOfRange(Setting::PointerSpeed));
        }
        if !in_range(self.ir_speed, 1, 127) {
            assert(!self@.setting_valid(Setting::IrSpeed));
            return Err(ConfigProblem::OutOfRange(Setting::IrSpeed));
        }
        if !in_range(self.ir_deadzone, 0, 127) {
            assert(!self@.setting_valid(Setting::IrDeadzone));
            return Err(ConfigProblem::OutOfRange(Setting::IrDeadzone));
        }
        if !in_range(self.ir_smoothing, 0, 95) {
            assert(!self@.setting_valid(Setting::IrSmoothing));
            return Err(ConfigProblem::OutOfRange(Setting::IrSmoothing));
        }
        if let Some(s) = self.ir_screen {
            if s.left < 0 || s.left >= s.right || s.right > 32767 || s.top < 0 || s.top >= s.bottom
                || s.bottom > 32767 {
                assert(!self@.setting_valid(Setting::IrScreen));
                return Err(ConfigProblem::OutOfRange(Setting::IrScreen));
            }
        }
        if !in_range(self.aim_sensitivity, 1, 127) {
            assert(!self@.setting_valid(Setting::AimSensitivity));
            return Err(ConfigProblem::OutOfRange(Setting::AimSensitivity));
        }
        if !in_range(self.aim_deadzone, 0, 32767) {
            assert(!self@.setting_valid(Setting::AimDeadzone));
            return Err(ConfigProblem::OutOfRange(Setting::AimDeadzone));
        }
        if !in_range(self.aim_smoothing, 0, 95) {
            assert(!self@.setting_valid(Setting::AimSmoothing));
            return Err(ConfigProblem::OutOfRange(Setting::AimSmoothing));
        }
        if !in_range(self.aim_calibration_duration, 1, 30) {
            assert(!self@.setting_valid(Setting::AimCalibrationDuration));
            return Err(ConfigProblem::OutOfRange(Setting::AimCalibrationDuration));
        }
        if !check_calibration(self.aim_accel_zero) {
            assert(!self@.setting_valid(Setting::AimAccelZero));
            return Err(ConfigProblem::OutOfRange(Setting::AimAccelZero));
        }
        if !check_calibration(self.aim_motion_plus_bias) {
            assert(!self@.setting_valid(Setting::AimMotionPlusBias));
            return Err(ConfigProblem::OutOfRange(Setting::AimMotionPlusBias));
        }
        assert(forall|setting: Setting| #[trigger] self@.setting_valid(setting));
        if self.device_rules.len() > MAX_DEVICE_RULES {
            return Err(ConfigProblem::TooManyRules);
        }
        let mut i: usize = 0;
        while i < self.device_rules.len()
            invariant
                i <= self.device_rules.len(),
                self@.device_rules.len() == self.device_rules.len(),
                self.device_rules.len() <= MAX_DEVICE_RULES,
                forall|setting: Setting| #[trigger] self@.setting_valid(setting),
                forall|j: int| 0 <= j < i ==> rule_valid(#[trigger] self@.device_rules[j]),
                self@.first_blank_rule(0) == self@.first_blank_rule(i as nat),
            decreases self.device_rules.len() - i,
        {
            let trimmed = text::trim(self.device_rules[i].match_text.as_str());
            assert(self@.device_rules[i as int] == self.device_rules[i as int]@);
            if trimmed.is_empty() {
                assert(!rule_valid(self@.device_rules[i as int]));
                return Err(ConfigProblem::BlankRule(i));
            }
            i = i + 1;
        }
        Ok(())
    }

    /// The profile that a controller gets: that of the last rule that applies to it, or else the
    /// default profile.
    pub fn profile_for_device(&self, syspath: Option<&str>, devtype: Option<&str>) -> (profile:
        Profile)
        ensures
            profile == self@.profile_of(optional_text(syspath), optional_text(devtype)),
    {
        let mut profile = self.profile;
        let mut i: usize = 0;
        while i < self.device_rules.len()
            invariant
                i <= self.device_rules.len(),
                profile == self@.profile_after(
                    i as nat,
                    optional_text(syspath),
                    optional_text(devtype),
                ),
            decreases self.device_rules.len() - i,
        {
            let rule = &self.device_rules[i];
            let property = match rule.kind {
                DeviceRuleKind::Syspath => syspath,
                DeviceRuleKind::Devtype => devtype,
            };
            let applies = match property {
                Some(value) => text::contains(value, rule.match_text.as_str()),
                None => false,
            };
            assert(self@.device_rules[i as int] == rule@);
            if applies {
                profile = rule.profile;
            }
            i = i + 1;
        }
        profile
    }

    /// Whether two configurations have the same value.
    pub fn same(&self, other: &Config) -> (r: bool)
        ensures
            r == (self@ == other@),
    {
        let settings = self.profile == other.profile && self.pointer_speed == other.pointer_speed
            && self.ir_speed == other.ir_speed && self.ir_deadzone == other.ir_deadzone
            && self.ir_smoothing == other.ir_smoothing && self.ir_tracking == other.ir_tracking
            && self.ir_aim_mapping == other.ir_aim_mapping && self.aim_mode == other.aim_mode
            && self.aim_source == other.aim_source && self.aim_activation == other.aim_activation
            && self.aim_sensitivity == other.aim_sensitivity && self.aim_deadzone
            == other.aim_deadzone && self.aim_smoothing == other.aim_smoothing && self.aim_invert_x
            == other.aim_invert_x && self.aim_invert_y == other.aim_invert_y
            && self.aim_calibration_duration == other.aim_calibration_duration
            && self.desktop_bindings == other.desktop_bindings;
        let options = same_screen(self.ir_screen, other.ir_screen) && same_calibration(
            self.aim_accel_zero,
            other.aim_accel_zero,
        ) && same_calibration(self.aim_motion_plus_bias, other.aim_motion_plus_bias);
        if !settings || !options || self.device_rules.len() != other.device_rules.len() {
            assert(self@.device_rules.len() == self.device_rules.len());
            assert(other@.device_rules.len() == other.device_rules.len());
            return false;
        }
        let mut i: usize = 0;
        while i < self.device_rules.len()
            invariant
                i <= self.device_rules.len(),
                self.device_rules.len() == other.device_rules.len(),
                forall|j: int|
                    0 <= j < i ==> #[trigger] self@.device_rules[j] == other@.device_rules[j],
            decreases self.device_rules.len() - i,
        {
            assert(self@.device_rules[i as int] == self.device_rules[i as int]@);
            assert(other@.device_rules[i as int] == other.device_rules[i as int]@);
            if !self.device_rules[i].same(&other.device_rules[i]) {
                return false;
            }
            i = i + 1;
        }
        assert(self@.device_rules =~= other@.device_rules);
        assert(self@ =~= other@);
        true
    }
}

fn same_screen(a: Option<IrScreen>, b: Option<IrScreen>) -> (r: bool)
    ensures
        r == (a == b),
{
    match (a, b) {
        (Some(x), Some(y)) => x == y,
        (None, None) => true,
        _ => false,
    }
}

fn same_calibration(a: Option<SensorCalibration>, b: Option<SensorCalibration>) -> (r: bool)
    ensures
        r == (a == b),
{
    match (a, b) {
        (Some(x), Some(y)) => x == y,
        (None, None) => true,
        _ => false,
    }
}

/// A configuration whose every value has been checked.
pub struct ValidatedConfig {
    config: Config,
}

impl View for ValidatedConfig {
    type V = ConfigView;

    closed spec fn view(&self) -> ConfigView {
        self.config@
    }
}

impl ValidatedConfig {
    #[verifier::type_invariant]
    closed spec fn well_formed(self) -> bool {
        self.config@.valid()
    }

    /// Accepts exactly the configurations that are valid.
    pub fn try_from(config: Config) -> (result: Result<ValidatedConfig, ConfigProblem>)
        ensures
            result is Ok <==> config@.valid(),
            result matches Ok(validated) ==> validated@ == config@,
            result matches Err(problem) ==> config@.first_problem() == Some(problem),
    {
        match config.validate() {
            Ok(()) => Ok(ValidatedConfig { config }),
            Err(problem) => Err(problem),
        }
    }

    /// The configuration.
    pub fn get(&self) -> (config: &Config)
        ensures
            config@ == self@,
            config@.valid(),
    {
        proof {
            use_type_invariant(self);
        }
        &self.config
    }
}

/// A configuration is valid exactly where checking it reports nothing.
pub proof fn valid_means_nothing_to_report(config: ConfigView)
    ensures
        config.first_problem() is None <==> config.valid(),
{
    lemma_first_blank_rule(config, 0);
    if config.first_problem() is None {
        assert forall|setting: Setting| #[trigger] config.setting_valid(setting) by {}
    } else if config.valid() {
        assert(config.setting_valid(Setting::PointerSpeed));
        assert(config.setting_valid(Setting::IrSpeed));
        assert(config.setting_valid(Setting::IrDeadzone));
        assert(config.setting_valid(Setting::IrSmoothing));
        assert(config.setting_valid(Setting::IrScreen));
        assert(config.setting_valid(Setting::AimSensitivity));
        assert(config.setting_valid(Setting::AimDeadzone));
        assert(config.setting_valid(Setting::AimSmoothing));
        assert(config.setting_valid(Setting::AimCalibrationDuration));
        assert(config.setting_valid(Setting::AimAccelZero));
        assert(config.setting_valid(Setting::AimMotionPlusBias));
    }
}

proof fn lemma_first_blank_rule(config: ConfigView, from: nat)
    ensures
        config.first_blank_rule(from) is None <==> forall|i: int|
            from <= i < config.device_rules.len() ==> rule_valid(#[trigger] config.device_rules[i]),
    decreases config.device_rules.len() - from,
{
    if from < config.device_rules.len() && rule_valid(config.device_rules[from as int]) {
        lemma_first_blank_rule(config, from + 1);
        assert forall|i: int| from <= i < config.device_rules.len() implies rule_valid(
            #[trigger] config.device_rules[i],
        ) == (i == from || rule_valid(config.device_rules[i])) by {}
    } else if from < config.device_rules.len() {
        assert(!rule_valid(config.device_rules[from as int]));
    }
}

/// The defaults can be used as they are.
pub proof fn default_configuration_is_valid()
    ensures
        default_config().valid(),
{
}

/// The last rule that applies decides, whatever stands before it.
pub proof fn last_matching_rule_wins(
    config: ConfigView,
    syspath: Option<Seq<char>>,
    devtype: Option<Seq<char>>,
    i: int,
)
    requires
        0 <= i < config.device_rules.len(),
        ConfigView::rule_matches(config.device_rules[i], syspath, devtype),
        forall|j: int|
            i < j < config.device_rules.len() ==> !ConfigView::rule_matches(
                #[trigger] config.device_rules[j],
                syspath,
                devtype,
            ),
    ensures
        config.profile_of(syspath, devtype) == config.device_rules[i].profile,
{
    lemma_rules_after_the_last_match(config, syspath, devtype, i, config.device_rules.len());
}

proof fn lemma_rules_after_the_last_match(
    config: ConfigView,
    syspath: Option<Seq<char>>,
    devtype: Option<Seq<char>>,
    i: int,
    n: nat,
)
    requires
        0 <= i < n <= config.device_rules.len(),
        ConfigView::rule_matches(config.device_rules[i], syspath, devtype),
        forall|j: int|
            i < j < n ==> !ConfigView::rule_matches(
                #[trigger] config.device_rules[j],
                syspath,
                devtype,
            ),
    ensures
        config.profile_after(n, syspath, devtype) == config.device_rules[i].profile,
    decreases n,
{
    if n - 1 > i {
        lemma_rules_after_the_last_match(config, syspath, devtype, i, (n - 1) as nat);
    }
}

/// A controller that no rule applies to gets the default profile.
pub proof fn unmatched_controller_gets_the_default_profile(
    config: ConfigView,
    syspath: Option<Seq<char>>,
    devtype: Option<Seq<char>>,
)
    requires
        forall|j: int|
            0 <= j < config.device_rules.len() ==> !ConfigView::rule_matches(
                #[trigger] config.device_rules[j],
                syspath,
                devtype,
            ),
    ensures
        config.profile_of(syspath, devtype) == config.profile,
{
    lemma_no_match(config, syspath, devtype, config.device_rules.len());
}

proof fn lemma_no_match(
    config: ConfigView,
    syspath: Option<Seq<char>>,
    devtype: Option<Seq<char>>,
    n: nat,
)
    requires
        n <= config.device_rules.len(),
        forall|j: int|
            0 <= j < n ==> !ConfigView::rule_matches(
                #[trigger] config.device_rules[j],
                syspath,
                devtype,
            ),
    ensures
        config.profile_after(n, syspath, devtype) == config.profile,
    decreases n,
{
    if n > 0 {
        lemma_no_match(config, syspath, devtype, (n - 1) as nat);
    }
}

} // verus!
