//! The configuration file: one `key=value` on a line. Lines that begin with a hash are comments.
use crate::config::{
    AimActivation, AimMode, AimSource, Config, ConfigProblem, ConfigView, DesktopAction,
    DesktopBindings, DeviceRule, DeviceRuleKind, DeviceRuleView, IrAimMapping, IrScreen, IrTracking,
    Profile, SensorCalibration, SYSTEM_CONFIG_PATH,
};
use crate::config;
use crate::failure::{IoFailure, IoKind};
use crate::text;
use vstd::prelude::*;
use vstd::string::*;

verus! {

/// What is wrong with a configuration.
#[derive(Debug)]
pub enum ConfigFault {
    /// The file could not be read.
    Io(IoFailure),
    /// The bytes are not text.
    NotText,
    /// This line, counted from one, is not understood.
    Line(usize),
    /// Only a part of the values that belong together is given.
    Incomplete,
    /// A value is out of range.
    Invalid(ConfigProblem),
}

/// Why a configuration could not be read.
#[derive(Debug)]
pub struct ConfigError {
    /// The file or the output that is at fault. Values are only checked once every layer is read,
    /// so that one which is out of range has no origin.
    pub origin: Option<String>,
    pub fault: ConfigFault,
}

/// Why a configuration could not be read.
pub struct ConfigErrorView {
    pub origin: Option<Seq<char>>,
    pub fault: ConfigFault,
}

impl View for ConfigError {
    type V = ConfigErrorView;

    open spec fn view(&self) -> ConfigErrorView {
        ConfigErrorView {
            origin: match self.origin {
                Some(origin) => Some(origin@),
                None => None,
            },
            fault: self.fault,
        }
    }
}

/// The error of a file or an output that is at fault.
pub open spec fn fault_in(origin: Seq<char>, fault: ConfigFault) -> ConfigErrorView {
    ConfigErrorView { origin: Some(origin), fault }
}

/// The error of a value that is out of range.
pub open spec fn out_of_range(problem: ConfigProblem) -> ConfigErrorView {
    ConfigErrorView { origin: None, fault: ConfigFault::Invalid(problem) }
}

impl ConfigFault {
    /// The text for people.
    pub open spec fn text(self) -> Seq<char> {
        match self {
            ConfigFault::Io(failure) => failure.message@,
            ConfigFault::NotText => "configuration is not valid UTF-8"@,
            ConfigFault::Line(line) => "invalid configuration on line "@ + text::decimal(
                line as nat,
            ),
            ConfigFault::Incomplete => "incomplete calibration values"@,
            ConfigFault::Invalid(problem) => problem.text(),
        }
    }

    /// The text for people.
    pub fn describe(&self) -> (r: String)
        ensures
            r@ == self.text(),
    {
        match self {
            ConfigFault::Io(failure) => failure.message.clone(),
            ConfigFault::NotText => "configuration is not valid UTF-8".to_owned(),
            ConfigFault::Line(line) => {
                let mut r = "invalid configuration on line ".to_owned();
                text::append_decimal(&mut r, *line as u64);
                r
            },
            ConfigFault::Incomplete => "incomplete calibration values".to_owned(),
            ConfigFault::Invalid(problem) => problem.describe(),
        }
    }
}

impl ConfigErrorView {
    /// The text for people: it names the origin first.
    pub open spec fn text(self) -> Seq<char> {
        match self.origin {
            Some(origin) => origin + ": "@ + self.fault.text(),
            None => self.fault.text(),
        }
    }
}

impl ConfigError {
    fn new(origin: &str, fault: ConfigFault) -> (error: ConfigError)
        ensures
            error@ == fault_in(origin@, fault),
    {
        ConfigError { origin: Some(origin.to_owned()), fault }
    }

    /// The text for people: it names the origin first.
    pub fn describe(&self) -> (r: String)
        ensures
            r@ == self@.text(),
    {
        let reason = self.fault.describe();
        match &self.origin {
            None => reason,
            Some(origin) => {
                let mut r = origin.clone();
                r.append(": ");
                r.append(reason.as_str());
                r
            },
        }
    }
}

/// One layer of the configuration: its file, and what reading the file gave.
#[derive(Debug)]
pub struct Layer {
    pub origin: String,
    pub read: Result<Vec<u8>, IoFailure>,
}

/// One layer of the configuration.
pub struct LayerView {
    pub origin: Seq<char>,
    pub read: Result<Vec<u8>, IoFailure>,
}

impl View for Layer {
    type V = LayerView;

    open spec fn view(&self) -> LayerView {
        LayerView { origin: self.origin@, read: self.read }
    }
}

/// The view of a layer that may not have been asked for.
pub open spec fn layer_view(layer: Option<Layer>) -> Option<LayerView> {
    match layer {
        Some(layer) => Some(layer@),
        None => None,
    }
}

/// Three values that belong together, as far as they are given.
#[derive(Clone, Copy, Debug, PartialEq, Eq, Structural)]
pub struct PartialTriple {
    pub x: Option<i32>,
    pub y: Option<i32>,
    pub z: Option<i32>,
}

/// Four edges that belong together, as far as they are given.
#[derive(Clone, Copy, Debug, PartialEq, Eq, Structural)]
pub struct PartialScreen {
    pub left: Option<i32>,
    pub right: Option<i32>,
    pub top: Option<i32>,
    pub bottom: Option<i32>,
}

/// A configuration while a file is read.
pub struct Draft {
    pub config: Config,
    pub accel: PartialTriple,
    pub motion: PartialTriple,
    pub screen: PartialScreen,
}

/// The value of a draft.
#[verifier::ext_equal]
pub struct DraftView {
    pub config: ConfigView,
    pub accel: PartialTriple,
    pub motion: PartialTriple,
    pub screen: PartialScreen,
}

impl View for Draft {
    type V = DraftView;

    open spec fn view(&self) -> DraftView {
        DraftView {
            config: self.config@,
            accel: self.accel,
            motion: self.motion,
            screen: self.screen,
        }
    }
}

/// What a key and its value do to a draft.
pub enum Assignment {
    /// The key is another.
    Unknown,
    /// The key does not take this value.
    Rejected,
    /// The draft that follows.
    Accepted(DraftView),
}

/// Whether an assignment was understood.
#[derive(Clone, Copy, Debug, PartialEq, Eq, Structural)]
pub enum Assigned {
    Unknown,
    Rejected,
    Accepted,
}

/// Whether an outcome and the draft after it are those of an assignment.
pub open spec fn follows(
    outcome: Assigned,
    before: DraftView,
    after: DraftView,
    assignment: Assignment,
) -> bool {
    match assignment {
        Assignment::Unknown => outcome is Unknown && after == before,
        Assignment::Rejected => outcome is Rejected && after == before,
        Assignment::Accepted(next) => outcome is Accepted && after == next,
    }
}

/// The number that a text writes, with an optional sign, where it fits in 32 bits.
pub open spec fn integer(s: Seq<char>) -> Option<i32> {
    let signed = s.len() > 0 && (s[0] == '-' || s[0] == '+');
    let digits = if signed {
        s.subrange(1, s.len() as int)
    } else {
        s
    };
    if digits.len() == 0 || !text::all_digits(digits) {
        None
    } else {
        let magnitude = text::numeral(digits) as int;
        let n = if signed && s[0] == '-' {
            -magnitude
        } else {
            magnitude
        };
        if i32::MIN <= n <= i32::MAX {
            Some(n as i32)
        } else {
            None
        }
    }
}

/// The number that a text writes, with an optional sign, where it fits in 32 bits.
pub fn parse_integer(s: &str) -> (n: Option<i32>)
    ensures
        n == integer(s@),
{
    let chars = text::chars_of(s);
    let signed = chars.len() > 0 && (chars[0] == '-' || chars[0] == '+');
    let from: usize = if signed {
        1
    } else {
        0
    };
    let ghost digits = chars@.subrange(from as int, chars@.len() as int);
    assert(!signed ==> digits =~= s@);
    if from == chars.len() || !text::digits_only(&chars, from, chars.len()) {
        return None;
    }
    let magnitude = match text::parse_digits(&chars, from, chars.len()) {
        Some(m) => m,
        None => {
            return None;
        },
    };
    if magnitude > 0x8000_0000 {
        return None;
    }
    let n: i64 = if signed && chars[0] == '-' {
        -(magnitude as i64)
    } else {
        magnitude as i64
    };
    if n > i32::MAX as i64 {
        None
    } else {
        Some(n as i32)
    }
}

/// The name of a profile.
pub open spec fn profile_text(value: Profile) -> Seq<char> {
    match value {
        Profile::Gamepad => "gamepad"@,
        Profile::Desktop => "desktop"@,
        Profile::Both => "both"@,
    }
}

/// What a name stands for.
pub open spec fn profile_named(name: Seq<char>) -> Option<Profile> {
    if name == "gamepad"@ {
        Some(Profile::Gamepad)
    } else if name == "desktop"@ {
        Some(Profile::Desktop)
    } else if name == "both"@ {
        Some(Profile::Both)
    } else {
        None
    }
}

/// The name of a profile.
pub fn profile_name(value: Profile) -> (name: &'static str)
    ensures
        name@ == profile_text(value),
{
    match value {
        Profile::Gamepad => "gamepad",
        Profile::Desktop => "desktop",
        Profile::Both => "both",
    }
}

/// What a name stands for.
pub fn parse_profile(name: &str) -> (value: Option<Profile>)
    ensures
        value == profile_named(name@),
{
    if text::same_text(name, "gamepad") {
        Some(Profile::Gamepad)
    } else if text::same_text(name, "desktop") {
        Some(Profile::Desktop)
    } else if text::same_text(name, "both") {
        Some(Profile::Both)
    } else {
        None
    }
}

/// The name of a way of tracking.
pub open spec fn ir_tracking_text(value: IrTracking) -> Seq<char> {
    match value {
        IrTracking::Dual => "dual"@,
        IrTracking::Centroid => "centroid"@,
        IrTracking::First => "first"@,
    }
}

/// What a name stands for.
pub open spec fn ir_tracking_named(name: Seq<char>) -> Option<IrTracking> {
    if name == "dual"@ {
        Some(IrTracking::Dual)
    } else if name == "centroid"@ {
        Some(IrTracking::Centroid)
    } else if name == "first"@ {
        Some(IrTracking::First)
    } else {
        None
    }
}

/// The name of a way of tracking.
pub fn ir_tracking_name(value: IrTracking) -> (name: &'static str)
    ensures
        name@ == ir_tracking_text(value),
{
    match value {
        IrTracking::Dual => "dual",
        IrTracking::Centroid => "centroid",
        IrTracking::First => "first",
    }
}

/// What a name stands for.
pub fn parse_ir_tracking(name: &str) -> (value: Option<IrTracking>)
    ensures
        value == ir_tracking_named(name@),
{
    if text::same_text(name, "dual") {
        Some(IrTracking::Dual)
    } else if text::same_text(name, "centroid") {
        Some(IrTracking::Centroid)
    } else if text::same_text(name, "first") {
        Some(IrTracking::First)
    } else {
        None
    }
}

/// The name of an IR mapping.
pub open spec fn ir_mapping_text(value: IrAimMapping) -> Seq<char> {
    match value {
        IrAimMapping::Relative => "relative"@,
        IrAimMapping::Absolute => "absolute"@,
    }
}

/// What a name stands for.
pub open spec fn ir_mapping_named(name: Seq<char>) -> Option<IrAimMapping> {
    if name == "relative"@ {
        Some(IrAimMapping::Relative)
    } else if name == "absolute"@ {
        Some(IrAimMapping::Absolute)
    } else {
        None
    }
}

/// The name of an IR mapping.
pub fn ir_mapping_name(value: IrAimMapping) -> (name: &'static str)
    ensures
        name@ == ir_mapping_text(value),
{
    match value {
        IrAimMapping::Relative => "relative",
        IrAimMapping::Absolute => "absolute",
    }
}

/// What a name stands for.
pub fn parse_ir_mapping(name: &str) -> (value: Option<IrAimMapping>)
    ensures
        value == ir_mapping_named(name@),
{
    if text::same_text(name, "relative") {
        Some(IrAimMapping::Relative)
    } else if text::same_text(name, "absolute") {
        Some(IrAimMapping::Absolute)
    } else {
        None
    }
}

/// The name of an aiming mode.
pub open spec fn aim_mode_text(value: AimMode) -> Seq<char> {
    match value {
        AimMode::Off => "off"@,
        AimMode::RightStick => "right-stick"@,
        AimMode::Mouse => "mouse"@,
    }
}

/// What a name stands for.
pub open spec fn aim_mode_named(name: Seq<char>) -> Option<AimMode> {
    if name == "off"@ {
        Some(AimMode::Off)
    } else if name == "right-stick"@ {
        Some(AimMode::RightStick)
    } else if name == "mouse"@ {
        Some(AimMode::Mouse)
    } else {
        None
    }
}

/// The name of an aiming mode.
pub fn aim_mode_name(value: AimMode) -> (name: &'static str)
    ensures
        name@ == aim_mode_text(value),
{
    match value {
        AimMode::Off => "off",
        AimMode::RightStick => "right-stick",
        AimMode::Mouse => "mouse",
    }
}

/// What a name stands for.
pub fn parse_aim_mode(name: &str) -> (value: Option<AimMode>)
    ensures
        value == aim_mode_named(name@),
{
    if text::same_text(name, "off") {
        Some(AimMode::Off)
    } else if text::same_text(name, "right-stick") {
        Some(AimMode::RightStick)
    } else if text::same_text(name, "mouse") {
        Some(AimMode::Mouse)
    } else {
        None
    }
}

/// The name of a sensor.
pub open spec fn aim_source_text(value: AimSource) -> Seq<char> {
    match value {
        AimSource::Auto => "auto"@,
        AimSource::Ir => "ir"@,
        AimSource::MotionPlus => "motion-plus"@,
        AimSource::Accelerometer => "accelerometer"@,
    }
}

/// What a name stands for.
pub open spec fn aim_source_named(name: Seq<char>) -> Option<AimSource> {
    if name == "auto"@ {
        Some(AimSource::Auto)
    } else if name == "ir"@ {
        Some(AimSource::Ir)
    } else if name == "motion-plus"@ {
        Some(AimSource::MotionPlus)
    } else if name == "accelerometer"@ {
        Some(AimSource::Accelerometer)
    } else {
        None
    }
}

/// The name of a sensor.
pub fn aim_source_name(value: AimSource) -> (name: &'static str)
    ensures
        name@ == aim_source_text(value),
{
    match value {
        AimSource::Auto => "auto",
        AimSource::Ir => "ir",
        AimSource::MotionPlus => "motion-plus",
        AimSource::Accelerometer => "accelerometer",
    }
}

/// What a name stands for.
pub fn parse_aim_source(name: &str) -> (value: Option<AimSource>)
    ensures
        value == aim_source_named(name@),
{
    if text::same_text(name, "auto") {
        Some(AimSource::Auto)
    } else if text::same_text(name, "ir") {
        Some(AimSource::Ir)
    } else if text::same_text(name, "motion-plus") {
        Some(AimSource::MotionPlus)
    } else if text::same_text(name, "accelerometer") {
        Some(AimSource::Accelerometer)
    } else {
        None
    }
}

/// The name of an activation.
pub open spec fn aim_activation_text(value: AimActivation) -> Seq<char> {
    match value {
        AimActivation::B => "b"@,
        AimActivation::Always => "always"@,
        AimActivation::Z => "z"@,
        AimActivation::C => "c"@,
    }
}

/// What a name stands for.
pub open spec fn aim_activation_named(name: Seq<char>) -> Option<AimActivation> {
    if name == "b"@ {
        Some(AimActivation::B)
    } else if name == "always"@ {
        Some(AimActivation::Always)
    } else if name == "z"@ {
        Some(AimActivation::Z)
    } else if name == "c"@ {
        Some(AimActivation::C)
    } else {
        None
    }
}

/// The name of an activation.
pub fn aim_activation_name(value: AimActivation) -> (name: &'static str)
    ensures
        name@ == aim_activation_text(value),
{
    match value {
        AimActivation::B => "b",
        AimActivation::Always => "always",
        AimActivation::Z => "z",
        AimActivation::C => "c",
    }
}

/// What a name stands for.
pub fn parse_aim_activation(name: &str) -> (value: Option<AimActivation>)
    ensures
        value == aim_activation_named(name@),
{
    if text::same_text(name, "b") {
        Some(AimActivation::B)
    } else if text::same_text(name, "always") {
        Some(AimActivation::Always)
    } else if text::same_text(name, "z") {
        Some(AimActivation::Z)
    } else if text::same_text(name, "c") {
        Some(AimActivation::C)
    } else {
        None
    }
}

/// The name of a desktop action.
pub open spec fn action_text(value: DesktopAction) -> Seq<char> {
    match value {
        DesktopAction::LeftClick => "left-click"@,
        DesktopAction::RightClick => "right-click"@,
        DesktopAction::Enter => "enter"@,
        DesktopAction::Escape => "escape"@,
        DesktopAction::Overview => "overview"@,
        DesktopAction::PageUp => "page-up"@,
        DesktopAction::PageDown => "page-down"@,
        DesktopAction::Disabled => "disabled"@,
    }
}

/// What a name stands for.
pub open spec fn action_named(name: Seq<char>) -> Option<DesktopAction> {
    if name == "left-click"@ {
        Some(DesktopAction::LeftClick)
    } else if name == "right-click"@ {
        Some(DesktopAction::RightClick)
    } else if name == "enter"@ {
        Some(DesktopAction::Enter)
    } else if name == "escape"@ {
        Some(DesktopAction::Escape)
    } else if name == "overview"@ {
        Some(DesktopAction::Overview)
    } else if name == "page-up"@ {
        Some(DesktopAction::PageUp)
    } else if name == "page-down"@ {
        Some(DesktopAction::PageDown)
    } else if name == "disabled"@ {
        Some(DesktopAction::Disabled)
    } else {
        None
    }
}

/// The name of a desktop action.
pub fn action_name(value: DesktopAction) -> (name: &'static str)
    ensures
        name@ == action_text(value),
{
    match value {
        DesktopAction::LeftClick => "left-click",
        DesktopAction::RightClick => "right-click",
        DesktopAction::Enter => "enter",
        DesktopAction::Escape => "escape",
        DesktopAction::Overview => "overview",
        DesktopAction::PageUp => "page-up",
        DesktopAction::PageDown => "page-down",
        DesktopAction::Disabled => "disabled",
    }
}

/// What a name stands for.
pub fn parse_action(name: &str) -> (value: Option<DesktopAction>)
    ensures
        value == action_named(name@),
{
    if text::same_text(name, "left-click") {
        Some(DesktopAction::LeftClick)
    } else if text::same_text(name, "right-click") {
        Some(DesktopAction::RightClick)
    } else if text::same_text(name, "enter") {
        Some(DesktopAction::Enter)
    } else if text::same_text(name, "escape") {
        Some(DesktopAction::Escape)
    } else if text::same_text(name, "overview") {
        Some(DesktopAction::Overview)
    } else if text::same_text(name, "page-up") {
        Some(DesktopAction::PageUp)
    } else if text::same_text(name, "page-down") {
        Some(DesktopAction::PageDown)
    } else if text::same_text(name, "disabled") {
        Some(DesktopAction::Disabled)
    } else {
        None
    }
}

/// What a name says of a switch.
pub open spec fn switch_named(name: Seq<char>) -> Option<bool> {
    if name == "true"@ {
        Some(true)
    } else if name == "false"@ {
        Some(false)
    } else {
        None
    }
}

/// What a name says of a switch.
pub fn parse_switch(name: &str) -> (value: Option<bool>)
    ensures
        value == switch_named(name@),
{
    if text::same_text(name, "true") {
        Some(true)
    } else if text::same_text(name, "false") {
        Some(false)
    } else {
        None
    }
}

/// What the keys of numbers do.
pub open spec fn number(draft: DraftView, key: Seq<char>, value: Seq<char>) -> Assignment {
    if key == "pointer-speed"@ {
        match integer(value) {
            Some(v) => Assignment::Accepted(
                DraftView { config: ConfigView { pointer_speed: v, ..draft.config }, ..draft },
            ),
            None => Assignment::Rejected,
        }
    } else if key == "ir-speed"@ {
        match integer(value) {
            Some(v) => Assignment::Accepted(
                DraftView { config: ConfigView { ir_speed: v, ..draft.config }, ..draft },
            ),
            None => Assignment::Rejected,
        }
    } else if key == "ir-deadzone"@ {
        match integer(value) {
            Some(v) => Assignment::Accepted(
                DraftView { config: ConfigView { ir_deadzone: v, ..draft.config }, ..draft },
            ),
            None => Assignment::Rejected,
        }
    } else if key == "ir-smoothing"@ {
        match integer(value) {
            Some(v) => Assignment::Accepted(
                DraftView { config: ConfigView { ir_smoothing: v, ..draft.config }, ..draft },
            ),
            None => Assignment::Rejected,
        }
    } else if key == "aim-sensitivity"@ {
        match integer(value) {
            Some(v) => Assignment::Accepted(
                DraftView { config: ConfigView { aim_sensitivity: v, ..draft.config }, ..draft },
            ),
            None => Assignment::Rejected,
        }
    } else if key == "aim-deadzone"@ {
        match integer(value) {
            Some(v) => Assignment::Accepted(
                DraftView { config: ConfigView { aim_deadzone: v, ..draft.config }, ..draft },
            ),
            None => Assignment::Rejected,
        }
    } else if key == "aim-smoothing"@ {
        match integer(value) {
            Some(v) => Assignment::Accepted(
                DraftView { config: ConfigView { aim_smoothing: v, ..draft.config }, ..draft },
            ),
            None => Assignment::Rejected,
        }
    } else if key == "aim-calibration-duration"@ {
        match integer(value) {
            Some(v) => Assignment::Accepted(
                DraftView {
                    config: ConfigView { aim_calibration_duration: v, ..draft.config },
                    ..draft
                },
            ),
            None => Assignment::Rejected,
        }
    } else {
        Assignment::Unknown
    }
}

fn assign_number(draft: &mut Draft, key: &str, value: &str) -> (outcome: Assigned)
    ensures
        follows(outcome, old(draft)@, final(draft)@, number(old(draft)@, key@, value@)),
{
    if text::same_text(key, "pointer-speed") {
        match parse_integer(value) {
            Some(v) => {
                draft.config.pointer_speed = v;
            },
            None => {
                return Assigned::Rejected;
            },
        }
    } else if text::same_text(key, "ir-speed") {
        match parse_integer(value) {
            Some(v) => {
                draft.config.ir_speed = v;
            },
            None => {
                return Assigned::Rejected;
            },
        }
    } else if text::same_text(key, "ir-deadzone") {
        match parse_integer(value) {
            Some(v) => {
                draft.config.ir_deadzone = v;
            },
            None => {
                return Assigned::Rejected;
            },
        }
    } else if text::same_text(key, "ir-smoothing") {
        match parse_integer(value) {
            Some(v) => {
                draft.config.ir_smoothing = v;
            },
            None => {
                return Assigned::Rejected;
            },
        }
    } else if text::same_text(key, "aim-sensitivity") {
        match parse_integer(value) {
            Some(v) => {
                draft.config.aim_sensitivity = v;
            },
            None => {
                return Assigned::Rejected;
            },
        }
    } else if text::same_text(key, "aim-deadzone") {
        match parse_integer(value) {
            Some(v) => {
                draft.config.aim_deadzone = v;
            },
            None => {
                return Assigned::Rejected;
            },
        }
    } else if text::same_text(key, "aim-smoothing") {
        match parse_integer(value) {
            Some(v) => {
                draft.config.aim_smoothing = v;
            },
            None => {
                return Assigned::Rejected;
            },
        }
    } else if text::same_text(key, "aim-calibration-duration") {
        match parse_integer(value) {
            Some(v) => {
                draft.config.aim_calibration_duration = v;
            },
            None => {
                return Assigned::Rejected;
            },
        }
    } else {
        return Assigned::Unknown;
    }
    Assigned::Accepted
}

/// What the keys of choices do.
pub open spec fn choice(draft: DraftView, key: Seq<char>, value: Seq<char>) -> Assignment {
    if key == "profile"@ {
        match profile_named(value) {
            Some(v) => Assignment::Accepted(
                DraftView { config: ConfigView { profile: v, ..draft.config }, ..draft },
            ),
            None => Assignment::Rejected,
        }
    } else if key == "ir-tracking"@ {
        match ir_tracking_named(value) {
            Some(v) => Assignment::Accepted(
                DraftView { config: ConfigView { ir_tracking: v, ..draft.config }, ..draft },
            ),
            None => Assignment::Rejected,
        }
    } else if key == "ir-aim-mapping"@ {
        match ir_mapping_named(value) {
            Some(v) => Assignment::Accepted(
                DraftView { config: ConfigView { ir_aim_mapping: v, ..draft.config }, ..draft },
            ),
            None => Assignment::Rejected,
        }
    } else if key == "aim-mode"@ {
        match aim_mode_named(value) {
            Some(v) => Assignment::Accepted(
                DraftView { config: ConfigView { aim_mode: v, ..draft.config }, ..draft },
            ),
            None => Assignment::Rejected,
        }
    } else if key == "aim-source"@ {
        match aim_source_named(value) {
            Some(v) => Assignment::Accepted(
                DraftView { config: ConfigView { aim_source: v, ..draft.config }, ..draft },
            ),
            None => Assignment::Rejected,
        }
    } else if key == "aim-activation"@ {
        match aim_activation_named(value) {
            Some(v) => Assignment::Accepted(
                DraftView { config: ConfigView { aim_activation: v, ..draft.config }, ..draft },
            ),
            None => Assignment::Rejected,
        }
    } else if key == "aim-invert-x"@ {
        match switch_named(value) {
            Some(v) => Assignment::Accepted(
                DraftView { config: ConfigView { aim_invert_x: v, ..draft.config }, ..draft },
            ),
            None => Assignment::Rejected,
        }
    } else if key == "aim-invert-y"@ {
        match switch_named(value) {
            Some(v) => Assignment::Accepted(
                DraftView { config: ConfigView { aim_invert_y: v, ..draft.config }, ..draft },
            ),
            None => Assignment::Rejected,
        }
    } else {
        Assignment::Unknown
    }
}

fn assign_choice(draft: &mut Draft, key: &str, value: &str) -> (outcome: Assigned)
    ensures
        follows(outcome, old(draft)@, final(draft)@, choice(old(draft)@, key@, value@)),
{
    if text::same_text(key, "profile") {
        match parse_profile(value) {
            Some(v) => {
                draft.config.profile = v;
            },
            None => {
                return Assigned::Rejected;
            },
        }
    } else if text::same_text(key, "ir-tracking") {
        match parse_ir_tracking(value) {
            Some(v) => {
                draft.config.ir_tracking = v;
            },
            None => {
                return Assigned::Rejected;
            },
        }
    } else if text::same_text(key, "ir-aim-mapping") {
        match parse_ir_mapping(value) {
            Some(v) => {
                draft.config.ir_aim_mapping = v;
            },
            None => {
                return Assigned::Rejected;
            },
        }
    } else if text::same_text(key, "aim-mode") {
        match parse_aim_mode(value) {
            Some(v) => {
                draft.config.aim_mode = v;
            },
            None => {
                return Assigned::Rejected;
            },
        }
    } else if text::same_text(key, "aim-source") {
        match parse_aim_source(value) {
            Some(v) => {
                draft.config.aim_source = v;
            },
            None => {
                return Assigned::Rejected;
            },
        }
    } else if text::same_text(key, "aim-activation") {
        match parse_aim_activation(value) {
            Some(v) => {
                draft.config.aim_activation = v;
            },
            None => {
                return Assigned::Rejected;
            },
        }
    } else if text::same_text(key, "aim-invert-x") {
        match parse_switch(value) {
            Some(v) => {
                draft.config.aim_invert_x = v;
            },
            None => {
                return Assigned::Rejected;
            },
        }
    } else if text::same_text(key, "aim-invert-y") {
        match parse_switch(value) {
            Some(v) => {
                draft.config.aim_invert_y = v;
            },
            None => {
                return Assigned::Rejected;
            },
        }
    } else {
        return Assigned::Unknown;
    }
    Assigned::Accepted
}

/// What the keys of button bindings do.
pub open spec fn binding(draft: DraftView, key: Seq<char>, value: Seq<char>) -> Assignment {
    if key == "bind-a"@ {
        match action_named(value) {
            Some(v) => Assignment::Accepted(DraftView {
                config: ConfigView {
                    desktop_bindings: DesktopBindings { a: v, ..draft.config.desktop_bindings },
                    ..draft.config
                },
                ..draft
            }),
            None => Assignment::Rejected,
        }
    } else if key == "bind-b"@ {
        match action_named(value) {
            Some(v) => Assignment::Accepted(DraftView {
                config: ConfigView {
                    desktop_bindings: DesktopBindings { b: v, ..draft.config.desktop_bindings },
                    ..draft.config
                },
                ..draft
            }),
            None => Assignment::Rejected,
        }
    } else if key == "bind-plus"@ {
        match action_named(value) {
            Some(v) => Assignment::Accepted(DraftView {
                config: ConfigView {
                    desktop_bindings: DesktopBindings { plus: v, ..draft.config.desktop_bindings },
                    ..draft.config
                },
                ..draft
            }),
            None => Assignment::Rejected,
        }
    } else if key == "bind-minus"@ {
        match action_named(value) {
            Some(v) => Assignment::Accepted(DraftView {
                config: ConfigView {
                    desktop_bindings: DesktopBindings { minus: v, ..draft.config.desktop_bindings },
                    ..draft.config
                },
                ..draft
            }),
            None => Assignment::Rejected,
        }
    } else if key == "bind-home"@ {
        match action_named(value) {
            Some(v) => Assignment::Accepted(DraftView {
                config: ConfigView {
                    desktop_bindings: DesktopBindings { home: v, ..draft.config.desktop_bindings },
                    ..draft.config
                },
                ..draft
            }),
            None => Assignment::Rejected,
        }
    } else if key == "bind-one"@ {
        match action_named(value) {
            Some(v) => Assignment::Accepted(DraftView {
                config: ConfigView {
                    desktop_bindings: DesktopBindings { one: v, ..draft.config.desktop_bindings },
                    ..draft.config
                },
                ..draft
            }),
            None => Assignment::Rejected,
        }
    } else if key == "bind-two"@ {
        match action_named(value) {
            Some(v) => Assignment::Accepted(DraftView {
                config: ConfigView {
                    desktop_bindings: DesktopBindings { two: v, ..draft.config.desktop_bindings },
                    ..draft.config
                },
                ..draft
            }),
            None => Assignment::Rejected,
        }
    } else {
        Assignment::Unknown
    }
}

fn assign_binding(draft: &mut Draft, key: &str, value: &str) -> (outcome: Assigned)
    ensures
        follows(outcome, old(draft)@, final(draft)@, binding(old(draft)@, key@, value@)),
{
    if text::same_text(key, "bind-a") {
        match parse_action(value) {
            Some(v) => {
                draft.config.desktop_bindings.a = v;
            },
            None => {
                return Assigned::Rejected;
            },
        }
    } else if text::same_text(key, "bind-b") {
        match parse_action(value) {
            Some(v) => {
                draft.config.desktop_bindings.b = v;
            },
            None => {
                return Assigned::Rejected;
            },
        }
    } else if text::same_text(key, "bind-plus") {
        match parse_action(value) {
            Some(v) => {
                draft.config.desktop_bindings.plus = v;
            },
            None => {
                return Assigned::Rejected;
            },
        }
    } else if text::same_text(key, "bind-minus") {
        match parse_action(value) {
            Some(v) => {
                draft.config.desktop_bindings.minus = v;
            },
            None => {
                return Assigned::Rejected;
            },
        }
    } else if text::same_text(key, "bind-home") {
        match parse_action(value) {
            Some(v) => {
                draft.config.desktop_bindings.home = v;
            },
            None => {
                return Assigned::Rejected;
            },
        }
    } else if text::same_text(key, "bind-one") {
        match parse_action(value) {
            Some(v) => {
                draft.config.desktop_bindings.one = v;
            },
            None => {
                return Assigned::Rejected;
            },
        }
    } else if text::same_text(key, "bind-two") {
        match parse_action(value) {
            Some(v) => {
                draft.config.desktop_bindings.two = v;
            },
            None => {
                return Assigned::Rejected;
            },
        }
    } else {
        return Assigned::Unknown;
    }
    Assigned::Accepted
}

/// What the keys of values that belong together do.
pub open spec fn part(draft: DraftView, key: Seq<char>, value: Seq<char>) -> Assignment {
    if key == "aim-accel-zero-x"@ {
        match integer(value) {
            Some(v) => Assignment::Accepted(
                DraftView { accel: PartialTriple { x: Some(v), ..draft.accel }, ..draft },
            ),
            None => Assignment::Rejected,
        }
    } else if key == "aim-accel-zero-y"@ {
        match integer(value) {
            Some(v) => Assignment::Accepted(
                DraftView { accel: PartialTriple { y: Some(v), ..draft.accel }, ..draft },
            ),
            None => Assignment::Rejected,
        }
    } else if key == "aim-accel-zero-z"@ {
        match integer(value) {
            Some(v) => Assignment::Accepted(
                DraftView { accel: PartialTriple { z: Some(v), ..draft.accel }, ..draft },
            ),
            None => Assignment::Rejected,
        }
    } else if key == "aim-motion-plus-bias-x"@ {
        match integer(value) {
            Some(v) => Assignment::Accepted(
                DraftView { motion: PartialTriple { x: Some(v), ..draft.motion }, ..draft },
            ),
            None => Assignment::Rejected,
        }
    } else if key == "aim-motion-plus-bias-y"@ {
        match integer(value) {
            Some(v) => Assignment::Accepted(
                DraftView { motion: PartialTriple { y: Some(v), ..draft.motion }, ..draft },
            ),
            None => Assignment::Rejected,
        }
    } else if key == "aim-motion-plus-bias-z"@ {
        match integer(value) {
            Some(v) => Assignment::Accepted(
                DraftView { motion: PartialTriple { z: Some(v), ..draft.motion }, ..draft },
            ),
            None => Assignment::Rejected,
        }
    } else if key == "ir-screen-left"@ {
        match integer(value) {
            Some(v) => Assignment::Accepted(
                DraftView { screen: PartialScreen { left: Some(v), ..draft.screen }, ..draft },
            ),
            None => Assignment::Rejected,
        }
    } else if key == "ir-screen-right"@ {
        match integer(value) {
            Some(v) => Assignment::Accepted(
                DraftView { screen: PartialScreen { right: Some(v), ..draft.screen }, ..draft },
            ),
            None => Assignment::Rejected,
        }
    } else if key == "ir-screen-top"@ {
        match integer(value) {
            Some(v) => Assignment::Accepted(
                DraftView { screen: PartialScreen { top: Some(v), ..draft.screen }, ..draft },
            ),
            None => Assignment::Rejected,
        }
    } else if key == "ir-screen-bottom"@ {
        match integer(value) {
            Some(v) => Assignment::Accepted(
                DraftView { screen: PartialScreen { bottom: Some(v), ..draft.screen }, ..draft },
            ),
            None => Assignment::Rejected,
        }
    } else {
        Assignment::Unknown
    }
}

fn assign_part(draft: &mut Draft, key: &str, value: &str) -> (outcome: Assigned)
    ensures
        follows(outcome, old(draft)@, final(draft)@, part(old(draft)@, key@, value@)),
{
    if text::same_text(key, "aim-accel-zero-x") {
        match parse_integer(value) {
            Some(v) => {
                draft.accel.x = Some(v);
            },
            None => {
                return Assigned::Rejected;
            },
        }
    } else if text::same_text(key, "aim-accel-zero-y") {
        match parse_integer(value) {
            Some(v) => {
                draft.accel.y = Some(v);
            },
            None => {
                return Assigned::Rejected;
            },
        }
    } else if text::same_text(key, "aim-accel-zero-z") {
        match parse_integer(value) {
            Some(v) => {
                draft.accel.z = Some(v);
            },
            None => {
                return Assigned::Rejected;
            },
        }
    } else if text::same_text(key, "aim-motion-plus-bias-x") {
        match parse_integer(value) {
            Some(v) => {
                draft.motion.x = Some(v);
            },
            None => {
                return Assigned::Rejected;
            },
        }
    } else if text::same_text(key, "aim-motion-plus-bias-y") {
        match parse_integer(value) {
            Some(v) => {
                draft.motion.y = Some(v);
            },
            None => {
                return Assigned::Rejected;
            },
        }
    } else if text::same_text(key, "aim-motion-plus-bias-z") {
        match parse_integer(value) {
            Some(v) => {
                draft.motion.z = Some(v);
            },
            None => {
                return Assigned::Rejected;
            },
        }
    } else if text::same_text(key, "ir-screen-left") {
        match parse_integer(value) {
            Some(v) => {
                draft.screen.left = Some(v);
            },
            None => {
                return Assigned::Rejected;
            },
        }
    } else if text::same_text(key, "ir-screen-right") {
        match parse_integer(value) {
            Some(v) => {
                draft.screen.right = Some(v);
            },
            None => {
                return Assigned::Rejected;
            },
        }
    } else if text::same_text(key, "ir-screen-top") {
        match parse_integer(value) {
            Some(v) => {
                draft.screen.top = Some(v);
            },
            None => {
                return Assigned::Rejected;
            },
        }
    } else if text::same_text(key, "ir-screen-bottom") {
        match parse_integer(value) {
            Some(v) => {
                draft.screen.bottom = Some(v);
            },
            None => {
                return Assigned::Rejected;
            },
        }
    } else {
        return Assigned::Unknown;
    }
    Assigned::Accepted
}

/// The rule that a text describes: a profile, and after a space the text to match.
pub open spec fn rule_of(kind: DeviceRuleKind, value: Seq<char>) -> Option<DeviceRuleView> {
    match first_space(value, 0) {
        None => None,
        Some(i) => match profile_named(value.subrange(0, i as int)) {
            None => None,
            Some(profile) => Some(
                DeviceRuleView {
                    kind,
                    match_text: text::trimmed(value.subrange(i as int, value.len() as int)),
                    profile,
                },
            ),
        },
    }
}

/// The position of the first whitespace from `from` on.
pub open spec fn first_space(s: Seq<char>, from: nat) -> Option<nat>
    decreases s.len() - from,
{
    if from >= s.len() {
        None
    } else if text::is_space(s[from as int]) {
        Some(from)
    } else {
        first_space(s, from + 1)
    }
}

fn find_space(chars: &Vec<char>) -> (index: Option<usize>)
    ensures
        match index {
            Some(i) => first_space(chars@, 0) == Some(i as nat) && i < chars@.len(),
            None => first_space(chars@, 0) is None,
        },
{
    let mut i: usize = 0;
    while i < chars.len()
        invariant
            i <= chars.len(),
            first_space(chars@, 0) == first_space(chars@, i as nat),
        decreases chars.len() - i,
    {
        if text::is_whitespace(chars[i]) {
            return Some(i);
        }
        i = i + 1;
    }
    None
}

fn parse_rule(kind: DeviceRuleKind, value: &str) -> (rule: Option<DeviceRule>)
    ensures
        match rule {
            Some(r) => rule_of(kind, value@) == Some(r@),
            None => rule_of(kind, value@) is None,
        },
{
    let chars = text::chars_of(value);
    let i = match find_space(&chars) {
        Some(i) => i,
        None => {
            return None;
        },
    };
    let head = value.substring_char(0, i);
    match parse_profile(head) {
        None => None,
        Some(profile) => {
            let tail = value.substring_char(i, chars.len());
            let match_text = text::trim(tail).to_owned();
            Some(DeviceRule { kind, match_text, profile })
        },
    }
}

/// What the keys of device rules do.
pub open spec fn rule(draft: DraftView, key: Seq<char>, value: Seq<char>) -> Assignment {
    let kind = if key == "rule-syspath"@ {
        Some(DeviceRuleKind::Syspath)
    } else if key == "rule-devtype"@ {
        Some(DeviceRuleKind::Devtype)
    } else {
        None
    };
    match kind {
        None => Assignment::Unknown,
        Some(kind) => match rule_of(kind, value) {
            None => Assignment::Rejected,
            Some(r) => Assignment::Accepted(
                DraftView {
                    config: ConfigView {
                        device_rules: draft.config.device_rules.push(r),
                        ..draft.config
                    },
                    ..draft
                },
            ),
        },
    }
}

fn assign_rule(draft: &mut Draft, key: &str, value: &str) -> (outcome: Assigned)
    ensures
        follows(outcome, old(draft)@, final(draft)@, rule(old(draft)@, key@, value@)),
{
    let kind = if text::same_text(key, "rule-syspath") {
        DeviceRuleKind::Syspath
    } else if text::same_text(key, "rule-devtype") {
        DeviceRuleKind::Devtype
    } else {
        return Assigned::Unknown;
    };
    match parse_rule(kind, value) {
        None => Assigned::Rejected,
        Some(r) => {
            let ghost before = draft.config.device_rules@;
            draft.config.device_rules.push(r);
            assert(config::rules_view(draft.config.device_rules@) =~= config::rules_view(
                before,
            ).push(r@));
            Assigned::Accepted
        },
    }
}

/// What a key and its value do to a draft. A key that nobody knows is rejected.
pub open spec fn assignment(draft: DraftView, key: Seq<char>, value: Seq<char>) -> Assignment {
    match number(draft, key, value) {
        Assignment::Unknown => match choice(draft, key, value) {
            Assignment::Unknown => match binding(draft, key, value) {
                Assignment::Unknown => match part(draft, key, value) {
                    Assignment::Unknown => rule(draft, key, value),
                    known => known,
                },
                known => known,
            },
            known => known,
        },
        known => known,
    }
}

fn assign(draft: &mut Draft, key: &str, value: &str) -> (accepted: bool)
    ensures
        match assignment(old(draft)@, key@, value@) {
            Assignment::Accepted(next) => accepted && final(draft)@ == next,
            _ => !accepted && final(draft)@ == old(draft)@,
        },
{
    let mut outcome = assign_number(draft, key, value);
    if outcome == Assigned::Unknown {
        outcome = assign_choice(draft, key, value);
    }
    if outcome == Assigned::Unknown {
        outcome = assign_binding(draft, key, value);
    }
    if outcome == Assigned::Unknown {
        outcome = assign_part(draft, key, value);
    }
    if outcome == Assigned::Unknown {
        outcome = assign_rule(draft, key, value);
    }
    outcome == Assigned::Accepted
}

/// The position of the first equals sign from `from` on.
pub open spec fn first_equals(s: Seq<char>, from: nat) -> Option<nat>
    decreases s.len() - from,
{
    if from >= s.len() {
        None
    } else if s[from as int] == '=' {
        Some(from)
    } else {
        first_equals(s, from + 1)
    }
}

/// The draft after a line. Blank lines and comments change nothing; whitespace around a line, a key
/// or a value does not count.
pub open spec fn after_line(draft: DraftView, line: Seq<char>) -> Option<DraftView> {
    let content = text::trimmed(line);
    if content.len() == 0 || content[0] == '#' {
        Some(draft)
    } else {
        match first_equals(content, 0) {
            None => None,
            Some(i) => match assignment(
                draft,
                text::trimmed(content.subrange(0, i as int)),
                text::trimmed(content.subrange(i as int + 1, content.len() as int)),
            ) {
                Assignment::Accepted(next) => Some(next),
                _ => None,
            },
        }
    }
}

fn apply_line(draft: &mut Draft, line: &str) -> (accepted: bool)
    ensures
        match after_line(old(draft)@, line@) {
            Some(next) => accepted && final(draft)@ == next,
            None => !accepted && final(draft)@ == old(draft)@,
        },
{
    let content = text::trim(line);
    let n: usize = content.unicode_len();
    if n == 0 || content.get_char(0) == '#' {
        return true;
    }
    let chars = text::chars_of(content);
    let mut i: usize = 0;
    while i < n && chars[i] != '='
        invariant
            i <= n,
            n == chars@.len(),
            chars@ == content@,
            first_equals(content@, 0) == first_equals(content@, i as nat),
        decreases n - i,
    {
        i = i + 1;
    }
    if i == n {
        return false;
    }
    let key = text::trim(content.substring_char(0, i));
    let value = text::trim(content.substring_char(i + 1, n));
    assign(draft, key, value)
}

/// The lines of a text: what stands between its line breaks.
pub open spec fn lines(s: Seq<char>) -> Seq<Seq<char>>
    decreases s.len(),
{
    if s.len() == 0 {
        seq![Seq::empty()]
    } else {
        let before = lines(s.drop_last());
        if s.last() == '\n' {
            before.push(Seq::empty())
        } else {
            before.update(before.len() - 1, before.last().push(s.last()))
        }
    }
}

/// The draft after the first `n` lines, or the number of the first line that is not understood.
pub open spec fn after_lines(draft: DraftView, all: Seq<Seq<char>>, n: nat) -> Result<
    DraftView,
    usize,
>
    decreases n,
{
    if n == 0 {
        Ok(draft)
    } else {
        match after_lines(draft, all, (n - 1) as nat) {
            Err(line) => Err(line),
            Ok(before) => match after_line(before, all[n - 1]) {
                Some(next) => Ok(next),
                None => Err(n as usize),
            },
        }
    }
}

/// Three values that belong together: all of them, or none of them and what was set before.
pub open spec fn complete_triple(
    partial: PartialTriple,
    before: Option<SensorCalibration>,
) -> Option<Option<SensorCalibration>> {
    match (partial.x, partial.y, partial.z) {
        (Some(x), Some(y), Some(z)) => Some(Some(SensorCalibration { x, y, z })),
        (None, None, None) => Some(before),
        _ => None,
    }
}

fn finish_triple(partial: PartialTriple, before: Option<SensorCalibration>) -> (r: Option<
    Option<SensorCalibration>,
>)
    ensures
        r == complete_triple(partial, before),
{
    match (partial.x, partial.y, partial.z) {
        (Some(x), Some(y), Some(z)) => Some(Some(SensorCalibration { x, y, z })),
        (None, None, None) => Some(before),
        _ => None,
    }
}

/// Four edges that belong together: all of them, or none of them and what was set before.
pub open spec fn complete_screen(partial: PartialScreen, before: Option<IrScreen>) -> Option<
    Option<IrScreen>,
> {
    match (partial.left, partial.right, partial.top, partial.bottom) {
        (Some(left), Some(right), Some(top), Some(bottom)) => Some(
            Some(IrScreen { left, right, top, bottom }),
        ),
        (None, None, None, None) => Some(before),
        _ => None,
    }
}

fn finish_screen(partial: PartialScreen, before: Option<IrScreen>) -> (r: Option<Option<IrScreen>>)
    ensures
        r == complete_screen(partial, before),
{
    match (partial.left, partial.right, partial.top, partial.bottom) {
        (Some(left), Some(right), Some(top), Some(bottom)) => Some(
            Some(IrScreen { left, right, top, bottom }),
        ),
        (None, None, None, None) => Some(before),
        _ => None,
    }
}

/// The configuration of a draft, if all values that belong together are given.
pub open spec fn completed(draft: DraftView) -> Option<ConfigView> {
    match (
        complete_triple(draft.accel, draft.config.aim_accel_zero),
        complete_triple(draft.motion, draft.config.aim_motion_plus_bias),
        complete_screen(draft.screen, draft.config.ir_screen),
    ) {
        (Some(accel), Some(motion), Some(screen)) => Some(
            ConfigView {
                aim_accel_zero: accel,
                aim_motion_plus_bias: motion,
                ir_screen: screen,
                ..draft.config
            },
        ),
        _ => None,
    }
}

/// A draft of which nothing was read.
pub open spec fn fresh(config: ConfigView) -> DraftView {
    DraftView {
        config,
        accel: PartialTriple { x: None, y: None, z: None },
        motion: PartialTriple { x: None, y: None, z: None },
        screen: PartialScreen { left: None, right: None, top: None, bottom: None },
    }
}

/// What reading a file on top of a configuration gives.
pub enum Reading {
    NotText,
    Line(usize),
    Incomplete,
    Config(ConfigView),
}

/// What reading a file on top of a configuration gives.
pub open spec fn reading(config: ConfigView, bytes: Seq<u8>) -> Reading {
    match text::decoded(bytes) {
        None => Reading::NotText,
        Some(t) => match after_lines(fresh(config), lines(t), lines(t).len()) {
            Err(line) => Reading::Line(line),
            Ok(draft) => match completed(draft) {
                None => Reading::Incomplete,
                Some(next) => Reading::Config(next),
            },
        },
    }
}

fn split_lines(content: &str) -> (bounds: Vec<(usize, usize)>)
    ensures
        bounds@.len() == lines(content@).len(),
        forall|k: int|
            0 <= k < bounds@.len() ==> (#[trigger] bounds@[k]).0 <= bounds@[k].1
                <= content@.len() && content@.subrange(bounds@[k].0 as int, bounds@[k].1 as int)
                == lines(content@)[k],
{
    let ghost t = content@;
    let chars = text::chars_of(content);
    let mut bounds: Vec<(usize, usize)> = Vec::new();
    let mut start: usize = 0;
    let mut i: usize = 0;
    proof {
        assert(t.subrange(0, 0) =~= Seq::empty());
    }
    while i < chars.len()
        invariant
            start <= i <= chars.len(),
            chars@ == t,
            t == content@,
            lines(t.subrange(0, i as int)).len() == bounds@.len() + 1,
            lines(t.subrange(0, i as int)).last() == t.subrange(start as int, i as int),
            forall|k: int|
                0 <= k < bounds@.len() ==> (#[trigger] bounds@[k]).0 <= bounds@[k].1 <= t.len()
                    && t.subrange(bounds@[k].0 as int, bounds@[k].1 as int) == lines(
                    t.subrange(0, i as int),
                )[k],
        decreases chars.len() - i,
    {
        let ghost p = t.subrange(0, i as int);
        let ghost q = t.subrange(0, i + 1);
        proof {
            assert(q.drop_last() =~= p);
            assert(q.last() == t[i as int]);
        }
        if chars[i] == '\n' {
            bounds.push((start, i));
            i = i + 1;
            start = i;
            assert(t.subrange(start as int, i as int) =~= Seq::empty());
        } else {
            assert(t.subrange(start as int, i as int).push(t[i as int]) =~= t.subrange(
                start as int,
                i + 1,
            ));
            i = i + 1;
        }
    }
    assert(t.subrange(0, i as int) =~= t);
    bounds.push((start, i));
    bounds
}

proof fn lemma_failure_lasts(draft: DraftView, all: Seq<Seq<char>>, n: nat, m: nat)
    requires
        n <= m,
        after_lines(draft, all, n) is Err,
    ensures
        after_lines(draft, all, m) == after_lines(draft, all, n),
    decreases m - n,
{
    if n < m {
        lemma_failure_lasts(draft, all, n, (m - 1) as nat);
    }
}

fn apply_lines(draft: &mut Draft, content: &str) -> (result: Result<(), usize>)
    ensures
        match after_lines(old(draft)@, lines(content@), lines(content@).len()) {
            Ok(next) => result == Ok::<(), usize>(()) && final(draft)@ == next,
            Err(line) => result == Err::<(), usize>(line),
        },
{
    let bounds = split_lines(content);
    let ghost all = lines(content@);
    let mut k: usize = 0;
    while k < bounds.len()
        invariant
            k <= bounds.len(),
            all == lines(content@),
            bounds@.len() == all.len(),
            forall|j: int|
                0 <= j < bounds@.len() ==> (#[trigger] bounds@[j]).0 <= bounds@[j].1
                    <= content@.len() && content@.subrange(
                    bounds@[j].0 as int,
                    bounds@[j].1 as int,
                ) == all[j],
            after_lines(old(draft)@, all, k as nat) == Ok::<DraftView, usize>(draft@),
        decreases bounds.len() - k,
    {
        let (from, to) = bounds[k];
        let line = content.substring_char(from, to);
        if !apply_line(draft, line) {
            proof {
                assert(after_lines(old(draft)@, all, k as nat + 1) == Err::<DraftView, usize>(
                    (k + 1) as usize,
                ));
                lemma_failure_lasts(old(draft)@, all, k as nat + 1, all.len());
            }
            return Err(k + 1);
        }
        k = k + 1;
    }
    Ok(())
}

/// What reading a file on top of a configuration gives, with the file named where it is at fault.
pub open spec fn after_bytes(config: ConfigView, origin: Seq<char>, bytes: Seq<u8>) -> Result<
    ConfigView,
    ConfigErrorView,
> {
    match reading(config, bytes) {
        Reading::NotText => Err(fault_in(origin, ConfigFault::NotText)),
        Reading::Line(line) => Err(fault_in(origin, ConfigFault::Line(line))),
        Reading::Incomplete => Err(fault_in(origin, ConfigFault::Incomplete)),
        Reading::Config(next) => Ok(next),
    }
}

impl Config {
    /// Reads a file on top of this configuration. Only a file that is understood as a whole changes
    /// anything. An error names the file.
    pub fn apply_bytes(&mut self, origin: &str, bytes: &[u8]) -> (result: Result<(), ConfigError>)
        ensures
            match after_bytes(old(self)@, origin@, bytes@) {
                Ok(next) => result is Ok && final(self)@ == next,
                Err(expected) => result matches Err(error) && error@ == expected && final(self)@
                    == old(self)@,
            },
    {
        let content = match text::decode(bytes) {
            Some(content) => content,
            None => {
                return Err(ConfigError::new(origin, ConfigFault::NotText));
            },
        };
        let none = PartialTriple { x: None, y: None, z: None };
        let mut draft = Draft {
            config: self.clone(),
            accel: none,
            motion: none,
            screen: PartialScreen { left: None, right: None, top: None, bottom: None },
        };
        if let Err(line) = apply_lines(&mut draft, content) {
            return Err(ConfigError::new(origin, ConfigFault::Line(line)));
        }
        let accel = finish_triple(draft.accel, draft.config.aim_accel_zero);
        let motion = finish_triple(draft.motion, draft.config.aim_motion_plus_bias);
        let screen = finish_screen(draft.screen, draft.config.ir_screen);
        match (accel, motion, screen) {
            (Some(accel), Some(motion), Some(screen)) => {
                let mut config = draft.config;
                config.aim_accel_zero = accel;
                config.aim_motion_plus_bias = motion;
                config.ir_screen = screen;
                *self = config;
                Ok(())
            },
            _ => Err(ConfigError::new(origin, ConfigFault::Incomplete)),
        }
    }
}

/// What reading one layer on top of a configuration gives. A layer that is not required may be
/// missing.
pub open spec fn after_layer(config: ConfigView, layer: LayerView, required: bool) -> Result<
    ConfigView,
    ConfigErrorView,
> {
    match layer.read {
        Err(failure) => if !required && failure.kind is NotFound {
            Ok(config)
        } else {
            Err(fault_in(layer.origin, ConfigFault::Io(failure)))
        },
        Ok(bytes) => after_bytes(config, layer.origin, bytes@),
    }
}

/// What reading a layer that may not have been asked for gives.
pub open spec fn after_optional_layer(config: ConfigView, layer: Option<LayerView>) -> Result<
    ConfigView,
    ConfigErrorView,
> {
    match layer {
        None => Ok(config),
        Some(layer) => after_layer(config, layer, false),
    }
}

/// A configuration that is in range, or what is wrong with it.
pub open spec fn in_range(layered: Result<ConfigView, ConfigErrorView>) -> Result<
    ConfigView,
    ConfigErrorView,
> {
    match layered {
        Err(error) => Err(error),
        Ok(config) => match config.first_problem() {
            Some(problem) => Err(out_of_range(problem)),
            None => Ok(config),
        },
    }
}

/// The configuration of the layers: an explicit file alone, or else the user's file on top of the
/// system's.
pub open spec fn layers(
    system: Option<LayerView>,
    user: Option<LayerView>,
    explicit: Option<LayerView>,
) -> Result<ConfigView, ConfigErrorView> {
    in_range(
        match explicit {
            Some(layer) => after_layer(config::default_config(), layer, true),
            None => match after_optional_layer(config::default_config(), system) {
                Err(error) => Err(error),
                Ok(below) => after_optional_layer(below, user),
            },
        },
    )
}

/// The system's layer, as it was read.
pub open spec fn system_layer(read: Result<Vec<u8>, IoFailure>) -> LayerView {
    LayerView { origin: SYSTEM_CONFIG_PATH@, read }
}

/// Whether a result has a value or an error.
pub open spec fn gives(
    result: Result<Config, ConfigError>,
    expected: Result<ConfigView, ConfigErrorView>,
) -> bool {
    match result {
        Ok(config) => expected == Ok::<ConfigView, ConfigErrorView>(config@),
        Err(error) => expected == Err::<ConfigView, ConfigErrorView>(error@),
    }
}

/// What bytes describe, on top of the defaults.
pub open spec fn parsed(origin: Seq<char>, bytes: Seq<u8>) -> Result<ConfigView, ConfigErrorView> {
    in_range(after_bytes(config::default_config(), origin, bytes))
}

fn read_layer(
    config: &mut Config,
    origin: &str,
    read: Result<Vec<u8>, IoFailure>,
    required: bool,
) -> (result: Result<(), ConfigError>)
    ensures
        match after_layer(old(config)@, LayerView { origin: origin@, read }, required) {
            Ok(next) => result is Ok && final(config)@ == next,
            Err(expected) => result matches Err(error) && error@ == expected,
        },
{
    let bytes = match read {
        Ok(bytes) => bytes,
        Err(failure) => {
            if !required && failure.kind == IoKind::NotFound {
                return Ok(());
            }
            return Err(ConfigError::new(origin, ConfigFault::Io(failure)));
        },
    };
    config.apply_bytes(origin, bytes.as_slice())
}

fn validated(config: Config) -> (result: Result<Config, ConfigError>)
    ensures
        gives(result, in_range(Ok(config@))),
{
    match config.validate() {
        Ok(()) => Ok(config),
        Err(problem) => Err(ConfigError { origin: None, fault: ConfigFault::Invalid(problem) }),
    }
}

impl Config {
    /// The configuration of the system's and the user's files, as they were read.
    pub fn load(system: Result<Vec<u8>, IoFailure>, user: Option<Layer>) -> (result: Result<
        Config,
        ConfigError,
    >)
        ensures
            gives(result, layers(Some(system_layer(system)), layer_view(user), None)),
    {
        Config::load_default_layers(system, user)
    }

    /// The configuration of the file at a path, as it was read. The file must exist.
    pub fn load_file(path: &str, read: Result<Vec<u8>, IoFailure>) -> (result: Result<
        Config,
        ConfigError,
    >)
        ensures
            gives(
                result,
                in_range(
                    after_layer(
                        config::default_config(),
                        (LayerView { origin: path@, read }),
                        true,
                    ),
                ),
            ),
    {
        let mut c = Config::default();
        match read_layer(&mut c, path, read, true) {
            Err(error) => Err(error),
            Ok(()) => validated(c),
        }
    }

    /// The configuration of the layers, as they were read: an explicit file alone, or else the
    /// user's file on top of the system's.
    pub fn load_layers(system: Option<Layer>, user: Option<Layer>, explicit: Option<Layer>) -> (result:
        Result<Config, ConfigError>)
        ensures
            gives(result, layers(layer_view(system), layer_view(user), layer_view(explicit))),
    {
        let mut c = Config::default();
        if let Some(layer) = explicit {
            if let Err(error) = read_layer(&mut c, layer.origin.as_str(), layer.read, true) {
                return Err(error);
            }
        } else {
            if let Some(layer) = system {
                if let Err(error) = read_layer(&mut c, layer.origin.as_str(), layer.read, false) {
                    return Err(error);
                }
            }
            if let Some(layer) = user {
                if let Err(error) = read_layer(&mut c, layer.origin.as_str(), layer.read, false) {
                    return Err(error);
                }
            }
        }
        validated(c)
    }

    /// The configuration of the system's and the user's files, as they were read.
    pub fn load_default_layers(system: Result<Vec<u8>, IoFailure>, user: Option<Layer>) -> (result:
        Result<Config, ConfigError>)
        ensures
            gives(result, layers(Some(system_layer(system)), layer_view(user), None)),
    {
        let system = Layer { origin: SYSTEM_CONFIG_PATH.to_owned(), read: system };
        Config::load_layers(Some(system), user, None)
    }

    /// The configuration that bytes of this origin describe, on top of the defaults.
    pub fn parse_bytes(origin: &str, bytes: &[u8]) -> (result: Result<Config, ConfigError>)
        ensures
            gives(result, parsed(origin@, bytes@)),
    {
        let mut c = Config::default();
        match c.apply_bytes(origin, bytes) {
            Err(error) => Err(error),
            Ok(()) => validated(c),
        }
    }
}

impl Profile {
    /// The name of the profile.
    pub fn as_str(self) -> (name: &'static str)
        ensures
            name@ == profile_text(self),
    {
        profile_name(self)
    }

    /// The profile of a name.
    pub fn parse(name: &str) -> (profile: Option<Profile>)
        ensures
            profile == profile_named(name@),
    {
        parse_profile(name)
    }
}

/// One line of a configuration file.
pub open spec fn line_text(key: Seq<char>, value: Seq<char>) -> Seq<char> {
    key + "="@ + value + "\n"@
}

fn append_line(out: &mut String, key: &str, value: &str)
    ensures
        final(out)@ == old(out)@ + line_text(key@, value@),
{
    out.append(key);
    out.append("=");
    out.append(value);
    out.append("\n");
    assert(out@ =~= old(out)@ + line_text(key@, value@));
}

fn append_number(out: &mut String, key: &str, value: i32)
    ensures
        final(out)@ == old(out)@ + line_text(key@, text::signed_decimal(value as int)),
{
    let mut number = String::new();
    text::append_signed(&mut number, value as i64);
    assert(number@ =~= text::signed_decimal(value as int));
    append_line(out, key, number.as_str());
}

/// The name of a switch's position.
pub open spec fn switch_text(value: bool) -> Seq<char> {
    if value {
        "true"@
    } else {
        "false"@
    }
}

fn append_switch(out: &mut String, key: &str, value: bool)
    ensures
        final(out)@ == old(out)@ + line_text(key@, switch_text(value)),
{
    if value {
        append_line(out, key, "true");
    } else {
        append_line(out, key, "false");
    }
}

/// The lines of the profile and the pointer.
pub open spec fn pointer_text(c: ConfigView) -> Seq<char> {
    line_text("profile"@, profile_text(c.profile))
        + line_text("pointer-speed"@, text::signed_decimal(c.pointer_speed as int))
        + line_text("ir-speed"@, text::signed_decimal(c.ir_speed as int))
        + line_text("ir-deadzone"@, text::signed_decimal(c.ir_deadzone as int))
        + line_text("ir-smoothing"@, text::signed_decimal(c.ir_smoothing as int))
        + line_text("ir-tracking"@, ir_tracking_text(c.ir_tracking))
        + line_text("ir-aim-mapping"@, ir_mapping_text(c.ir_aim_mapping))
}

fn append_pointer(out: &mut String, c: &Config)
    ensures
        final(out)@ == old(out)@ + pointer_text(c@),
{
    append_line(out, "profile", profile_name(c.profile));
    append_number(out, "pointer-speed", c.pointer_speed);
    append_number(out, "ir-speed", c.ir_speed);
    append_number(out, "ir-deadzone", c.ir_deadzone);
    append_number(out, "ir-smoothing", c.ir_smoothing);
    append_line(out, "ir-tracking", ir_tracking_name(c.ir_tracking));
    append_line(out, "ir-aim-mapping", ir_mapping_name(c.ir_aim_mapping));
    assert(out@ =~= old(out)@ + pointer_text(c@));
}

/// The lines of motion aiming.
pub open spec fn aim_text(c: ConfigView) -> Seq<char> {
    line_text("aim-mode"@, aim_mode_text(c.aim_mode))
        + line_text("aim-source"@, aim_source_text(c.aim_source))
        + line_text("aim-activation"@, aim_activation_text(c.aim_activation))
        + line_text("aim-sensitivity"@, text::signed_decimal(c.aim_sensitivity as int))
        + line_text("aim-deadzone"@, text::signed_decimal(c.aim_deadzone as int))
        + line_text("aim-smoothing"@, text::signed_decimal(c.aim_smoothing as int))
        + line_text("aim-invert-x"@, switch_text(c.aim_invert_x))
        + line_text("aim-invert-y"@, switch_text(c.aim_invert_y))
        + line_text(
            "aim-calibration-duration"@,
            text::signed_decimal(c.aim_calibration_duration as int),
        )
}

fn append_aim(out: &mut String, c: &Config)
    ensures
        final(out)@ == old(out)@ + aim_text(c@),
{
    append_line(out, "aim-mode", aim_mode_name(c.aim_mode));
    append_line(out, "aim-source", aim_source_name(c.aim_source));
    append_line(out, "aim-activation", aim_activation_name(c.aim_activation));
    append_number(out, "aim-sensitivity", c.aim_sensitivity);
    append_number(out, "aim-deadzone", c.aim_deadzone);
    append_number(out, "aim-smoothing", c.aim_smoothing);
    append_switch(out, "aim-invert-x", c.aim_invert_x);
    append_switch(out, "aim-invert-y", c.aim_invert_y);
    append_number(out, "aim-calibration-duration", c.aim_calibration_duration);
    assert(out@ =~= old(out)@ + aim_text(c@));
}

/// The lines of the button bindings.
pub open spec fn bindings_text(c: ConfigView) -> Seq<char> {
    line_text("bind-a"@, action_text(c.desktop_bindings.a))
        + line_text("bind-b"@, action_text(c.desktop_bindings.b))
        + line_text("bind-plus"@, action_text(c.desktop_bindings.plus))
        + line_text("bind-minus"@, action_text(c.desktop_bindings.minus))
        + line_text("bind-home"@, action_text(c.desktop_bindings.home))
        + line_text("bind-one"@, action_text(c.desktop_bindings.one))
        + line_text("bind-two"@, action_text(c.desktop_bindings.two))
}

fn append_bindings(out: &mut String, c: &Config)
    ensures
        final(out)@ == old(out)@ + bindings_text(c@),
{
    append_line(out, "bind-a", action_name(c.desktop_bindings.a));
    append_line(out, "bind-b", action_name(c.desktop_bindings.b));
    append_line(out, "bind-plus", action_name(c.desktop_bindings.plus));
    append_line(out, "bind-minus", action_name(c.desktop_bindings.minus));
    append_line(out, "bind-home", action_name(c.desktop_bindings.home));
    append_line(out, "bind-one", action_name(c.desktop_bindings.one));
    append_line(out, "bind-two", action_name(c.desktop_bindings.two));
    assert(out@ =~= old(out)@ + bindings_text(c@));
}

/// The lines of a screen, if there is one.
pub open spec fn screen_text(screen: Option<IrScreen>) -> Seq<char> {
    match screen {
        None => Seq::empty(),
        Some(s) => line_text("ir-screen-left"@, text::signed_decimal(s.left as int)) + line_text(
            "ir-screen-right"@,
            text::signed_decimal(s.right as int),
        ) + line_text("ir-screen-top"@, text::signed_decimal(s.top as int)) + line_text(
            "ir-screen-bottom"@,
            text::signed_decimal(s.bottom as int),
        ),
    }
}

fn append_screen(out: &mut String, screen: Option<IrScreen>)
    ensures
        final(out)@ == old(out)@ + screen_text(screen),
{
    if let Some(s) = screen {
        append_number(out, "ir-screen-left", s.left);
        append_number(out, "ir-screen-right", s.right);
        append_number(out, "ir-screen-top", s.top);
        append_number(out, "ir-screen-bottom", s.bottom);
    }
    assert(out@ =~= old(out)@ + screen_text(screen));
}

/// The lines of the accelerometer's rest position, if there is one.
pub open spec fn accel_text(calibration: Option<SensorCalibration>) -> Seq<char> {
    match calibration {
        None => Seq::empty(),
        Some(c) => line_text("aim-accel-zero-x"@, text::signed_decimal(c.x as int)) + line_text(
            "aim-accel-zero-y"@,
            text::signed_decimal(c.y as int),
        ) + line_text("aim-accel-zero-z"@, text::signed_decimal(c.z as int)),
    }
}

/// Appends the lines of the accelerometer's rest position, if there is one.
pub fn append_accel(out: &mut String, calibration: Option<SensorCalibration>)
    ensures
        final(out)@ == old(out)@ + accel_text(calibration),
{
    if let Some(c) = calibration {
        append_number(out, "aim-accel-zero-x", c.x);
        append_number(out, "aim-accel-zero-y", c.y);
        append_number(out, "aim-accel-zero-z", c.z);
    }
    assert(out@ =~= old(out)@ + accel_text(calibration));
}

/// The lines of the MotionPlus bias, if there is one.
pub open spec fn motion_text(calibration: Option<SensorCalibration>) -> Seq<char> {
    match calibration {
        None => Seq::empty(),
        Some(c) => line_text("aim-motion-plus-bias-x"@, text::signed_decimal(c.x as int))
            + line_text("aim-motion-plus-bias-y"@, text::signed_decimal(c.y as int)) + line_text(
            "aim-motion-plus-bias-z"@,
            text::signed_decimal(c.z as int),
        ),
    }
}

/// Appends the lines of the MotionPlus bias, if there is one.
pub fn append_motion(out: &mut String, calibration: Option<SensorCalibration>)
    ensures
        final(out)@ == old(out)@ + motion_text(calibration),
{
    if let Some(c) = calibration {
        append_number(out, "aim-motion-plus-bias-x", c.x);
        append_number(out, "aim-motion-plus-bias-y", c.y);
        append_number(out, "aim-motion-plus-bias-z", c.z);
    }
    assert(out@ =~= old(out)@ + motion_text(calibration));
}

/// The line of a device rule.
pub open spec fn rule_text(rule: DeviceRuleView) -> Seq<char> {
    line_text(
        match rule.kind {
            DeviceRuleKind::Syspath => "rule-syspath"@,
            DeviceRuleKind::Devtype => "rule-devtype"@,
        },
        profile_text(rule.profile) + " "@ + rule.match_text,
    )
}

/// The lines of the first `n` device rules.
pub open spec fn rules_text(rules: Seq<DeviceRuleView>, n: nat) -> Seq<char>
    decreases n,
{
    if n == 0 {
        Seq::empty()
    } else {
        rules_text(rules, (n - 1) as nat) + rule_text(rules[n - 1])
    }
}

fn append_rules(out: &mut String, rules: &Vec<DeviceRule>)
    ensures
        final(out)@ == old(out)@ + rules_text(config::rules_view(rules@), rules@.len()),
{
    let mut i: usize = 0;
    let ghost all = config::rules_view(rules@);
    assert(out@ =~= old(out)@ + rules_text(all, 0));
    while i < rules.len()
        invariant
            i <= rules.len(),
            all == config::rules_view(rules@),
            out@ == old(out)@ + rules_text(all, i as nat),
        decreases rules.len() - i,
    {
        let rule = &rules[i];
        assert(all[i as int] == rule@);
        let mut value = profile_name(rule.profile).to_owned();
        value.append(" ");
        value.append(rule.match_text.as_str());
        match rule.kind {
            DeviceRuleKind::Syspath => {
                append_line(out, "rule-syspath", value.as_str());
            },
            DeviceRuleKind::Devtype => {
                append_line(out, "rule-devtype", value.as_str());
            },
        }
        i = i + 1;
        assert(out@ =~= old(out)@ + rules_text(all, i as nat));
    }
}

/// The configuration as a file.
pub open spec fn rendered(c: ConfigView) -> Seq<char> {
    pointer_text(c) + screen_text(c.ir_screen) + aim_text(c) + accel_text(c.aim_accel_zero)
        + motion_text(c.aim_motion_plus_bias) + bindings_text(c) + rules_text(
        c.device_rules,
        c.device_rules.len(),
    )
}

/// The configuration as a file.
pub fn render(c: &Config) -> (file: String)
    ensures
        file@ == rendered(c@),
{
    let mut out = String::new();
    append_pointer(&mut out, c);
    append_screen(&mut out, c.ir_screen);
    append_aim(&mut out, c);
    append_accel(&mut out, c.aim_accel_zero);
    append_motion(&mut out, c.aim_motion_plus_bias);
    append_bindings(&mut out, c);
    append_rules(&mut out, &c.device_rules);
    assert(out@ =~= rendered(c@));
    out
}

/// An explicit file stands alone: whatever the other layers hold, they change nothing.
pub proof fn an_explicit_file_stands_alone(
    system: Option<LayerView>,
    user: Option<LayerView>,
    explicit: LayerView,
)
    ensures
        layers(system, user, Some(explicit)) == in_range(
            after_layer(config::default_config(), explicit, true),
        ),
{
}

/// An explicit file that cannot be read is an error that names it, also where nothing exists at its
/// path: it never gives the defaults.
pub proof fn a_missing_explicit_file_is_named(
    system: Option<LayerView>,
    user: Option<LayerView>,
    path: Seq<char>,
    failure: IoFailure,
)
    ensures
        layers(system, user, Some(LayerView { origin: path, read: Err(failure) })) == Err::<
            ConfigView,
            ConfigErrorView,
        >(fault_in(path, ConfigFault::Io(failure))),
{
}

/// Without any file the defaults hold.
pub proof fn missing_files_give_the_defaults(
    system: Seq<char>,
    system_failure: IoFailure,
    user: Seq<char>,
    user_failure: IoFailure,
)
    requires
        system_failure.kind is NotFound,
        user_failure.kind is NotFound,
    ensures
        layers(
            Some(LayerView { origin: system, read: Err(system_failure) }),
            Some(LayerView { origin: user, read: Err(user_failure) }),
            None,
        ) == Ok::<ConfigView, ConfigErrorView>(config::default_config()),
        layers(None, None, None) == Ok::<ConfigView, ConfigErrorView>(config::default_config()),
{
    config::default_configuration_is_valid();
    config::valid_means_nothing_to_report(config::default_config());
}

/// Every error names the file at fault, but for a value that is out of range.
pub proof fn errors_name_their_file(
    system: Option<LayerView>,
    user: Option<LayerView>,
    explicit: Option<LayerView>,
)
    ensures
        layers(system, user, explicit) matches Err(error) ==> match error.origin {
            Some(origin) => if explicit is Some {
                explicit->0.origin == origin
            } else {
                ||| system is Some && system->0.origin == origin
                ||| user is Some && user->0.origin == origin
            },
            None => error.fault is Invalid,
        },
{
}

/// Whatever the layers hold, a configuration that loads is in range.
pub proof fn loaded_configurations_are_valid(
    system: Option<LayerView>,
    user: Option<LayerView>,
    explicit: Option<LayerView>,
)
    ensures
        layers(system, user, explicit) matches Ok(c) ==> c.valid(),
{
    if let Ok(c) = layers(system, user, explicit) {
        config::valid_means_nothing_to_report(c);
    }
}

} // verus!
