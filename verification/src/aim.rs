//! Motion aiming: sensor choice, activation, response and smoothing.
use crate::config::{
    AimActivation, AimMode, AimSource, Config, ConfigView, IrAimMapping, IrScreen,
    SensorCalibration,
};
use crate::input::Button;
use crate::pointer;
use crate::pointer::{divide, narrow, IrPosition};
use vstd::prelude::*;

verus! {

/// A sensor that can drive aiming. Later ones are preferred where the choice is automatic.
#[derive(Clone, Copy, Debug, PartialEq, Eq, Structural, Hash)]
pub enum AimSensor {
    Accelerometer,
    MotionPlus,
    Ir,
}

impl AimSensor {
    /// The order of preference.
    pub open spec fn rank(self) -> int {
        match self {
            AimSensor::Accelerometer => 1,
            AimSensor::MotionPlus => 2,
            AimSensor::Ir => 3,
        }
    }
}

/// The part of the configuration that aiming reads.
#[derive(Clone, Copy, Debug, PartialEq, Eq, Structural)]
pub struct AimConfig {
    pub output: AimMode,
    pub source: AimSource,
    pub activation: AimActivation,
    pub sensitivity: i32,
    pub deadzone: i32,
    pub smoothing: i32,
    pub invert_x: bool,
    pub invert_y: bool,
    pub accel_zero: Option<SensorCalibration>,
    pub motion_plus_bias: Option<SensorCalibration>,
    pub ir_mapping: IrAimMapping,
    pub ir_screen: Option<IrScreen>,
}

/// One aiming output.
#[derive(Clone, Copy, Debug, PartialEq, Eq, Structural, Hash)]
pub struct AimVector {
    pub x: i32,
    pub y: i32,
}

/// What a report leads to.
#[derive(Clone, Copy, Debug, PartialEq, Eq, Structural, Hash)]
pub struct AimResult {
    pub output: Option<AimVector>,
}

/// The state of one controller's aiming.
#[derive(Clone, Copy, Debug, PartialEq, Eq, Structural)]
pub struct AimState {
    pub config: AimConfig,
    /// Whether the activation button is held.
    pub held: bool,
    /// The preferred sensor among those that have reported in this session.
    pub sensor: Option<AimSensor>,
    /// The last IR position, from which relative movement is measured.
    pub baseline: Option<IrPosition>,
    /// The last output before inversion, which smoothing blends with the next.
    pub previous: AimVector,
}

/// The aiming part of a configuration.
pub open spec fn aim_config(config: ConfigView) -> AimConfig {
    AimConfig {
        output: config.aim_mode,
        source: config.aim_source,
        activation: config.aim_activation,
        sensitivity: config.aim_sensitivity,
        deadzone: config.aim_deadzone,
        smoothing: config.aim_smoothing,
        invert_x: config.aim_invert_x,
        invert_y: config.aim_invert_y,
        accel_zero: config.aim_accel_zero,
        motion_plus_bias: config.aim_motion_plus_bias,
        ir_mapping: config.ir_aim_mapping,
        ir_screen: config.ir_screen,
    }
}

/// A rest output.
pub open spec fn centre() -> AimVector {
    AimVector { x: 0, y: 0 }
}

/// No output.
pub open spec fn silent() -> AimResult {
    AimResult { output: None }
}

/// The rest position of an axis.
pub open spec fn offset(calibration: Option<SensorCalibration>) -> (int, int) {
    match calibration {
        Some(c) => (c.x as int, c.y as int),
        None => (0, 0),
    }
}

/// The response to a displacement of one axis, before inversion.
pub open spec fn response(config: AimConfig, displacement: int, previous: i32) -> i32 {
    let live = if -config.deadzone <= displacement <= config.deadzone {
        0
    } else {
        displacement
    };
    let scaled = pointer::quotient(live * config.sensitivity, 16);
    pointer::saturate(
        pointer::quotient(scaled * (100 - config.smoothing) + previous * config.smoothing, 100),
    )
}

/// The displacement from the screen's centre that a coordinate stands for, over the 16-bit range.
pub open spec fn screen_displacement(value: int, low: int, high: int) -> int {
    pointer::quotient((value - low) * 65535, high - low) - 32768
}

/// The displacement of an IR position.
pub open spec fn ir_displacement(
    config: AimConfig,
    baseline: Option<IrPosition>,
    at: IrPosition,
) -> (int, int) {
    match config.ir_mapping {
        IrAimMapping::Relative => match baseline {
            Some(from) => (at.x - from.x, at.y - from.y),
            None => (0, 0),
        },
        IrAimMapping::Absolute => match config.ir_screen {
            Some(screen) => (
                screen_displacement(at.x as int, screen.left as int, screen.right as int),
                screen_displacement(at.y as int, screen.top as int, screen.bottom as int),
            ),
            None => (
                screen_displacement(at.x as int, 0, 1023),
                screen_displacement(at.y as int, 0, 767),
            ),
        },
    }
}

impl AimConfig {
    /// Whether the settings are in range.
    pub open spec fn well_formed(self) -> bool {
        &&& 1 <= self.sensitivity <= 127
        &&& 0 <= self.deadzone <= 32767
        &&& 0 <= self.smoothing <= 95
        &&& crate::config::calibration_valid(self.accel_zero)
        &&& crate::config::calibration_valid(self.motion_plus_bias)
        &&& crate::config::screen_valid(self.ir_screen)
    }

    /// The button that switches aiming on.
    pub open spec fn activation_button(self) -> Option<Button> {
        match self.activation {
            AimActivation::B => Some(Button::B),
            AimActivation::Z => Some(Button::Z),
            AimActivation::C => Some(Button::C),
            AimActivation::Always => None,
        }
    }

    /// Whether the configured source admits a sensor.
    pub open spec fn admits(self, sensor: AimSensor) -> bool {
        match self.source {
            AimSource::Auto => true,
            AimSource::Ir => sensor is Ir,
            AimSource::MotionPlus => sensor is MotionPlus,
            AimSource::Accelerometer => sensor is Accelerometer,
        }
    }

    /// The aiming part of a configuration.
    pub fn from_config(config: &Config) -> (aim: AimConfig)
        ensures
            aim == aim_config(config@),
    {
        AimConfig {
            output: config.aim_mode,
            source: config.aim_source,
            activation: config.aim_activation,
            sensitivity: config.aim_sensitivity,
            deadzone: config.aim_deadzone,
            smoothing: config.aim_smoothing,
            invert_x: config.aim_invert_x,
            invert_y: config.aim_invert_y,
            accel_zero: config.aim_accel_zero,
            motion_plus_bias: config.aim_motion_plus_bias,
            ir_mapping: config.ir_aim_mapping,
            ir_screen: config.ir_screen,
        }
    }
}

impl AimState {
    /// Whether the settings are in range.
    pub open spec fn well_formed(self) -> bool {
        self.config.well_formed()
    }

    /// The state at the start of a session.
    pub open spec fn initial(config: AimConfig) -> AimState {
        AimState { config, held: false, sensor: None, baseline: None, previous: centre() }
    }

    /// Whether aiming is on.
    pub open spec fn active(self) -> bool {
        self.config.output !is Off && (self.held || self.config.activation is Always)
    }

    /// The state after a sensor reported, whether or not its report is used.
    pub open spec fn noticing(self, sensor: AimSensor) -> AimState {
        let sensor = match self.sensor {
            Some(known) if known.rank() > sensor.rank() => known,
            _ => sensor,
        };
        AimState { sensor: Some(sensor), ..self }
    }

    /// Whether reports of a sensor are used.
    pub open spec fn uses(self, sensor: AimSensor) -> bool {
        self.active() && self.config.admits(sensor) && (self.config.source is Auto ==> self.sensor
            == Some(sensor))
    }

    /// The output before inversion for a displacement.
    pub open spec fn blend(self, displacement: (int, int)) -> AimVector {
        AimVector {
            x: response(self.config, displacement.0, self.previous.x),
            y: response(self.config, displacement.1, self.previous.y),
        }
    }

    /// An output with the configured axes inverted.
    pub open spec fn directed(self, v: AimVector) -> AimVector {
        AimVector {
            x: if self.config.invert_x {
                (-v.x) as i32
            } else {
                v.x
            },
            y: if self.config.invert_y {
                (-v.y) as i32
            } else {
                v.y
            },
        }
    }

    /// The state and the result after a displacement reported by a sensor.
    pub open spec fn moved(self, sensor: AimSensor, displacement: (int, int)) -> (
        AimState,
        AimResult,
    ) {
        let next = self.noticing(sensor);
        if next.uses(sensor) {
            let v = next.blend(displacement);
            (AimState { previous: v, ..next }, AimResult { output: Some(next.directed(v)) })
        } else {
            (next, silent())
        }
    }

    /// The state and the result after an accelerometer report.
    pub open spec fn after_accelerometer(self, v: Seq<i32>) -> (AimState, AimResult) {
        let zero = offset(self.config.accel_zero);
        self.moved(AimSensor::Accelerometer, (v[0] - zero.0, v[1] - zero.1))
    }

    /// The state and the result after a MotionPlus report.
    pub open spec fn after_motion_plus(self, v: Seq<i32>) -> (AimState, AimResult) {
        let bias = offset(self.config.motion_plus_bias);
        self.moved(AimSensor::MotionPlus, (v[0] - bias.0, v[1] - bias.1))
    }

    /// The state and the result after an IR report. Without a visible point nothing is output, and
    /// the position is forgotten.
    pub open spec fn after_ir(self, point: Option<IrPosition>) -> (AimState, AimResult) {
        match point {
            None => (AimState { baseline: None, ..self }, silent()),
            Some(at) => {
                let after = self.moved(
                    AimSensor::Ir,
                    ir_displacement(self.config, self.baseline, at),
                );
                (AimState { baseline: Some(at), ..after.0 }, after.1)
            },
        }
    }

    /// The state and the result after a button changed. Letting the activation button go centres
    /// the output.
    pub open spec fn after_button(self, button: Button, held: bool) -> (AimState, AimResult) {
        if self.config.activation_button() != Some(button) {
            (self, silent())
        } else if held {
            (AimState { held: true, ..self }, silent())
        } else {
            (
                AimState { held: false, baseline: None, previous: centre(), ..self },
                AimResult { output: Some(centre()) },
            )
        }
    }

    /// Aiming at rest.
    pub fn new(config: AimConfig) -> (state: AimState)
        ensures
            state == AimState::initial(config),
    {
        AimState {
            config,
            held: false,
            sensor: None,
            baseline: None,
            previous: AimVector { x: 0, y: 0 },
        }
    }

    /// Starts a new session with the same settings.
    pub fn reset_session(&mut self)
        ensures
            *final(self) == AimState::initial(old(self).config),
    {
        self.held = false;
        self.sensor = None;
        self.baseline = None;
        self.previous = AimVector { x: 0, y: 0 };
    }

    /// Takes an accelerometer report.
    pub fn process_accelerometer(&mut self, v: [i32; 3]) -> (result: AimResult)
        requires
            old(self).well_formed(),
        ensures
            (*final(self), result) == old(self).after_accelerometer(v@),
    {
        let (x, y): (i32, i32) = match self.config.accel_zero {
            Some(c) => (c.x, c.y),
            None => (0, 0),
        };
        self.shift(AimSensor::Accelerometer, v[0] as i64 - x as i64, v[1] as i64 - y as i64)
    }

    /// Takes a MotionPlus report.
    pub fn process_motion_plus(&mut self, v: [i32; 3]) -> (result: AimResult)
        requires
            old(self).well_formed(),
        ensures
            (*final(self), result) == old(self).after_motion_plus(v@),
    {
        let (x, y): (i32, i32) = match self.config.motion_plus_bias {
            Some(c) => (c.x, c.y),
            None => (0, 0),
        };
        self.shift(AimSensor::MotionPlus, v[0] as i64 - x as i64, v[1] as i64 - y as i64)
    }

    /// Takes an IR report.
    pub fn process_ir(&mut self, point: Option<IrPosition>) -> (result: AimResult)
        requires
            old(self).well_formed(),
        ensures
            (*final(self), result) == old(self).after_ir(point),
    {
        match point {
            None => {
                self.baseline = None;
                AimResult { output: None }
            },
            Some(at) => {
                let (x, y): (i64, i64) = match self.config.ir_mapping {
                    IrAimMapping::Relative => match self.baseline {
                        Some(from) => (
                            at.x as i64 - from.x as i64,
                            at.y as i64 - from.y as i64,
                        ),
                        None => (0, 0),
                    },
                    IrAimMapping::Absolute => match self.config.ir_screen {
                        Some(screen) => (
                            displace(at.x, screen.left, screen.right),
                            displace(at.y, screen.top, screen.bottom),
                        ),
                        None => (displace(at.x, 0, 1023), displace(at.y, 0, 767)),
                    },
                };
                let result = self.shift(AimSensor::Ir, x, y);
                self.baseline = Some(at);
                result
            },
        }
    }

    /// Takes a change of a button.
    pub fn activation_key(&mut self, button: Button, held: bool) -> (result: AimResult)
        ensures
            (*final(self), result) == old(self).after_button(button, held),
    {
        let activates = match self.config.activation {
            AimActivation::B => button == Button::B,
            AimActivation::Z => button == Button::Z,
            AimActivation::C => button == Button::C,
            AimActivation::Always => false,
        };
        if !activates {
            return AimResult { output: None };
        }
        self.held = held;
        if held {
            AimResult { output: None }
        } else {
            self.baseline = None;
            self.previous = AimVector { x: 0, y: 0 };
            AimResult { output: Some(AimVector { x: 0, y: 0 }) }
        }
    }

    fn shift(&mut self, sensor: AimSensor, x: i64, y: i64) -> (result: AimResult)
        requires
            old(self).well_formed(),
            -0x10_0000_0000_0000 <= x <= 0x10_0000_0000_0000,
            -0x10_0000_0000_0000 <= y <= 0x10_0000_0000_0000,
        ensures
            (*final(self), result) == old(self).moved(sensor, (x as int, y as int)),
    {
        let preferred = match self.sensor {
            Some(known) => if rank(known) > rank(sensor) {
                known
            } else {
                sensor
            },
            None => sensor,
        };
        self.sensor = Some(preferred);
        let admitted = match self.config.source {
            AimSource::Auto => preferred == sensor,
            AimSource::Ir => sensor == AimSensor::Ir,
            AimSource::MotionPlus => sensor == AimSensor::MotionPlus,
            AimSource::Accelerometer => sensor == AimSensor::Accelerometer,
        };
        let active = self.config.output != AimMode::Off && (self.held || self.config.activation
            == AimActivation::Always);
        if !admitted || !active {
            return AimResult { output: None };
        }
        let v = AimVector {
            x: respond(&self.config, x, self.previous.x),
            y: respond(&self.config, y, self.previous.y),
        };
        self.previous = v;
        AimResult {
            output: Some(
                AimVector {
                    x: if self.config.invert_x {
                        -v.x
                    } else {
                        v.x
                    },
                    y: if self.config.invert_y {
                        -v.y
                    } else {
                        v.y
                    },
                },
            ),
        }
    }
}

fn rank(sensor: AimSensor) -> (r: u8)
    ensures
        r == sensor.rank(),
{
    match sensor {
        AimSensor::Accelerometer => 1,
        AimSensor::MotionPlus => 2,
        AimSensor::Ir => 3,
    }
}

fn displace(value: i32, low: i32, high: i32) -> (d: i64)
    requires
        0 <= low < high,
    ensures
        d == screen_displacement(value as int, low as int, high as int),
        -0x10_0000_0000_0000 <= d <= 0x10_0000_0000_0000,
{
    let from_low: i64 = value as i64 - low as i64;
    let q: i64 = divide(from_low * 65535, high as i64 - low as i64);
    q - 32768
}

fn respond(config: &AimConfig, displacement: i64, previous: i32) -> (r: i32)
    requires
        config.well_formed(),
        -0x10_0000_0000_0000 <= displacement <= 0x10_0000_0000_0000,
    ensures
        r == response(*config, displacement as int, previous),
        r > i32::MIN,
{
    let deadzone: i64 = config.deadzone as i64;
    let live: i64 = if -deadzone <= displacement && displacement <= deadzone {
        0
    } else {
        displacement
    };
    let gain: i64 = config.sensitivity as i64;
    assert(-0x10_0000_0000_0000 * 127 <= live * gain <= 0x10_0000_0000_0000 * 127)
        by (nonlinear_arith)
        requires
            -0x10_0000_0000_0000 <= live <= 0x10_0000_0000_0000,
            1 <= gain <= 127,
    ;
    let scaled: i64 = divide(live * gain, 16);
    assert(-0x8_0000_0000_0000 * 16 <= scaled <= 0x8_0000_0000_0000 * 16);
    let share: i64 = 100 - config.smoothing as i64;
    let smoothing: i64 = config.smoothing as i64;
    assert(-0x80_0000_0000_0000 * 100 <= scaled * share <= 0x80_0000_0000_0000 * 100)
        by (nonlinear_arith)
        requires
            -0x80_0000_0000_0000 <= scaled <= 0x80_0000_0000_0000,
            5 <= share <= 100,
    ;
    assert(-0x8000_0000 * 95 <= previous as i64 * smoothing <= 0x8000_0000 * 95)
        by (nonlinear_arith)
        requires
            -0x8000_0000 <= previous <= 0x7fff_ffff,
            0 <= smoothing <= 95,
    ;
    narrow(divide(scaled * share + previous as i64 * smoothing, 100))
}

/// Only the activation button changes aiming, and letting it go leaves nothing behind: the output
/// is centred and the next movement starts afresh.
pub proof fn releasing_the_activation_button_centres(state: AimState, button: Button)
    ensures
        state.config.activation_button() == Some(button) ==> state.after_button(button, false).1
            == (AimResult { output: Some(centre()) }) && state.after_button(
            button,
            false,
        ).0.previous == centre() && !state.after_button(button, false).0.active(),
        state.config.activation_button() != Some(button) ==> state.after_button(button, false)
            == (state, silent()),
{
}

/// Aiming that is off, or not activated, outputs nothing whatever is reported.
pub proof fn inactive_aiming_is_silent(
    state: AimState,
    v: Seq<i32>,
    point: Option<IrPosition>,
)
    requires
        !state.active(),
    ensures
        state.after_accelerometer(v).1 == silent(),
        state.after_motion_plus(v).1 == silent(),
        state.after_ir(point).1 == silent(),
{
}

} // verus!
