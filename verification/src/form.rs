//! The fields of the form: which values they offer, and what switching a part on or off does.
use crate::config::{
    AimMode, Config, ConfigView, DesktopAction, DesktopBindings, IrScreen, SensorCalibration,
    Setting,
};
use crate::model;
use crate::model::ConfigModel;
use vstd::prelude::*;

verus! {

/// The values that a field offers.
#[derive(Clone, Copy, Debug, PartialEq, Eq, Structural)]
pub struct Range {
    pub min: i32,
    pub max: i32,
}

impl Range {
    /// Whether a field offers a value.
    pub open spec fn has(self, value: i32) -> bool {
        self.min <= value <= self.max
    }
}

/// A field for one number.
#[derive(Clone, Copy, Debug, PartialEq, Eq, Structural)]
pub enum NumberField {
    PointerSpeed,
    IrSpeed,
    IrDeadzone,
    IrSmoothing,
    AimSensitivity,
    AimDeadzone,
    AimSmoothing,
    AimCalibrationDuration,
}

impl NumberField {
    /// The setting of a field.
    pub open spec fn setting(self) -> Setting {
        match self {
            NumberField::PointerSpeed => Setting::PointerSpeed,
            NumberField::IrSpeed => Setting::IrSpeed,
            NumberField::IrDeadzone => Setting::IrDeadzone,
            NumberField::IrSmoothing => Setting::IrSmoothing,
            NumberField::AimSensitivity => Setting::AimSensitivity,
            NumberField::AimDeadzone => Setting::AimDeadzone,
            NumberField::AimSmoothing => Setting::AimSmoothing,
            NumberField::AimCalibrationDuration => Setting::AimCalibrationDuration,
        }
    }

    /// The value of a field.
    pub open spec fn value(self, config: ConfigView) -> i32 {
        match self {
            NumberField::PointerSpeed => config.pointer_speed,
            NumberField::IrSpeed => config.ir_speed,
            NumberField::IrDeadzone => config.ir_deadzone,
            NumberField::IrSmoothing => config.ir_smoothing,
            NumberField::AimSensitivity => config.aim_sensitivity,
            NumberField::AimDeadzone => config.aim_deadzone,
            NumberField::AimSmoothing => config.aim_smoothing,
            NumberField::AimCalibrationDuration => config.aim_calibration_duration,
        }
    }

    /// The values that a field offers.
    pub open spec fn offered(self) -> Range {
        match self {
            NumberField::PointerSpeed | NumberField::IrSpeed | NumberField::AimSensitivity => Range {
                min: 1,
                max: 127,
            },
            NumberField::IrDeadzone => Range { min: 0, max: 127 },
            NumberField::IrSmoothing | NumberField::AimSmoothing => Range { min: 0, max: 95 },
            NumberField::AimDeadzone => Range { min: 0, max: 32767 },
            NumberField::AimCalibrationDuration => Range { min: 1, max: 30 },
        }
    }

    /// The values that the field offers.
    pub fn range(self) -> (range: Range)
        ensures
            range == self.offered(),
    {
        match self {
            NumberField::PointerSpeed | NumberField::IrSpeed | NumberField::AimSensitivity => Range {
                min: 1,
                max: 127,
            },
            NumberField::IrDeadzone => Range { min: 0, max: 127 },
            NumberField::IrSmoothing | NumberField::AimSmoothing => Range { min: 0, max: 95 },
            NumberField::AimDeadzone => Range { min: 0, max: 32767 },
            NumberField::AimCalibrationDuration => Range { min: 1, max: 30 },
        }
    }
}

/// The values that a side of the screen offers.
pub open spec fn screen_offered() -> Range {
    Range { min: 0, max: 32767 }
}

/// The values that a side of the screen offers.
pub fn screen_range() -> (range: Range)
    ensures
        range == screen_offered(),
{
    Range { min: 0, max: 32767 }
}

/// The values that an axis of a rest position offers.
pub open spec fn calibration_offered() -> Range {
    Range { min: -32768i32, max: 32767 }
}

/// The values that an axis of a rest position offers.
pub fn calibration_range() -> (range: Range)
    ensures
        range == calibration_offered(),
{
    Range { min: -32768, max: 32767 }
}

/// Whether the sides of the screen are in the wrong order.
pub fn screen_is_reversed(screen: &IrScreen) -> (r: bool)
    ensures
        r == (screen.right <= screen.left || screen.bottom <= screen.top),
{
    screen.right <= screen.left || screen.bottom <= screen.top
}

/// Switches the screen calibration on, with the whole sensor, or off.
pub fn set_screen(config: &mut Config, enabled: bool)
    ensures
        *final(config) == (Config {
            ir_screen: if enabled {
                Some(IrScreen { left: 0, right: 1023, top: 0, bottom: 767 })
            } else {
                None
            },
            ..*old(config)
        }),
{
    config.ir_screen = if enabled {
        Some(model::ir_rect_default())
    } else {
        None
    };
}

/// Switches the accelerometer calibration on, with no offset, or off.
pub fn set_accel(config: &mut Config, enabled: bool)
    ensures
        *final(config) == (Config {
            aim_accel_zero: if enabled {
                Some(SensorCalibration { x: 0, y: 0, z: 0 })
            } else {
                None
            },
            ..*old(config)
        }),
{
    config.aim_accel_zero = if enabled {
        Some(model::calibration_default())
    } else {
        None
    };
}

/// Switches the MotionPlus calibration on, with no offset, or off.
pub fn set_motion(config: &mut Config, enabled: bool)
    ensures
        *final(config) == (Config {
            aim_motion_plus_bias: if enabled {
                Some(SensorCalibration { x: 0, y: 0, z: 0 })
            } else {
                None
            },
            ..*old(config)
        }),
{
    config.aim_motion_plus_bias = if enabled {
        Some(model::calibration_default())
    } else {
        None
    };
}

/// The buttons that can be bound.
#[derive(Clone, Copy, Debug, PartialEq, Eq, Structural, Hash)]
pub enum BoundButton {
    A,
    B,
    Plus,
    Minus,
    Home,
    One,
    Two,
}

impl BoundButton {
    /// The action of a button.
    pub open spec fn action(self, bindings: DesktopBindings) -> DesktopAction {
        match self {
            BoundButton::A => bindings.a,
            BoundButton::B => bindings.b,
            BoundButton::Plus => bindings.plus,
            BoundButton::Minus => bindings.minus,
            BoundButton::Home => bindings.home,
            BoundButton::One => bindings.one,
            BoundButton::Two => bindings.two,
        }
    }

    /// The action of the button.
    pub fn bound(self, bindings: &DesktopBindings) -> (action: DesktopAction)
        ensures
            action == self.action(*bindings),
    {
        match self {
            BoundButton::A => bindings.a,
            BoundButton::B => bindings.b,
            BoundButton::Plus => bindings.plus,
            BoundButton::Minus => bindings.minus,
            BoundButton::Home => bindings.home,
            BoundButton::One => bindings.one,
            BoundButton::Two => bindings.two,
        }
    }

    /// Binds the button to an action, and leaves the others as they are.
    pub fn bind(self, bindings: &mut DesktopBindings, action: DesktopAction)
        ensures
            forall|button: BoundButton| #[trigger]
                button.action(*final(bindings)) == (if button == self {
                    action
                } else {
                    button.action(*old(bindings))
                }),
            *final(bindings) == (match self {
                BoundButton::A => DesktopBindings { a: action, ..*old(bindings) },
                BoundButton::B => DesktopBindings { b: action, ..*old(bindings) },
                BoundButton::Plus => DesktopBindings { plus: action, ..*old(bindings) },
                BoundButton::Minus => DesktopBindings { minus: action, ..*old(bindings) },
                BoundButton::Home => DesktopBindings { home: action, ..*old(bindings) },
                BoundButton::One => DesktopBindings { one: action, ..*old(bindings) },
                BoundButton::Two => DesktopBindings { two: action, ..*old(bindings) },
            }),
    {
        match self {
            BoundButton::A => bindings.a = action,
            BoundButton::B => bindings.b = action,
            BoundButton::Plus => bindings.plus = action,
            BoundButton::Minus => bindings.minus = action,
            BoundButton::Home => bindings.home = action,
            BoundButton::One => bindings.one = action,
            BoundButton::Two => bindings.two = action,
        }
    }
}

/// Notes whether a frame changed the form.
pub fn note_change(model: &mut ConfigModel, changed: bool)
    ensures
        if changed {
            *final(model) == (ConfigModel {
                dirty: true,
                revision: old(model).revision.wrapping_add(1),
                ..*old(model)
            })
        } else {
            *final(model) == *old(model)
        },
{
    if changed {
        model.mark_dirty();
    }
}

/// What the motion page says of the output that is chosen.
pub open spec fn aim_text(mode: AimMode) -> Seq<char> {
    match mode {
        AimMode::Off =>
            "Motion is off. Your response and calibration settings are kept for next time."@,
        AimMode::RightStick =>
            "Motion drives the gamepad right stick, even with the Desktop profile."@,
        AimMode::Mouse => "Motion drives the mouse pointer, even with the Gamepad profile."@,
    }
}

/// What the motion page says of the output that is chosen.
pub fn aim_note(mode: AimMode) -> (note: &'static str)
    ensures
        note@ == aim_text(mode),
{
    match mode {
        AimMode::Off =>
            "Motion is off. Your response and calibration settings are kept for next time.",
        AimMode::RightStick =>
            "Motion drives the gamepad right stick, even with the Desktop profile.",
        AimMode::Mouse => "Motion drives the mouse pointer, even with the Gamepad profile.",
    }
}

/// A field offers exactly the values that can be saved.
pub proof fn fields_offer_the_valid_values(field: NumberField, config: ConfigView)
    ensures
        field.offered().has(field.value(config)) <==> config.setting_valid(field.setting()),
{
}

/// The sides and axes that are offered can be saved, where the sides are in order.
pub proof fn offered_triples_are_valid(screen: IrScreen, calibration: SensorCalibration)
    ensures
        screen_offered().has(screen.left) && screen_offered().has(screen.right)
            && screen_offered().has(screen.top) && screen_offered().has(screen.bottom)
            && screen.left < screen.right && screen.top < screen.bottom
            ==> crate::config::screen_valid(Some(screen)),
        crate::config::calibration_valid(Some(calibration)) <==> calibration_offered().has(
            calibration.x,
        ) && calibration_offered().has(calibration.y) && calibration_offered().has(calibration.z),
{
}

} // verus!
