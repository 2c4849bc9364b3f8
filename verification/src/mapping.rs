//! The Linux input codes of controller reports.
use crate::input::Button;
use vstd::prelude::*;

verus! {

pub const ABS_X: u16 = 0;

pub const ABS_Y: u16 = 1;

pub const ABS_Z: u16 = 2;

pub const ABS_RX: u16 = 3;

pub const ABS_RY: u16 = 4;

pub const ABS_RZ: u16 = 5;

pub const ABS_HAT0X: u16 = 0x10;

pub const ABS_HAT0Y: u16 = 0x11;

pub const ABS_HAT1X: u16 = 0x12;

pub const ABS_HAT1Y: u16 = 0x13;

pub const ABS_HAT2X: u16 = 0x14;

pub const ABS_HAT2Y: u16 = 0x15;

pub const ABS_HAT3X: u16 = 0x16;

pub const ABS_HAT3Y: u16 = 0x17;

/// One three-axis report.
#[derive(Clone, Copy, Debug, PartialEq, Eq, Structural, Hash)]
pub struct Abs3 {
    pub x: i32,
    pub y: i32,
    pub z: i32,
}

/// Which interface a motion report comes from.
#[derive(Clone, Copy, Debug, PartialEq, Eq, Structural, Hash)]
pub enum MotionKind {
    Accel,
    MotionPlus,
    Nunchuk,
    Classic,
    Pro,
    Guitar,
    Drums,
    Balance,
}

/// A value on one axis of the virtual gamepad.
#[derive(Clone, Copy, Debug, PartialEq, Eq, Structural, Hash)]
pub struct MappedAxis {
    pub code: u16,
    pub value: i32,
}

/// The gamepad key of a button.
pub open spec fn button_key(button: Button) -> u16 {
    match button {
        Button::A => 0x130,
        Button::B => 0x131,
        Button::C => 0x132,
        Button::X => 0x133,
        Button::Y => 0x134,
        Button::Z => 0x135,
        Button::ShoulderLeft => 0x136,
        Button::ShoulderRight => 0x137,
        Button::TriggerLeft => 0x138,
        Button::TriggerRight => 0x139,
        Button::Minus => 0x13a,
        Button::Plus => 0x13b,
        Button::Home => 0x13c,
        Button::ThumbLeft => 0x13d,
        Button::ThumbRight => 0x13e,
        Button::One => 0x101,
        Button::Two => 0x102,
        Button::Up => 0x220,
        Button::Down => 0x221,
        Button::Left => 0x222,
        Button::Right => 0x223,
        Button::StrumBarUp => 0x2c0,
        Button::StrumBarDown => 0x2c1,
        Button::FretFarUp => 0x2c2,
        Button::FretUp => 0x2c3,
        Button::FretMid => 0x2c4,
        Button::FretLow => 0x2c5,
        Button::FretFarLow => 0x2c6,
    }
}

/// The gamepad key of a button.
pub fn map_button(button: Button) -> (key: u16)
    ensures
        key == button_key(button),
{
    match button {
        Button::A => 0x130,
        Button::B => 0x131,
        Button::C => 0x132,
        Button::X => 0x133,
        Button::Y => 0x134,
        Button::Z => 0x135,
        Button::ShoulderLeft => 0x136,
        Button::ShoulderRight => 0x137,
        Button::TriggerLeft => 0x138,
        Button::TriggerRight => 0x139,
        Button::Minus => 0x13a,
        Button::Plus => 0x13b,
        Button::Home => 0x13c,
        Button::ThumbLeft => 0x13d,
        Button::ThumbRight => 0x13e,
        Button::One => 0x101,
        Button::Two => 0x102,
        Button::Up => 0x220,
        Button::Down => 0x221,
        Button::Left => 0x222,
        Button::Right => 0x223,
        Button::StrumBarUp => 0x2c0,
        Button::StrumBarDown => 0x2c1,
        Button::FretFarUp => 0x2c2,
        Button::FretUp => 0x2c3,
        Button::FretMid => 0x2c4,
        Button::FretLow => 0x2c5,
        Button::FretFarLow => 0x2c6,
    }
}

/// An axis value in short.
pub open spec fn axis(code: u16, value: i32) -> MappedAxis {
    MappedAxis { code, value }
}

/// The gamepad axes that a motion report sets, in order.
pub open spec fn motion_axes(kind: MotionKind, axes: Seq<Abs3>) -> Seq<MappedAxis> {
    match kind {
        MotionKind::Accel => seq![
            axis(ABS_HAT2X, axes[0].x),
            axis(ABS_HAT2Y, axes[0].y),
            axis(ABS_Z, axes[0].z),
        ],
        MotionKind::MotionPlus => seq![
            axis(ABS_HAT3X, axes[0].x),
            axis(ABS_HAT3Y, axes[0].y),
            axis(ABS_RZ, axes[0].z),
        ],
        MotionKind::Nunchuk => seq![axis(ABS_X, axes[0].x), axis(ABS_Y, axes[0].y)],
        MotionKind::Classic => seq![
            axis(ABS_X, axes[0].x),
            axis(ABS_Y, axes[0].y),
            axis(ABS_RX, axes[1].x),
            axis(ABS_RY, axes[1].y),
            axis(ABS_Z, axes[2].x),
            axis(ABS_RZ, axes[2].y),
        ],
        MotionKind::Pro => seq![
            axis(ABS_X, axes[0].x),
            axis(ABS_Y, axes[0].y),
            axis(ABS_RX, axes[1].x),
            axis(ABS_RY, axes[1].y),
        ],
        MotionKind::Guitar => seq![
            axis(ABS_X, axes[0].x),
            axis(ABS_Y, axes[0].y),
            axis(ABS_HAT0X, axes[1].x),
            axis(ABS_HAT0Y, axes[2].x),
        ],
        MotionKind::Drums => seq![
            axis(ABS_X, axes[0].x),
            axis(ABS_Y, axes[0].y),
            axis(ABS_HAT0X, axes[1].x),
            axis(ABS_HAT0Y, axes[2].x),
            axis(ABS_HAT1X, axes[3].x),
            axis(ABS_HAT1Y, axes[4].x),
            axis(ABS_HAT2X, axes[5].x),
            axis(ABS_HAT2Y, axes[6].x),
        ],
        MotionKind::Balance => seq![
            axis(ABS_HAT0X, axes[0].x),
            axis(ABS_HAT0Y, axes[1].x),
            axis(ABS_HAT1X, axes[2].x),
            axis(ABS_HAT1Y, axes[3].x),
        ],
    }
}

fn push_axis(mapped: &mut Vec<MappedAxis>, code: u16, value: i32)
    ensures
        final(mapped)@ == old(mapped)@.push(axis(code, value)),
{
    mapped.push(MappedAxis { code, value });
}

/// The gamepad axes that a motion report sets, in order.
pub fn map_motion(kind: MotionKind, axes: [Abs3; 8]) -> (mapped: Vec<MappedAxis>)
    ensures
        mapped@ == motion_axes(kind, axes@),
{
    let mut mapped: Vec<MappedAxis> = Vec::new();
    match kind {
        MotionKind::Accel => {
            push_axis(&mut mapped, ABS_HAT2X, axes[0].x);
            push_axis(&mut mapped, ABS_HAT2Y, axes[0].y);
            push_axis(&mut mapped, ABS_Z, axes[0].z);
        },
        MotionKind::MotionPlus => {
            push_axis(&mut mapped, ABS_HAT3X, axes[0].x);
            push_axis(&mut mapped, ABS_HAT3Y, axes[0].y);
            push_axis(&mut mapped, ABS_RZ, axes[0].z);
        },
        MotionKind::Nunchuk => {
            push_axis(&mut mapped, ABS_X, axes[0].x);
            push_axis(&mut mapped, ABS_Y, axes[0].y);
        },
        MotionKind::Classic => {
            push_axis(&mut mapped, ABS_X, axes[0].x);
            push_axis(&mut mapped, ABS_Y, axes[0].y);
            push_axis(&mut mapped, ABS_RX, axes[1].x);
            push_axis(&mut mapped, ABS_RY, axes[1].y);
            push_axis(&mut mapped, ABS_Z, axes[2].x);
            push_axis(&mut mapped, ABS_RZ, axes[2].y);
        },
        MotionKind::Pro => {
            push_axis(&mut mapped, ABS_X, axes[0].x);
            push_axis(&mut mapped, ABS_Y, axes[0].y);
            push_axis(&mut mapped, ABS_RX, axes[1].x);
            push_axis(&mut mapped, ABS_RY, axes[1].y);
        },
        MotionKind::Guitar => {
            push_axis(&mut mapped, ABS_X, axes[0].x);
            push_axis(&mut mapped, ABS_Y, axes[0].y);
            push_axis(&mut mapped, ABS_HAT0X, axes[1].x);
            push_axis(&mut mapped, ABS_HAT0Y, axes[2].x);
        },
        MotionKind::Drums => {
            push_axis(&mut mapped, ABS_X, axes[0].x);
            push_axis(&mut mapped, ABS_Y, axes[0].y);
            push_axis(&mut mapped, ABS_HAT0X, axes[1].x);
            push_axis(&mut mapped, ABS_HAT0Y, axes[2].x);
            push_axis(&mut mapped, ABS_HAT1X, axes[3].x);
            push_axis(&mut mapped, ABS_HAT1Y, axes[4].x);
            push_axis(&mut mapped, ABS_HAT2X, axes[5].x);
            push_axis(&mut mapped, ABS_HAT2Y, axes[6].x);
        },
        MotionKind::Balance => {
            push_axis(&mut mapped, ABS_HAT0X, axes[0].x);
            push_axis(&mut mapped, ABS_HAT0Y, axes[1].x);
            push_axis(&mut mapped, ABS_HAT1X, axes[2].x);
            push_axis(&mut mapped, ABS_HAT1Y, axes[3].x);
        },
    }
    assert(mapped@ =~= motion_axes(kind, axes@));
    mapped
}

/// No two buttons share a gamepad key.
pub proof fn gamepad_keys_are_distinct(a: Button, b: Button)
    ensures
        button_key(a) == button_key(b) ==> a == b,
{
}

} // verus!
