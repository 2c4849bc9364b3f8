//! Logical controller inputs shared by hardware adapters and the deterministic engine.
use vstd::prelude::*;

verus! {

/// A logical controller button.
#[derive(Clone, Copy, Debug, PartialEq, Eq, Structural, Hash)]
#[non_exhaustive]
pub enum Button {
    Left,
    Right,
    Up,
    Down,
    Plus,
    Minus,
    One,
    Two,
    A,
    B,
    Home,
    C,
    Z,
    X,
    Y,
    ShoulderLeft,
    ShoulderRight,
    TriggerLeft,
    TriggerRight,
    ThumbLeft,
    ThumbRight,
    StrumBarUp,
    StrumBarDown,
    FretFarUp,
    FretUp,
    FretMid,
    FretLow,
    FretFarLow,
}

/// How many logical buttons there are. Button codes are exactly the numbers below it.
pub const BUTTON_COUNT: u32 = 28;

impl Button {
    /// Every button, in the order of the button codes.
    pub const ALL: [Button; 28] = [
        Button::Left,
        Button::Right,
        Button::Up,
        Button::Down,
        Button::A,
        Button::B,
        Button::Plus,
        Button::Minus,
        Button::Home,
        Button::One,
        Button::Two,
        Button::X,
        Button::Y,
        Button::ShoulderLeft,
        Button::ShoulderRight,
        Button::TriggerLeft,
        Button::TriggerRight,
        Button::ThumbLeft,
        Button::ThumbRight,
        Button::C,
        Button::Z,
        Button::StrumBarUp,
        Button::StrumBarDown,
        Button::FretFarUp,
        Button::FretUp,
        Button::FretMid,
        Button::FretLow,
        Button::FretFarLow,
    ];

    /// The stable logical number of a button.
    pub open spec fn spec_code(self) -> u32 {
        match self {
            Button::Left => 0,
            Button::Right => 1,
            Button::Up => 2,
            Button::Down => 3,
            Button::A => 4,
            Button::B => 5,
            Button::Plus => 6,
            Button::Minus => 7,
            Button::Home => 8,
            Button::One => 9,
            Button::Two => 10,
            Button::X => 11,
            Button::Y => 12,
            Button::ShoulderLeft => 13,
            Button::ShoulderRight => 14,
            Button::TriggerLeft => 15,
            Button::TriggerRight => 16,
            Button::ThumbLeft => 17,
            Button::ThumbRight => 18,
            Button::C => 19,
            Button::Z => 20,
            Button::StrumBarUp => 21,
            Button::StrumBarDown => 22,
            Button::FretFarUp => 23,
            Button::FretUp => 24,
            Button::FretMid => 25,
            Button::FretLow => 26,
            Button::FretFarLow => 27,
        }
    }

    /// The button with a given number, if the number names one.
    pub open spec fn spec_from_code(code: u32) -> Option<Button> {
        if code < BUTTON_COUNT {
            Some(Button::ALL[code as int])
        } else {
            None
        }
    }

    /// The button with this logical number.
    pub fn from_code(code: u32) -> (button: Option<Button>)
        ensures
            button == Button::spec_from_code(code),
            button is Some <==> code < BUTTON_COUNT,
            button matches Some(b) ==> b.spec_code() == code,
    {
        if code < BUTTON_COUNT {
            let all = Button::ALL;
            let button = all[code as usize];
            proof {
                lemma_all_is_in_code_order(code);
            }
            Some(button)
        } else {
            None
        }
    }

    /// Stable logical button number used by mapping and diagnostic contracts.
    pub fn code(self) -> (code: u32)
        ensures
            code == self.spec_code(),
            code < BUTTON_COUNT,
    {
        match self {
            Button::Left => 0,
            Button::Right => 1,
            Button::Up => 2,
            Button::Down => 3,
            Button::Plus => 6,
            Button::Minus => 7,
            Button::One => 9,
            Button::Two => 10,
            Button::A => 4,
            Button::B => 5,
            Button::Home => 8,
            Button::C => 19,
            Button::Z => 20,
            Button::X => 11,
            Button::Y => 12,
            Button::ShoulderLeft => 13,
            Button::ShoulderRight => 14,
            Button::TriggerLeft => 15,
            Button::TriggerRight => 16,
            Button::ThumbLeft => 17,
            Button::ThumbRight => 18,
            Button::StrumBarUp => 21,
            Button::StrumBarDown => 22,
            Button::FretFarUp => 23,
            Button::FretUp => 24,
            Button::FretMid => 25,
            Button::FretLow => 26,
            Button::FretFarLow => 27,
        }
    }
}

proof fn lemma_all_is_in_code_order(code: u32)
    requires
        code < BUTTON_COUNT,
    ensures
        Button::ALL[code as int].spec_code() == code,
{
}

/// Button numbers identify buttons: decoding the number of a button gives that button back, every
/// number below the button count belongs to exactly one button, and no other number belongs to any.
pub proof fn button_codes_identify_buttons(button: Button, other: Button, code: u32)
    ensures
        Button::spec_from_code(button.spec_code()) == Some(button),
        button.spec_code() == other.spec_code() ==> button == other,
        Button::spec_from_code(code) matches Some(b) ==> b.spec_code() == code,
        Button::spec_from_code(code) is None <==> code >= BUTTON_COUNT,
{
    if code < BUTTON_COUNT {
        lemma_all_is_in_code_order(code);
    }
}

/// The state of a logical controller button.
#[derive(Clone, Copy, Debug, PartialEq, Eq, Structural, Hash)]
#[non_exhaustive]
pub enum ButtonState {
    Released,
    Pressed,
    Repeated,
}

impl ButtonState {
    /// The Linux input value of a state.
    pub open spec fn spec_value(self) -> u32 {
        match self {
            ButtonState::Released => 0,
            ButtonState::Pressed => 1,
            ButtonState::Repeated => 2,
        }
    }

    /// The state with a given Linux input value, if the value names one.
    pub open spec fn spec_from_value(value: u32) -> Option<ButtonState> {
        if value == 0 {
            Some(ButtonState::Released)
        } else if value == 1 {
            Some(ButtonState::Pressed)
        } else if value == 2 {
            Some(ButtonState::Repeated)
        } else {
            None
        }
    }

    /// Linux-compatible released, pressed, or repeated value.
    pub fn value(self) -> (value: u32)
        ensures
            value == self.spec_value(),
    {
        match self {
            ButtonState::Released => 0,
            ButtonState::Pressed => 1,
            ButtonState::Repeated => 2,
        }
    }

    /// The state that has this Linux input value.
    pub fn from_value(value: u32) -> (state: Option<ButtonState>)
        ensures
            state == ButtonState::spec_from_value(value),
            state matches Some(s) ==> s.spec_value() == value,
    {
        match value {
            0 => Some(ButtonState::Released),
            1 => Some(ButtonState::Pressed),
            2 => Some(ButtonState::Repeated),
            _ => None,
        }
    }
}

/// A decoded button transition.
#[derive(Clone, Copy, Debug, PartialEq, Eq, Structural, Hash)]
pub struct ButtonEvent {
    pub button: Button,
    pub state: ButtonState,
}

/// The independently removable interface that owns a button transition.
#[derive(Clone, Copy, Debug, PartialEq, Eq, Structural, Hash)]
pub enum InputSource {
    Core,
    Nunchuk,
    ClassicController,
    ProController,
    Drums,
    Guitar,
}

/// How many input sources there are.
pub const SOURCE_COUNT: usize = 6;

impl InputSource {
    /// Every source, in the order of the source indices.
    pub const ALL: [InputSource; 6] = [
        InputSource::Core,
        InputSource::Nunchuk,
        InputSource::ClassicController,
        InputSource::ProController,
        InputSource::Drums,
        InputSource::Guitar,
    ];

    /// The position of a source in [`InputSource::ALL`].
    pub open spec fn spec_index(self) -> int {
        match self {
            InputSource::Core => 0,
            InputSource::Nunchuk => 1,
            InputSource::ClassicController => 2,
            InputSource::ProController => 3,
            InputSource::Drums => 4,
            InputSource::Guitar => 5,
        }
    }

    /// The position of this source in [`InputSource::ALL`].
    pub fn index(self) -> (index: usize)
        ensures
            index == self.spec_index(),
            index < SOURCE_COUNT,
            InputSource::ALL[index as int] == self,
    {
        match self {
            InputSource::Core => 0,
            InputSource::Nunchuk => 1,
            InputSource::ClassicController => 2,
            InputSource::ProController => 3,
            InputSource::Drums => 4,
            InputSource::Guitar => 5,
        }
    }
}

} // verus!
