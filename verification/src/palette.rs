//! The colours of the window, light and dark.
use vstd::prelude::*;

verus! {

/// An opaque colour.
#[derive(Clone, Copy, Debug, PartialEq, Eq, Structural, Hash)]
pub struct Rgb {
    pub red: u8,
    pub green: u8,
    pub blue: u8,
}

/// The colours of one appearance.
#[derive(Clone, Copy, Debug, PartialEq, Eq, Structural, Hash)]
pub struct Palette {
    /// Behind everything.
    pub canvas: Rgb,
    /// Cards and panels.
    pub surface: Rgb,
    /// Insets, selections and badges.
    pub mist: Rgb,
    /// Text.
    pub ink: Rgb,
    /// Supporting text.
    pub muted: Rgb,
    /// Primary actions and focus.
    pub accent: Rgb,
    /// Text on a primary action.
    pub on_accent: Rgb,
    /// Fine boundaries.
    pub border: Rgb,
    /// Warnings.
    pub warning: Rgb,
    /// Errors.
    pub error: Rgb,
}

/// Dark: graphite-blue surfaces with sea-glass accents.
pub open spec fn dusk() -> Palette {
    Palette {
        canvas: Rgb { red: 23, green: 30, blue: 34 },
        surface: Rgb { red: 33, green: 43, blue: 48 },
        mist: Rgb { red: 48, green: 61, blue: 64 },
        ink: Rgb { red: 232, green: 238, blue: 234 },
        muted: Rgb { red: 170, green: 187, blue: 181 },
        accent: Rgb { red: 135, green: 207, blue: 185 },
        on_accent: Rgb { red: 18, green: 60, blue: 50 },
        border: Rgb { red: 72, green: 91, blue: 93 },
        warning: Rgb { red: 236, green: 195, blue: 141 },
        error: Rgb { red: 244, green: 163, blue: 154 },
    }
}

/// Light: a warm neutral canvas, evergreen text and teal actions.
pub open spec fn pearl() -> Palette {
    Palette {
        canvas: Rgb { red: 242, green: 241, blue: 234 },
        surface: Rgb { red: 253, green: 253, blue: 248 },
        mist: Rgb { red: 231, green: 236, blue: 230 },
        ink: Rgb { red: 32, green: 60, blue: 56 },
        muted: Rgb { red: 89, green: 105, blue: 96 },
        accent: Rgb { red: 23, green: 102, blue: 90 },
        on_accent: Rgb { red: 247, green: 252, blue: 248 },
        border: Rgb { red: 188, green: 201, blue: 192 },
        warning: Rgb { red: 133, green: 81, blue: 23 },
        error: Rgb { red: 166, green: 48, blue: 40 },
    }
}

impl Palette {
    /// The colours of the dark or of the light appearance.
    pub fn new(dark: bool) -> (palette: Palette)
        ensures
            palette == (if dark {
                dusk()
            } else {
                pearl()
            }),
    {
        if dark {
            Palette {
                canvas: Rgb { red: 23, green: 30, blue: 34 },
                surface: Rgb { red: 33, green: 43, blue: 48 },
                mist: Rgb { red: 48, green: 61, blue: 64 },
                ink: Rgb { red: 232, green: 238, blue: 234 },
                muted: Rgb { red: 170, green: 187, blue: 181 },
                accent: Rgb { red: 135, green: 207, blue: 185 },
                on_accent: Rgb { red: 18, green: 60, blue: 50 },
                border: Rgb { red: 72, green: 91, blue: 93 },
                warning: Rgb { red: 236, green: 195, blue: 141 },
                error: Rgb { red: 244, green: 163, blue: 154 },
            }
        } else {
            Palette {
                canvas: Rgb { red: 242, green: 241, blue: 234 },
                surface: Rgb { red: 253, green: 253, blue: 248 },
                mist: Rgb { red: 231, green: 236, blue: 230 },
                ink: Rgb { red: 32, green: 60, blue: 56 },
                muted: Rgb { red: 89, green: 105, blue: 96 },
                accent: Rgb { red: 23, green: 102, blue: 90 },
                on_accent: Rgb { red: 247, green: 252, blue: 248 },
                border: Rgb { red: 188, green: 201, blue: 192 },
                warning: Rgb { red: 133, green: 81, blue: 23 },
                error: Rgb { red: 166, green: 48, blue: 40 },
            }
        }
    }
}

} // verus!
