//! The colours of the picker.

use crate::output_grid::Paint;
use vstd::prelude::*;

pub mod container;
pub mod text;

verus! {

/// An opaque colour, eight bits per channel.
#[derive(Clone, Copy, Debug, PartialEq, Eq, Structural)]
pub struct Color {
    pub r: u8,
    pub g: u8,
    pub b: u8,
}

/// The UI theme.
#[derive(Clone, Copy, Debug, PartialEq, Eq, Structural)]
pub struct Theme {
    /// The background for the UI.
    pub background: Palette,
    /// The main text color for the UI.
    pub text: Palette,
    /// The accent color for important text.
    pub accent: Color,
    /// Text color for error messages.
    pub error: Color,
    /// The color for separators of UI elements, or enclosures.
    pub separator: Color,
    /// Text color for warning messages.
    pub warning: Color,
    /// Text color for info messages.
    pub info: Color,
    /// The eight standard terminal ansi colors.
    pub ansi: Ansi,
    /// The eight bright terminal ansi colors.
    pub ansi_bright: Ansi,
}

/// A single palette for a UI.
#[derive(Clone, Copy, Debug, PartialEq, Eq, Structural)]
pub struct Palette {
    /// The primary, or main color, used for large areas.
    pub primary: Color,
    /// The secondary color, for less important UI elements.
    pub secondary: Color,
    /// The tertiary color, for miscellaneous UI elements that should not
    /// distract from the rest of the UI.
    pub tertiary: Color,
}

/// The eight terminal ansi colors.
#[derive(Clone, Copy, Debug, PartialEq, Eq, Structural)]
pub struct Ansi {
    pub red: Color,
    pub green: Color,
    pub yellow: Color,
    pub blue: Color,
    pub magenta: Color,
    pub cyan: Color,
    pub white: Color,
    pub black: Color,
}

/// The colours of text and background that a window starts with.
#[derive(Clone, Copy, Debug, PartialEq, Eq, Structural)]
pub struct Appearance {
    pub text_color: Color,
    pub background_color: Color,
}

/// The colour written `0xRRGGBB`.
pub open spec fn rgb(hex: u32) -> Color {
    Color { r: ((hex / 0x10000) % 0x100) as u8, g: ((hex / 0x100) % 0x100) as u8, b: (hex % 0x100) as u8 }
}

/// The colour written `0xRRGGBB`; bits above the red channel are ignored.
pub fn color(hex: u32) -> (out: Color)
    ensures
        out == rgb(hex),
{
    Color { r: ((hex / 0x10000) % 0x100) as u8, g: ((hex / 0x100) % 0x100) as u8, b: (hex % 0x100) as u8 }
}

impl Theme {
    pub open spec fn default_spec() -> Theme {
        Theme {
            background: Palette {
                primary: rgb(0x101115),
                secondary: rgb(0x0e0f13),
                tertiary: rgb(0x131419),
            },
            text: Palette {
                primary: rgb(0xc4c4c4),
                secondary: rgb(0xc4c6d0),
                tertiary: rgb(0x53536a),
            },
            accent: rgb(0x6791c9),
            error: rgb(0xdf5b61),
            warning: rgb(0xde8f78),
            info: rgb(0x87c7a1),
            separator: rgb(0x222230),
            ansi: Ansi {
                black: rgb(0x14161f),
                red: rgb(0xdf5b61),
                green: rgb(0x87c7a1),
                yellow: rgb(0xde8f78),
                blue: rgb(0x6791c9),
                magenta: rgb(0xbc83e3),
                cyan: rgb(0x70b9cc),
                white: rgb(0xc4c4c4),
            },
            ansi_bright: Ansi {
                black: rgb(0x161922),
                red: rgb(0xee6a70),
                green: rgb(0x96d6b0),
                yellow: rgb(0xffb29b),
                blue: rgb(0x7ba5dd),
                magenta: rgb(0xcb92f2),
                cyan: rgb(0x7fc8db),
                white: rgb(0xcccccc),
            },
        }
    }

    /// The colour a draw command's paint stands for.
    pub open spec fn resolve_spec(self, paint: Paint) -> Color {
        match paint {
            Paint::BackgroundTertiary => self.background.tertiary,
            Paint::Accent => self.accent,
            Paint::TextTertiary => self.text.tertiary,
        }
    }

    /// The colour a draw command's paint stands for.
    pub fn resolve(&self, paint: Paint) -> (out: Color)
        ensures
            out == self.resolve_spec(paint),
    {
        match paint {
            Paint::BackgroundTertiary => self.background.tertiary,
            Paint::Accent => self.accent,
            Paint::TextTertiary => self.text.tertiary,
        }
    }

    /// A window starts with the primary text colour on the primary background.
    pub fn default_style(&self) -> (out: Appearance)
        ensures
            out.text_color == self.text.primary,
            out.background_color == self.background.primary,
    {
        Appearance { text_color: self.text.primary, background_color: self.background.primary }
    }
}

impl Default for Theme {
    fn default() -> (out: Theme)
        ensures
            out == Theme::default_spec(),
    {
        Theme {
            background: Palette {
                primary: color(0x101115),
                secondary: color(0x0e0f13),
                tertiary: color(0x131419),
            },
            text: Palette {
                primary: color(0xc4c4c4),
                secondary: color(0xc4c6d0),
                tertiary: color(0x53536a),
            },
            accent: color(0x6791c9),
            error: color(0xdf5b61),
            warning: color(0xde8f78),
            info: color(0x87c7a1),
            separator: color(0x222230),
            ansi: Ansi {
                black: color(0x14161f),
                red: color(0xdf5b61),
                green: color(0x87c7a1),
                yellow: color(0xde8f78),
                blue: color(0x6791c9),
                magenta: color(0xbc83e3),
                cyan: color(0x70b9cc),
                white: color(0xc4c4c4),
            },
            ansi_bright: Ansi {
                black: color(0x161922),
                red: color(0xee6a70),
                green: color(0x96d6b0),
                yellow: color(0xffb29b),
                blue: color(0x7ba5dd),
                magenta: color(0xcb92f2),
                cyan: color(0x7fc8db),
                white: color(0xcccccc),
            },
        }
    }
}

} // verus!
