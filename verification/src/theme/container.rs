//! Container styles.

use crate::theme::{Color, Theme};
use vstd::prelude::*;

verus! {

/// Width, in pixels, of the border of a bordered container.
pub const BORDER_WIDTH: u32 = 2;

/// A container's background: a colour, or nothing at all.
#[derive(Clone, Copy, Debug, PartialEq, Eq, Structural)]
pub enum Background {
    Transparent,
    Solid(Color),
}

/// A border of `width` pixels.
#[derive(Clone, Copy, Debug, PartialEq, Eq, Structural)]
pub struct Border {
    pub color: Color,
    pub width: u32,
}

/// The appearance of a container.
#[derive(Clone, Copy, Debug, PartialEq, Eq, Structural)]
pub struct Style {
    pub background: Background,
    pub border: Option<Border>,
}

/// The style of a container that asks for none: the secondary background.
pub fn default(theme: &Theme) -> (out: Style)
    ensures
        out == (Style { background: Background::Solid(theme.background.secondary), border: None }),
{
    secondary(theme)
}

/// Create a new container with the primary background color.
pub fn primary(theme: &Theme) -> (out: Style)
    ensures
        out == (Style { background: Background::Solid(theme.background.primary), border: None }),
{
    Style { background: Background::Solid(theme.background.primary), border: None }
}

/// Create a new container with the secondary background color.
pub fn secondary(theme: &Theme) -> (out: Style)
    ensures
        out == (Style { background: Background::Solid(theme.background.secondary), border: None }),
{
    Style { background: Background::Solid(theme.background.secondary), border: None }
}

/// Create a new container with the tertiary background color.
pub fn tertiary(theme: &Theme) -> (out: Style)
    ensures
        out == (Style { background: Background::Solid(theme.background.tertiary), border: None }),
{
    Style { background: Background::Solid(theme.background.tertiary), border: None }
}

/// Create a new container with a transparent background and a border.
pub fn bordered(theme: &Theme) -> (out: Style)
    ensures
        out == (Style {
            background: Background::Transparent,
            border: Some(Border { color: theme.separator, width: BORDER_WIDTH }),
        }),
{
    Style {
        background: Background::Transparent,
        border: Some(Border { color: theme.separator, width: BORDER_WIDTH }),
    }
}

} // verus!
