//! Text styles.

use crate::theme::{Color, Theme};
use vstd::prelude::*;

verus! {

/// The appearance of a text: its colour, or `None` for the window's own.
#[derive(Clone, Copy, Debug, PartialEq, Eq, Structural)]
pub struct Style {
    pub color: Option<Color>,
}

/// The style of a text that asks for none: the primary text colour.
pub fn default(theme: &Theme) -> (out: Style)
    ensures
        out.color == Some(theme.text.primary),
{
    primary(theme)
}

/// Create a new text field with the accent text color.
pub fn accent(theme: &Theme) -> (out: Style)
    ensures
        out.color == Some(theme.accent),
{
    Style { color: Some(theme.accent) }
}

/// Create a new text field with the primary text color.
pub fn primary(theme: &Theme) -> (out: Style)
    ensures
        out.color == Some(theme.text.primary),
{
    Style { color: Some(theme.text.primary) }
}

/// Create a new text field with the secondary text color.
pub fn secondary(theme: &Theme) -> (out: Style)
    ensures
        out.color == Some(theme.text.secondary),
{
    Style { color: Some(theme.text.secondary) }
}

/// Create a new text field with the tertiary text color.
pub fn tertiary(theme: &Theme) -> (out: Style)
    ensures
        out.color == Some(theme.text.tertiary),
{
    Style { color: Some(theme.text.tertiary) }
}

} // verus!
