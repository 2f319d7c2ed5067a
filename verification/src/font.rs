//! The fonts of the picker.

use vstd::prelude::*;

verus! {

/// The emphasis a label is drawn with.
#[derive(Clone, Copy, Debug, PartialEq, Eq, Structural)]
pub enum Weight {
    Regular,
    Bold,
}

/// A font: a family by name, and a weight.
#[derive(Clone, Copy, Debug)]
pub struct Font {
    pub family: &'static str,
    pub weight: Weight,
}

/// The regular face of the picker's font.
pub fn mono() -> (out: Font)
    ensures
        out.family@ == "Fht Mono"@,
        out.weight == Weight::Regular,
{
    Font { family: "Fht Mono", weight: Weight::Regular }
}

/// The bold face of the picker's font.
pub fn mono_bold() -> (out: Font)
    ensures
        out.family@ == "Fht Mono"@,
        out.weight == Weight::Bold,
{
    Font { family: "Fht Mono", weight: Weight::Bold }
}

/// The face a label of the given weight is drawn in.
pub fn face(weight: Weight) -> (out: Font)
    ensures
        out.family@ == "Fht Mono"@,
        out.weight == weight,
{
    Font { family: "Fht Mono", weight }
}

/// Orders the embedded font files for registration with a toolkit: the regular
/// face first, the bold face second, each unchanged.
pub fn load(regular: Vec<u8>, bold: Vec<u8>) -> (fonts: Vec<Vec<u8>>)
    ensures
        fonts@.len() == 2,
        fonts@[0] == regular,
        fonts@[1] == bold,
{
    let mut fonts: Vec<Vec<u8>> = Vec::new();
    fonts.push(regular);
    fonts.push(bold);
    fonts
}

} // verus!
