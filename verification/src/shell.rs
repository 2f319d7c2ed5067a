//! What the host shell around the picker computes: regions from what a
//! compositor reports about its outputs, and the line that announces a
//! selection.

use crate::geometry::Rectangle;
use crate::output_grid::OutputData;
use vstd::prelude::*;
use vstd::string::*;

verus! {

/// One video mode of an output.
#[derive(Clone, Copy, Debug, PartialEq, Eq, Structural)]
pub struct Mode {
    pub width: i32,
    pub height: i32,
    /// Refresh rate in millihertz.
    pub refresh_rate: i32,
    /// Whether the output is in this mode now.
    pub current: bool,
}

/// What a compositor reports about one output.
#[derive(Clone, Debug, PartialEq, Eq)]
pub struct OutputInfo {
    pub name: Option<String>,
    pub model: String,
    pub x: i32,
    pub y: i32,
    pub modes: Vec<Mode>,
}

/// The first mode at or after `start` that is marked current.
pub open spec fn first_current_from(modes: Seq<Mode>, start: int) -> Option<int>
    decreases modes.len() - start,
{
    if start < 0 || start >= modes.len() {
        None
    } else if modes[start].current {
        Some(start)
    } else {
        first_current_from(modes, start + 1)
    }
}

/// The mode an output is taken to be in: the first one marked current, or
/// the first one of all where none is marked.
pub open spec fn current_mode_spec(modes: Seq<Mode>) -> int {
    match first_current_from(modes, 0) {
        Some(i) => i,
        None => 0,
    }
}

/// A signed value read as the unsigned value with the same 32 bits.
pub open spec fn reinterpret_spec(v: i32) -> u32 {
    if v >= 0 {
        v as u32
    } else {
        (v + 0x1_0000_0000) as u32
    }
}

/// A rate in millihertz, with a negative rate read as zero.
pub open spec fn rate_spec(v: i32) -> u32 {
    if v >= 0 {
        v as u32
    } else {
        0
    }
}

/// The name an output is selected by: its own where it has one, else its
/// model.
pub open spec fn chosen_name(info: OutputInfo) -> Seq<char> {
    match info.name {
        Some(name) => name@,
        None => info.model@,
    }
}

/// The geometry of an output: its location and the size of its current mode.
pub open spec fn geometry_spec(info: OutputInfo) -> Rectangle {
    let mode = info.modes@[current_mode_spec(info.modes@)];
    Rectangle {
        x: reinterpret_spec(info.x),
        y: reinterpret_spec(info.y),
        width: reinterpret_spec(mode.width),
        height: reinterpret_spec(mode.height),
    }
}

pub fn reinterpret(v: i32) -> (out: u32)
    ensures
        out == reinterpret_spec(v),
{
    if v >= 0 {
        v as u32
    } else {
        ((v as i64) + 0x1_0000_0000) as u32
    }
}

/// Picks the mode an output is in.
pub fn current_mode(modes: &Vec<Mode>) -> (out: usize)
    requires
        modes@.len() > 0,
    ensures
        out == current_mode_spec(modes@),
        out < modes@.len(),
        forall|j: int| 0 <= j < out ==> !(#[trigger] modes@[j]).current,
        modes@[out as int].current || (out == 0 && forall|j: int|
            0 <= j < modes@.len() ==> !(#[trigger] modes@[j]).current),
{
    let mut i: usize = 0;
    while i < modes.len()
        invariant
            0 <= i <= modes@.len(),
            first_current_from(modes@, 0) == first_current_from(modes@, i as int),
            forall|j: int| 0 <= j < i ==> !(#[trigger] modes@[j]).current,
        decreases modes@.len() - i,
    {
        if modes[i].current {
            return i;
        }
        i += 1;
    }
    0
}

/// Builds the region of one output. The output must have reported at least
/// one mode. Gives `None` exactly when the far edges of the geometry are not
/// representable.
pub fn output_from_info(info: OutputInfo) -> (out: Option<OutputData>)
    requires
        info.modes@.len() > 0,
    ensures
        out is Some <==> geometry_spec(info).wf(),
        match out {
            Some(region) => {
                &&& region.name@ == chosen_name(info)
                &&& region.rec == geometry_spec(info)
                &&& region.refresh == rate_spec(
                    info.modes@[current_mode_spec(info.modes@)].refresh_rate,
                )
            },
            None => true,
        },
{
    let mode = info.modes[current_mode(&info.modes)];
    let rec = Rectangle {
        x: reinterpret(info.x),
        y: reinterpret(info.y),
        width: reinterpret(mode.width),
        height: reinterpret(mode.height),
    };
    if rec.width > u32::MAX - rec.x || rec.height > u32::MAX - rec.y {
        return None;
    }
    let refresh: u32 = if mode.refresh_rate >= 0 {
        mode.refresh_rate as u32
    } else {
        0
    };
    let name = match info.name {
        Some(name) => name,
        None => info.model,
    };
    Some(OutputData { name, rec, refresh })
}

/// The line that announces the selected output: `[select-output]/` and the
/// output's name.
pub fn selection_line(name: &str) -> (out: String)
    ensures
        out@ == "[select-output]/"@ + name@,
{
    let mut out = String::from_str("[select-output]/");
    out.append(name);
    out
}

} // verus!
