//! The picker session: hit-testing and drawing of the regions.

use crate::font::Weight;
use crate::geometry::{Point, Rectangle};
use crate::label::{status_line, status_spec};
use crate::layout::{
    clickable_region, clickable_spec, compute_layout, layout_spec, LayoutResult, ScreenPoint,
    ScreenRect,
};
use vstd::prelude::*;

verus! {

/// Width of the outline strokes, in pixels.
pub const STROKE_WIDTH: u32 = 2;

/// Height of a text line, in pixels.
pub const TEXT_SIZE: u32 = 14;

/// Distance, in pixels, between a region's centre and the anchor of each of
/// its two labels: half a text line and a gap of one.
pub const LABEL_OFFSET: u32 = 8;

/// One selectable display output.
#[derive(Debug, Clone, PartialEq, Eq)]
pub struct OutputData {
    /// The name the output is selected by.
    pub name: String,
    /// Absolute geometry in physical pixels.
    pub rec: Rectangle,
    /// Refresh rate in millihertz.
    pub refresh: u32,
}

#[derive(Clone, Copy, Debug, PartialEq, Eq, Structural)]
pub enum PointerEventKind {
    Move,
    /// The primary button was pressed.
    ButtonDown,
    ButtonUp,
}

/// A pointer event. The position is `None` when the pointer is outside the
/// viewport.
#[derive(Clone, Copy, Debug, PartialEq, Eq)]
pub struct PointerEvent {
    pub kind: PointerEventKind,
    pub position: Option<Point>,
}

/// The theme colour a command is drawn with.
#[derive(Clone, Copy, Debug, PartialEq, Eq, Structural)]
pub enum Paint {
    BackgroundTertiary,
    Accent,
    TextTertiary,
}

/// An instruction for a 2D drawing surface.
#[derive(Debug, Clone, PartialEq, Eq)]
pub enum DrawCommand {
    FillRectangle { rect: ScreenRect, paint: Paint },
    /// A straight stroke of `STROKE_WIDTH`, square-capped.
    Segment { from: ScreenPoint, to: ScreenPoint, paint: Paint },
    /// Text centred on `position`, horizontally and vertically.
    Label { content: String, position: ScreenPoint, weight: Weight, paint: Paint },
}

/// What a draw command says, with its text as a sequence of characters.
pub enum DrawSpec {
    FillRectangle { rect: ScreenRect, paint: Paint },
    Segment { from: ScreenPoint, to: ScreenPoint, paint: Paint },
    Label { content: Seq<char>, position: ScreenPoint, weight: Weight, paint: Paint },
}

impl View for DrawCommand {
    type V = DrawSpec;

    open spec fn view(&self) -> DrawSpec {
        match *self {
            DrawCommand::FillRectangle { rect, paint } => DrawSpec::FillRectangle { rect, paint },
            DrawCommand::Segment { from, to, paint } => DrawSpec::Segment { from, to, paint },
            DrawCommand::Label { content, position, weight, paint } => DrawSpec::Label {
                content: content@,
                position,
                weight,
                paint,
            },
        }
    }
}

impl DrawCommand {
    /// An independent copy that says the same.
    pub fn duplicate(&self) -> (out: DrawCommand)
        ensures
            out@ == self@,
    {
        match self {
            DrawCommand::FillRectangle { rect, paint } => DrawCommand::FillRectangle {
                rect: *rect,
                paint: *paint,
            },
            DrawCommand::Segment { from, to, paint } => DrawCommand::Segment {
                from: *from,
                to: *to,
                paint: *paint,
            },
            DrawCommand::Label { content, position, weight, paint } => DrawCommand::Label {
                content: content.clone(),
                position: *position,
                weight: *weight,
                paint: *paint,
            },
        }
    }
}

pub open spec fn commands_view(commands: Seq<DrawCommand>) -> Seq<DrawSpec> {
    Seq::new(commands.len(), |i: int| commands[i]@)
}

pub fn copy_commands(commands: &Vec<DrawCommand>) -> (out: Vec<DrawCommand>)
    ensures
        commands_view(out@) == commands_view(commands@),
{
    let mut out: Vec<DrawCommand> = Vec::new();
    let mut i: usize = 0;
    while i < commands.len()
        invariant
            0 <= i <= commands@.len(),
            out@.len() == i,
            forall|j: int| 0 <= j < i ==> (#[trigger] out@[j])@ == commands@[j]@,
        decreases commands@.len() - i,
    {
        out.push(commands[i].duplicate());
        i += 1;
    }
    assert(commands_view(out@) =~= commands_view(commands@));
    out
}

/// Whether the pointer is inside the clickable rectangle of `rec`.
pub open spec fn hovered_spec(rec: Rectangle, layout: LayoutResult, pointer: Option<Point>) -> bool {
    match pointer {
        Some(p) => clickable_spec(rec, layout).contains_spec(p),
        None => false,
    }
}

/// The outline is accented exactly when the region is hovered.
pub open spec fn outline_paint(hovered: bool) -> Paint {
    if hovered {
        Paint::Accent
    } else {
        Paint::TextTertiary
    }
}

/// The `k`-th of the seven commands of one region: the fill; the top, right,
/// bottom and left edge of the outline; the name; the status line.
pub open spec fn region_command(
    region: OutputData,
    layout: LayoutResult,
    pointer: Option<Point>,
    k: int,
) -> DrawSpec {
    let r = clickable_spec(region.rec, layout);
    let paint = outline_paint(hovered_spec(region.rec, layout, pointer));
    let a = ScreenPoint { x: r.x, y: r.y, unit: r.unit };
    let b = ScreenPoint { x: (r.x + r.width) as i128, y: r.y, unit: r.unit };
    let c = ScreenPoint { x: (r.x + r.width) as i128, y: (r.y + r.height) as i128, unit: r.unit };
    let d = ScreenPoint { x: r.x, y: (r.y + r.height) as i128, unit: r.unit };
    let m = r.center_spec();
    if k == 0 {
        DrawSpec::FillRectangle { rect: r, paint: Paint::BackgroundTertiary }
    } else if k == 1 {
        DrawSpec::Segment { from: a, to: b, paint }
    } else if k == 2 {
        DrawSpec::Segment { from: b, to: c, paint }
    } else if k == 3 {
        DrawSpec::Segment { from: c, to: d, paint }
    } else if k == 4 {
        DrawSpec::Segment { from: d, to: a, paint }
    } else if k == 5 {
        DrawSpec::Label {
            content: region.name@,
            position: ScreenPoint { x: m.x, y: (m.y - LABEL_OFFSET * r.unit) as i128, unit: r.unit },
            weight: Weight::Bold,
            paint: Paint::Accent,
        }
    } else {
        DrawSpec::Label {
            content: status_spec(region.rec, region.refresh),
            position: ScreenPoint { x: m.x, y: (m.y + LABEL_OFFSET * r.unit) as i128, unit: r.unit },
            weight: Weight::Regular,
            paint: Paint::TextTertiary,
        }
    }
}

/// The whole drawing: seven commands per region, regions in stored order.
pub open spec fn render_spec(
    regions: Seq<OutputData>,
    viewport: Rectangle,
    pointer: Option<Point>,
) -> Seq<DrawSpec> {
    Seq::new(
        7 * regions.len(),
        |j: int| region_command(regions[j / 7], layout_spec(regions, viewport), pointer, j % 7),
    )
}

/// Whether region `i` exists and its clickable rectangle contains `p`.
pub open spec fn is_hit(regions: Seq<OutputData>, layout: LayoutResult, p: Point, i: int) -> bool {
    0 <= i < regions.len() && clickable_spec(regions[i].rec, layout).contains_spec(p)
}

/// The first region at or after `start`, in stored order, that `p` hits.
pub open spec fn first_hit_from(
    regions: Seq<OutputData>,
    layout: LayoutResult,
    p: Point,
    start: int,
) -> Option<int>
    decreases regions.len() - start,
{
    if start < 0 || start >= regions.len() {
        None
    } else if is_hit(regions, layout, p, start) {
        Some(start)
    } else {
        first_hit_from(regions, layout, p, start + 1)
    }
}

/// The hit candidate: the first region in stored order whose clickable
/// rectangle contains `p`.
pub open spec fn hit_candidate_spec(
    regions: Seq<OutputData>,
    viewport: Rectangle,
    p: Point,
) -> Option<int> {
    first_hit_from(regions, layout_spec(regions, viewport), p, 0)
}

/// The region a pointer event selects: the hit candidate of a press of the
/// primary button at a position inside the viewport, and nothing otherwise.
pub open spec fn selection_spec(
    regions: Seq<OutputData>,
    viewport: Rectangle,
    event: PointerEvent,
) -> Option<int> {
    match event.position {
        Some(p) => if event.kind == PointerEventKind::ButtonDown {
            hit_candidate_spec(regions, viewport, p)
        } else {
            None
        },
        None => None,
    }
}

pub proof fn lemma_first_hit(regions: Seq<OutputData>, layout: LayoutResult, p: Point, start: int)
    requires
        0 <= start,
    ensures
        match first_hit_from(regions, layout, p, start) {
            Some(i) => start <= i < regions.len() && is_hit(regions, layout, p, i) && forall|
                j: int,
            |
                start <= j < i ==> !is_hit(regions, layout, p, j),
            None => forall|j: int| start <= j ==> !is_hit(regions, layout, p, j),
        },
    decreases regions.len() - start,
{
    if start < regions.len() && !is_hit(regions, layout, p, start) {
        lemma_first_hit(regions, layout, p, start + 1);
    }
}

/// The last drawing, with the viewport and pointer it was made for.
#[derive(Debug)]
struct Frame {
    viewport: Rectangle,
    pointer: Option<Point>,
    commands: Vec<DrawCommand>,
}

/// A picker session over a fixed, ordered set of regions.
#[derive(Debug)]
pub struct OutputGrid {
    cache: Option<Frame>,
    outputs: Vec<OutputData>,
}

fn same_pointer(a: Option<Point>, b: Option<Point>) -> (out: bool)
    ensures
        out == (a == b),
{
    match (a, b) {
        (Some(p), Some(q)) => p.x == q.x && p.y == q.y,
        (None, None) => true,
        _ => false,
    }
}

fn push_region(
    out: &mut Vec<DrawCommand>,
    region: &OutputData,
    layout: &LayoutResult,
    pointer: Option<Point>,
)
    requires
        layout.wf(),
    ensures
        final(out)@.len() == old(out)@.len() + 7,
        forall|j: int| 0 <= j < old(out)@.len() ==> final(out)@[j] == old(out)@[j],
        forall|k: int|
            0 <= k < 7 ==> (#[trigger] final(out)@[old(out)@.len() + k])@ == region_command(
                *region,
                *layout,
                pointer,
                k,
            ),
{
    let r = clickable_region(region, layout);
    let hovered = match pointer {
        Some(p) => r.contains(p),
        None => false,
    };
    let paint = if hovered {
        Paint::Accent
    } else {
        Paint::TextTertiary
    };
    let a = ScreenPoint { x: r.x, y: r.y, unit: r.unit };
    let b = ScreenPoint { x: r.x + r.width, y: r.y, unit: r.unit };
    let c = ScreenPoint { x: r.x + r.width, y: r.y + r.height, unit: r.unit };
    let d = ScreenPoint { x: r.x, y: r.y + r.height, unit: r.unit };
    let m = r.center();
    proof {
        crate::layout::lemma_product_bound(LABEL_OFFSET as int, r.unit as int);
    }
    let gap: i128 = (LABEL_OFFSET as i128) * (r.unit as i128);
    out.push(DrawCommand::FillRectangle { rect: r, paint: Paint::BackgroundTertiary });
    out.push(DrawCommand::Segment { from: a, to: b, paint });
    out.push(DrawCommand::Segment { from: b, to: c, paint });
    out.push(DrawCommand::Segment { from: c, to: d, paint });
    out.push(DrawCommand::Segment { from: d, to: a, paint });
    out.push(
        DrawCommand::Label {
            content: region.name.clone(),
            position: ScreenPoint { x: m.x, y: m.y - gap, unit: r.unit },
            weight: Weight::Bold,
            paint: Paint::Accent,
        },
    );
    out.push(
        DrawCommand::Label {
            content: status_line(region.rec, region.refresh),
            position: ScreenPoint { x: m.x, y: m.y + gap, unit: r.unit },
            weight: Weight::Regular,
            paint: Paint::TextTertiary,
        },
    );
}

/// Draws every region, in stored order, for the given viewport and pointer.
pub fn draw_commands(
    regions: &Vec<OutputData>,
    viewport: Rectangle,
    pointer: Option<Point>,
) -> (out: Vec<DrawCommand>)
    requires
        forall|i: int| 0 <= i < regions@.len() ==> (#[trigger] regions@[i]).rec.wf(),
    ensures
        commands_view(out@) == render_spec(regions@, viewport, pointer),
{
    let layout = compute_layout(regions, viewport);
    let mut out: Vec<DrawCommand> = Vec::new();
    let mut i: usize = 0;
    while i < regions.len()
        invariant
            0 <= i <= regions@.len(),
            layout.wf(),
            layout == layout_spec(regions@, viewport),
            out@.len() == 7 * i,
            forall|j: int|
                0 <= j < 7 * i ==> (#[trigger] out@[j])@ == region_command(
                    regions@[j / 7],
                    layout,
                    pointer,
                    j % 7,
                ),
        decreases regions@.len() - i,
    {
        let ghost before = out@;
        push_region(&mut out, &regions[i], &layout, pointer);
        proof {
            assert forall|j: int| 0 <= j < 7 * (i + 1) implies (#[trigger] out@[j])@
                == region_command(regions@[j / 7], layout, pointer, j % 7) by {
                if j < 7 * i {
                    assert(out@[j] == before[j]);
                } else {
                    let k = j - 7 * i;
                    assert(out@[before.len() + k]@ == region_command(
                        regions@[i as int],
                        layout,
                        pointer,
                        k,
                    ));
                    assert(j / 7 == i && j % 7 == k);
                }
            }
        }
        i += 1;
    }
    assert(commands_view(out@) =~= render_spec(regions@, viewport, pointer));
    out
}

/// Finds the hit candidate: the index of the first region, in stored order,
/// whose clickable rectangle contains `p`.
pub fn hit_candidate(regions: &Vec<OutputData>, viewport: Rectangle, p: Point) -> (out: Option<
    usize,
>)
    requires
        forall|i: int| 0 <= i < regions@.len() ==> (#[trigger] regions@[i]).rec.wf(),
    ensures
        match out {
            Some(i) => i < regions@.len() && hit_candidate_spec(regions@, viewport, p) == Some(
                i as int,
            ),
            None => hit_candidate_spec(regions@, viewport, p) is None,
        },
{
    let layout = compute_layout(regions, viewport);
    let mut i: usize = 0;
    while i < regions.len()
        invariant
            0 <= i <= regions@.len(),
            layout.wf(),
            layout == layout_spec(regions@, viewport),
            first_hit_from(regions@, layout, p, 0) == first_hit_from(regions@, layout, p, i as int),
        decreases regions@.len() - i,
    {
        let r = clickable_region(&regions[i], &layout);
        if r.contains(p) {
            return Some(i);
        }
        i += 1;
    }
    None
}

impl OutputGrid {
    /// The regions of the session, in stored order.
    pub closed spec fn outputs_spec(&self) -> Seq<OutputData> {
        self.outputs@
    }

    /// Whether a drawing is held in the cache.
    pub closed spec fn has_cache(&self) -> bool {
        self.cache is Some
    }

    /// Every region's far edges are representable, and a cached drawing is the
    /// drawing for the viewport and pointer it is kept under.
    pub closed spec fn wf(&self) -> bool {
        &&& forall|i: int| 0 <= i < self.outputs@.len() ==> (#[trigger] self.outputs@[i]).rec.wf()
        &&& match self.cache {
            Some(frame) => commands_view(frame.commands@) == render_spec(
                self.outputs@,
                frame.viewport,
                frame.pointer,
            ),
            None => true,
        }
    }

    /// Starts a session over `outputs`, kept in the given order, with an empty
    /// cache.
    pub fn new(outputs: Vec<OutputData>) -> (grid: OutputGrid)
        requires
            forall|i: int| 0 <= i < outputs@.len() ==> (#[trigger] outputs@[i]).rec.wf(),
        ensures
            grid.wf(),
            grid.outputs_spec() == outputs@,
            !grid.has_cache(),
    {
        OutputGrid { cache: None, outputs }
    }

    /// The regions of the session, in stored order.
    pub fn outputs(&self) -> (out: &Vec<OutputData>)
        ensures
            out@ == self.outputs_spec(),
    {
        &self.outputs
    }

    /// Whether a drawing is held in the cache.
    pub fn is_cached(&self) -> (out: bool)
        ensures
            out == self.has_cache(),
    {
        self.cache.is_some()
    }

    /// Handles one pointer event. Drops the cached drawing. Returns whether the
    /// event was consumed, and the name of the selected region: the hit
    /// candidate, when the event is a press of the primary button inside the
    /// viewport; hovering selects nothing.
    pub fn handle_pointer_event(&mut self, event: PointerEvent, viewport: Rectangle) -> (out: (
        bool,
        Option<String>,
    ))
        requires
            old(self).wf(),
        ensures
            final(self).wf(),
            final(self).outputs_spec() == old(self).outputs_spec(),
            !final(self).has_cache(),
            out.0 == out.1.is_some(),
            match selection_spec(old(self).outputs_spec(), viewport, event) {
                Some(i) => out.1 == Some(old(self).outputs_spec()[i].name),
                None => out.1 is None,
            },
    {
        self.cache = None;
        let position = match event.position {
            Some(p) => p,
            None => {
                return (false, None);
            },
        };
        let candidate = hit_candidate(&self.outputs, viewport, position);
        match (candidate, event.kind) {
            (Some(i), PointerEventKind::ButtonDown) => (true, Some(self.outputs[i].name.clone())),
            _ => (false, None),
        }
    }

    /// Draws the regions for the given viewport and pointer position, and
    /// keeps the drawing. Where the cache holds the drawing for the same
    /// viewport and pointer, that drawing is returned.
    pub fn render(&mut self, viewport: Rectangle, pointer: Option<Point>) -> (out: Vec<DrawCommand>)
        requires
            old(self).wf(),
        ensures
            final(self).wf(),
            final(self).outputs_spec() == old(self).outputs_spec(),
            final(self).has_cache(),
            commands_view(out@) == render_spec(old(self).outputs_spec(), viewport, pointer),
    {
        match &self.cache {
            Some(frame) => {
                if frame.viewport == viewport && same_pointer(frame.pointer, pointer) {
                    return copy_commands(&frame.commands);
                }
            },
            None => {},
        }
        let commands = draw_commands(&self.outputs, viewport, pointer);
        let out = copy_commands(&commands);
        self.cache = Some(Frame { viewport, pointer, commands });
        out
    }
}

impl Default for OutputGrid {
    /// A session without regions and with an empty cache.
    fn default() -> (grid: OutputGrid)
        ensures
            grid.wf(),
            grid.outputs_spec() == Seq::<OutputData>::empty(),
            !grid.has_cache(),
    {
        OutputGrid { cache: None, outputs: Vec::new() }
    }
}

/// Whether a command is an outline stroke in the accent colour.
pub open spec fn is_accented(command: DrawSpec) -> bool {
    match command {
        DrawSpec::Segment { paint, .. } => paint == Paint::Accent,
        _ => false,
    }
}

/// Whether a drawing shows region `i` as hovered: all four strokes of its
/// outline are accented.
pub open spec fn shown_hovered(drawing: Seq<DrawSpec>, i: int) -> bool {
    &&& is_accented(drawing[7 * i + 1])
    &&& is_accented(drawing[7 * i + 2])
    &&& is_accented(drawing[7 * i + 3])
    &&& is_accented(drawing[7 * i + 4])
}

/// A drawing shows a region as hovered exactly when the pointer is inside its
/// clickable rectangle, and shows it with no accented stroke otherwise.
pub proof fn lemma_shown_hovered(
    regions: Seq<OutputData>,
    viewport: Rectangle,
    pointer: Option<Point>,
    i: int,
)
    requires
        0 <= i < regions.len(),
    ensures
        shown_hovered(render_spec(regions, viewport, pointer), i) == hovered_spec(
            regions[i].rec,
            layout_spec(regions, viewport),
            pointer,
        ),
        is_accented(render_spec(regions, viewport, pointer)[7 * i + 1]) == shown_hovered(
            render_spec(regions, viewport, pointer),
            i,
        ),
{
    let drawing = render_spec(regions, viewport, pointer);
    let layout = layout_spec(regions, viewport);
    assert forall|k: int| 0 <= k < 7 implies #[trigger] drawing[7 * i + k] == region_command(
        regions[i],
        layout,
        pointer,
        k,
    ) by {
        assert((7 * i + k) / 7 == i && (7 * i + k) % 7 == k);
    }
    assert(drawing[7 * i + 1] == region_command(regions[i], layout, pointer, 1));
    assert(drawing[7 * i + 2] == region_command(regions[i], layout, pointer, 2));
    assert(drawing[7 * i + 3] == region_command(regions[i], layout, pointer, 3));
    assert(drawing[7 * i + 4] == region_command(regions[i], layout, pointer, 4));
}

/// Hovering and clicking agree: the region that a press of the primary button
/// at `p` selects is the first region, in stored order, that the drawing for
/// the same viewport and pointer shows as hovered; and the press selects
/// nothing exactly when the drawing shows no region as hovered.
pub proof fn law_hover_matches_click(regions: Seq<OutputData>, viewport: Rectangle, p: Point)
    ensures
        match selection_spec(
            regions,
            viewport,
            PointerEvent { kind: PointerEventKind::ButtonDown, position: Some(p) },
        ) {
            Some(i) => {
                &&& 0 <= i < regions.len()
                &&& shown_hovered(render_spec(regions, viewport, Some(p)), i)
                &&& forall|j: int|
                    0 <= j < i ==> !shown_hovered(render_spec(regions, viewport, Some(p)), j)
            },
            None => forall|j: int|
                0 <= j < regions.len() ==> !shown_hovered(
                    render_spec(regions, viewport, Some(p)),
                    j,
                ),
        },
{
    let layout = layout_spec(regions, viewport);
    let drawing = render_spec(regions, viewport, Some(p));
    lemma_first_hit(regions, layout, p, 0);
    assert forall|j: int| 0 <= j < regions.len() implies shown_hovered(drawing, j) == is_hit(
        regions,
        layout,
        p,
        j,
    ) by {
        lemma_shown_hovered(regions, viewport, Some(p), j);
    }
}

/// Where the clickable rectangles of two regions both contain `p`, the later
/// one is never the hit candidate: the candidate is the earlier one, or a
/// region before it that `p` hits as well.
pub proof fn law_first_match_wins(
    regions: Seq<OutputData>,
    viewport: Rectangle,
    p: Point,
    earlier: int,
    later: int,
)
    requires
        0 <= earlier < later < regions.len(),
        is_hit(regions, layout_spec(regions, viewport), p, earlier),
        is_hit(regions, layout_spec(regions, viewport), p, later),
    ensures
        match hit_candidate_spec(regions, viewport, p) {
            Some(k) => {
                &&& k <= earlier
                &&& k != later
                &&& (forall|j: int|
                    0 <= j < earlier ==> !is_hit(regions, layout_spec(regions, viewport), p, j))
                    ==> k == earlier
            },
            None => false,
        },
{
    lemma_first_hit(regions, layout_spec(regions, viewport), p, 0);
}

/// A pointer outside the viewport, or outside every clickable rectangle,
/// selects nothing, whatever the kind of the event.
pub proof fn law_no_hit(regions: Seq<OutputData>, viewport: Rectangle, event: PointerEvent)
    requires
        match event.position {
            Some(p) => forall|i: int|
                0 <= i < regions.len() ==> !is_hit(regions, layout_spec(regions, viewport), p, i),
            None => true,
        },
    ensures
        selection_spec(regions, viewport, event) is None,
{
    if let Some(p) = event.position {
        lemma_first_hit(regions, layout_spec(regions, viewport), p, 0);
    }
}

} // verus!
