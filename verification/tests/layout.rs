use output_picker::geometry::{Point, Rectangle};
use output_picker::layout::{
    clickable_region, compute_layout, fit, project_region, scale_rectangle, union_of, LayoutResult, Scale,
    ScreenPoint, ScreenRect,
};
use output_picker::output_grid::OutputData;

fn rect(x: u32, y: u32, width: u32, height: u32) -> Rectangle {
    Rectangle { x, y, width, height }
}

fn output(name: &str, rec: Rectangle) -> OutputData {
    OutputData { name: name.to_string(), rec, refresh: 60000 }
}

fn side_by_side() -> Vec<OutputData> {
    vec![output("A", rect(0, 0, 1920, 1080)), output("B", rect(1920, 0, 1920, 1080))]
}

#[test]
fn union_of_two_rectangles_encloses_both() {
    let a = rect(10, 20, 100, 50);
    let b = rect(60, 5, 200, 30);
    assert_eq!(a.union(&b), rect(10, 5, 250, 65));
    assert_eq!(b.union(&a), rect(10, 5, 250, 65));
}

#[test]
fn union_with_a_rectangle_without_area_is_the_other() {
    let a = rect(10, 20, 100, 50);
    let flat = rect(500, 500, 0, 40);
    assert_eq!(a.union(&flat), a);
    assert_eq!(flat.union(&a), a);
    assert_eq!(Rectangle::zero().union(&a), a);
    assert_eq!(flat.union(&Rectangle::zero()), Rectangle::zero());
}

#[test]
fn union_of_regions_has_min_and_max_edges() {
    let regions = vec![
        output("A", rect(300, 40, 100, 100)),
        output("B", rect(20, 70, 50, 500)),
        output("C", rect(100, 10, 1000, 20)),
    ];
    let u = union_of(&regions);
    assert_eq!(u.x, 20);
    assert_eq!(u.y, 10);
    assert_eq!(u.x + u.width, 1100);
    assert_eq!(u.y + u.height, 570);
}

#[test]
fn union_of_regions_passes_over_those_without_area() {
    let regions = vec![
        output("flat", rect(900, 900, 0, 40)),
        output("A", rect(300, 40, 100, 100)),
        output("thin", rect(0, 0, 70, 0)),
        output("B", rect(350, 20, 100, 100)),
    ];
    assert_eq!(union_of(&regions), rect(300, 20, 150, 120));
    let flat = vec![output("flat", rect(900, 900, 0, 40)), output("thin", rect(1, 2, 70, 0))];
    assert_eq!(union_of(&flat), rect(1, 2, 70, 0));
}

#[test]
fn union_of_no_regions_is_the_zero_rectangle() {
    assert_eq!(union_of(&Vec::new()), rect(0, 0, 0, 0));
}

#[test]
fn union_does_not_reach_to_the_origin() {
    let regions = vec![output("A", rect(300, 40, 100, 100))];
    assert_eq!(union_of(&regions), rect(300, 40, 100, 100));
}

#[test]
fn layout_of_two_monitors_side_by_side() {
    let layout = compute_layout(&side_by_side(), rect(0, 0, 400, 200));
    assert_eq!(layout.scale_factor, Scale { num: 400, den: 3840 });
    // 43.75 pixels down, nothing across, in units of 1/7680 pixel.
    assert_eq!(layout.offset, ScreenPoint { x: 0, y: 336000, unit: 7680 });
}

#[test]
fn layout_picks_the_vertical_ratio_when_it_is_smaller() {
    let regions = vec![output("tall", rect(0, 0, 100, 400))];
    let layout = compute_layout(&regions, rect(0, 0, 300, 200));
    assert_eq!(layout.scale_factor, Scale { num: 200, den: 400 });
    assert_eq!(layout.offset, ScreenPoint { x: 300 * 400 - 100 * 200, y: 0, unit: 800 });
}

#[test]
fn doubling_the_viewport_doubles_the_scale() {
    let regions = side_by_side();
    let once = compute_layout(&regions, rect(0, 0, 400, 200)).scale_factor;
    let twice = compute_layout(&regions, rect(0, 0, 800, 400)).scale_factor;
    assert_eq!(twice.den, once.den);
    assert_eq!(twice.num, 2 * once.num);
}

#[test]
fn scaled_union_fits_and_touches_one_axis() {
    let regions = side_by_side();
    let viewport = rect(0, 0, 400, 200);
    let layout = compute_layout(&regions, viewport);
    let union = OutputData { name: String::new(), rec: union_of(&regions), refresh: 0 };
    let scaled = project_region(&union, &layout);
    let unit = scaled.unit as i128;
    assert_eq!(scaled.width, 400 * unit);
    assert!(scaled.height < 200 * unit);
    assert_eq!(scaled.height, 864000);
}

#[test]
fn scaled_union_is_centered() {
    let regions = vec![output("A", rect(100, 50, 640, 480)), output("B", rect(740, 50, 800, 600))];
    let viewport = rect(0, 0, 1000, 333);
    let layout = compute_layout(&regions, viewport);
    let union = OutputData { name: String::new(), rec: union_of(&regions), refresh: 0 };
    let scaled = project_region(&union, &layout);
    let unit = layout.offset.unit as i128;
    assert_eq!(2 * (layout.offset.x + scaled.width / 2), 1000 * unit);
    assert_eq!(2 * (layout.offset.y + scaled.height / 2), 333 * unit);
}

#[test]
fn no_regions_give_scale_one() {
    let layout = compute_layout(&Vec::new(), rect(0, 0, 400, 200));
    assert_eq!(
        layout,
        LayoutResult {
            scale_factor: Scale { num: 1, den: 1 },
            offset: ScreenPoint { x: 400, y: 200, unit: 2 },
        }
    );
}

#[test]
fn regions_without_area_give_scale_one() {
    let regions = vec![output("flat", rect(0, 0, 5000, 0))];
    let layout = compute_layout(&regions, rect(0, 0, 400, 200));
    assert_eq!(layout.scale_factor, Scale { num: 1, den: 1 });
    assert_eq!(layout.offset, ScreenPoint { x: 400 - 5000, y: 200, unit: 2 });
}

#[test]
fn viewport_without_area_gives_scale_zero() {
    let layout = compute_layout(&side_by_side(), rect(0, 0, 0, 200));
    assert_eq!(layout.scale_factor.num, 0);
    assert_eq!(layout.scale_factor.den, 3840);
    let layout = fit(rect(0, 0, 10, 10), rect(0, 0, 0, 0));
    assert_eq!(layout.scale_factor.num, 0);
    assert_eq!(layout.offset, ScreenPoint { x: 0, y: 0, unit: 20 });
}

#[test]
fn scale_rectangle_multiplies_every_field() {
    let scaled = scale_rectangle(rect(3, 5, 7, 11), Scale { num: 2, den: 3 });
    assert_eq!(scaled, ScreenRect { x: 12, y: 20, width: 28, height: 44, unit: 6 });
    let gone = scale_rectangle(rect(3, 5, 7, 11), Scale { num: 0, den: 3 });
    assert_eq!(gone, ScreenRect { x: 0, y: 0, width: 0, height: 0, unit: 6 });
}

#[test]
fn project_region_scales_then_moves() {
    let regions = side_by_side();
    let layout = compute_layout(&regions, rect(0, 0, 400, 200));
    assert_eq!(
        project_region(&regions[0], &layout),
        ScreenRect { x: 0, y: 336000, width: 1536000, height: 864000, unit: 7680 }
    );
    assert_eq!(
        project_region(&regions[1], &layout),
        ScreenRect { x: 1536000, y: 336000, width: 1536000, height: 864000, unit: 7680 }
    );
}

#[test]
fn clickable_region_is_inset_by_four_pixels() {
    let regions = side_by_side();
    let layout = compute_layout(&regions, rect(0, 0, 400, 200));
    let r = clickable_region(&regions[1], &layout);
    assert_eq!(
        r,
        ScreenRect {
            x: 1536000 + 4 * 7680,
            y: 336000 + 4 * 7680,
            width: 1536000 - 8 * 7680,
            height: 864000 - 8 * 7680,
            unit: 7680,
        }
    );
}

#[test]
fn contains_includes_near_edges_and_excludes_far_edges() {
    let r = ScreenRect { x: 20, y: 40, width: 100, height: 60, unit: 10 };
    assert!(r.contains(Point { x: 2, y: 4 }));
    assert!(r.contains(Point { x: 11, y: 9 }));
    assert!(!r.contains(Point { x: 12, y: 9 }));
    assert!(!r.contains(Point { x: 11, y: 10 }));
    assert!(!r.contains(Point { x: 1, y: 4 }));
    assert!(!r.contains(Point { x: 2, y: 3 }));
}

#[test]
fn a_rectangle_shrunk_to_nothing_contains_no_point() {
    let r = ScreenRect { x: 50, y: 50, width: -20, height: 100, unit: 10 };
    assert!(!r.contains(Point { x: 5, y: 5 }));
    assert!(!r.contains(Point { x: 4, y: 6 }));
}

#[test]
fn center_is_the_middle() {
    let r = ScreenRect { x: 20, y: 40, width: 100, height: 60, unit: 10 };
    assert_eq!(r.center(), ScreenPoint { x: 70, y: 70, unit: 10 });
    let shrunk = ScreenRect { x: 20, y: 40, width: -10, height: -6, unit: 10 };
    assert_eq!(shrunk.center(), ScreenPoint { x: 15, y: 37, unit: 10 });
}
