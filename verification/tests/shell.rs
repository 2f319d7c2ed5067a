use output_picker::font::{face, mono, mono_bold, Weight};
use output_picker::geometry::Rectangle;
use output_picker::output_grid::OutputData;
use output_picker::shell::{
    current_mode, output_from_info, reinterpret, selection_line, Mode, OutputInfo,
};

fn mode(width: i32, height: i32, refresh_rate: i32, current: bool) -> Mode {
    Mode { width, height, refresh_rate, current }
}

fn info(name: Option<&str>, x: i32, y: i32, modes: Vec<Mode>) -> OutputInfo {
    OutputInfo { name: name.map(str::to_string), model: "Model 7".to_string(), x, y, modes }
}

#[test]
fn current_mode_is_the_first_one_marked() {
    let modes = vec![
        mode(640, 480, 60000, false),
        mode(1920, 1080, 60000, true),
        mode(2560, 1440, 144000, true),
    ];
    assert_eq!(current_mode(&modes), 1);
}

#[test]
fn current_mode_falls_back_to_the_first() {
    let modes = vec![mode(640, 480, 60000, false), mode(1920, 1080, 60000, false)];
    assert_eq!(current_mode(&modes), 0);
    assert_eq!(current_mode(&vec![mode(1, 1, 1, true)]), 0);
}

#[test]
fn output_takes_name_location_and_current_mode() {
    let modes = vec![mode(640, 480, 75000, false), mode(1920, 1080, 59951, true)];
    assert_eq!(
        output_from_info(info(Some("DP-1"), 1920, 0, modes)),
        Some(OutputData {
            name: "DP-1".to_string(),
            rec: Rectangle { x: 1920, y: 0, width: 1920, height: 1080 },
            refresh: 59951,
        })
    );
}

#[test]
fn output_without_a_name_goes_by_its_model() {
    let region = output_from_info(info(None, 0, 0, vec![mode(800, 600, 60000, false)])).unwrap();
    assert_eq!(region.name, "Model 7");
    assert_eq!(region.rec, Rectangle { x: 0, y: 0, width: 800, height: 600 });
    assert_eq!(region.refresh, 60000);
}

#[test]
fn negative_rate_reads_as_zero() {
    let region = output_from_info(info(None, 0, 0, vec![mode(800, 600, -5, true)])).unwrap();
    assert_eq!(region.refresh, 0);
}

#[test]
fn output_beyond_the_coordinate_range_is_dropped() {
    assert_eq!(output_from_info(info(Some("far"), -1, 0, vec![mode(800, 600, 60000, true)])), None);
    assert_eq!(output_from_info(info(Some("far"), 0, 10, vec![mode(800, -1, 60000, true)])), None);
    let edge = output_from_info(info(Some("edge"), -1, 0, vec![mode(0, 600, 60000, true)]));
    assert_eq!(edge.unwrap().rec, Rectangle { x: u32::MAX, y: 0, width: 0, height: 600 });
}

#[test]
fn reinterpret_keeps_the_bits() {
    assert_eq!(reinterpret(0), 0);
    assert_eq!(reinterpret(i32::MAX), 2147483647);
    assert_eq!(reinterpret(-1), u32::MAX);
    assert_eq!(reinterpret(i32::MIN), 2147483648);
}

#[test]
fn selection_line_names_the_output() {
    assert_eq!(selection_line("DP-1"), "[select-output]/DP-1");
    assert_eq!(selection_line(""), "[select-output]/");
}

#[test]
fn font_faces() {
    assert_eq!(mono().family, "Fht Mono");
    assert_eq!(mono().weight, Weight::Regular);
    assert_eq!(mono_bold().family, "Fht Mono");
    assert_eq!(mono_bold().weight, Weight::Bold);
    assert_eq!(face(Weight::Bold).weight, Weight::Bold);
    assert_eq!(face(Weight::Regular).weight, Weight::Regular);
}
