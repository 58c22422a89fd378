//! Tests for the plot render-state library: the coordinate normalizer, the
//! pipeline registry and the per-frame protocol.

use line_plot::{
    contains_quit, context_request, default_plot_data, init, normalize_update, render, PathUpdate,
    PipelineEntry, PipelineRegistry, PlotData, PlotEvent, ProgramKey,
};

fn sample_entry() -> PipelineEntry {
    PipelineEntry {
        program: 7,
        vao: 3,
        vbo: 4,
        position_attr: 0,
        normal_attr: 1,
        transform_uni: 10,
        model_uni: 11,
        width_uni: 12,
    }
}

/// A per-axis normalization kernel: `v` maps to `(v - origin) / length`,
/// computed in single precision on bit patterns.
fn kernel(origin: f32, length: f32) -> impl Fn(u32) -> u32 {
    move |v: u32| ((f32::from_bits(v) - origin) / length).to_bits()
}

fn bits(values: &[f32]) -> Vec<u32> {
    values.iter().map(|v| v.to_bits()).collect()
}

fn two_point_update() -> PathUpdate {
    PathUpdate {
        axis_ori_x: 0.0f32.to_bits(),
        axis_ori_y: 0.0f32.to_bits(),
        axis_len_x: 1.0f32.to_bits(),
        axis_len_y: 1.0f32.to_bits(),
        path: vec![(0, 0), (0x3F00_0000, 0x3F00_0000)],
    }
}

#[test]
fn it_works() {}

#[test]
fn registry_lookup_returns_registered_entry() {
    let mut registry = PipelineRegistry::new();
    assert!(!registry.contains(ProgramKey::Line));
    registry.register(ProgramKey::Line, sample_entry());
    assert!(registry.contains(ProgramKey::Line));
    assert!(!registry.contains(ProgramKey::Basic));
    assert!(!registry.contains(ProgramKey::Fill));
    assert!(!registry.contains(ProgramKey::Overlay));
    assert_eq!(*registry.lookup(ProgramKey::Line), sample_entry());
}

#[test]
fn contains_quit_finds_quit_anywhere_in_batch() {
    assert!(!contains_quit(&vec![]));
    assert!(!contains_quit(&vec![PlotEvent::Other, PlotEvent::Other]));
    assert!(contains_quit(&vec![PlotEvent::Quit]));
    assert!(contains_quit(&vec![PlotEvent::Other, PlotEvent::Quit, PlotEvent::Other]));
}

#[test]
fn render_returns_true_exactly_on_quit() {
    let mut state = init(sample_entry(), 1.0f32.to_bits(), two_point_update());
    assert_eq!(state.line_entry(), sample_entry());
    assert_eq!(state.width(), 1.0f32.to_bits());

    // A quit event: `true`, no frame plan, state untouched.
    let path_before = state.path().clone();
    let (quit, plan) = render(
        &vec![PlotEvent::Other, PlotEvent::Quit],
        Some(two_point_update()),
        &mut state,
    );
    assert!(quit);
    assert!(plan.is_none());
    assert_eq!(*state.path(), path_before);

    // No quit event, with or without new data: `false`.
    let (quit, plan) = render(&vec![PlotEvent::Other], None, &mut state);
    assert!(!quit);
    assert!(plan.is_some());
    let (quit, plan) = render(&vec![], Some(two_point_update()), &mut state);
    assert!(!quit);
    assert!(plan.is_some());
}

#[test]
fn draw_vertex_count_is_four_per_segment() {
    // Immediately after init with five points: 4 * (5 - 1) vertices.
    let data = default_plot_data(5);
    let seed = normalize_update(
        &data,
        1.0f32.to_bits(),
        1.0f32.to_bits(),
        kernel(0.0, 1.0),
        kernel(0.0, 1.0),
    );
    let mut state = init(sample_entry(), 1.0f32.to_bits(), seed);
    let (_, plan) = render(&vec![], None, &mut state);
    assert_eq!(plan.unwrap().vertex_count, 16);

    // After an update with two points: 4 * (2 - 1) vertices.
    let (_, plan) = render(&vec![], Some(two_point_update()), &mut state);
    assert_eq!(plan.unwrap().vertex_count, 4);
}

#[test]
fn render_with_update_installs_new_geometry() {
    let mut state = init(sample_entry(), 1.0f32.to_bits(), two_point_update());
    let update = PathUpdate {
        axis_ori_x: 2.0f32.to_bits(),
        axis_ori_y: 3.0f32.to_bits(),
        axis_len_x: 4.0f32.to_bits(),
        axis_len_y: 5.0f32.to_bits(),
        path: vec![(1, 2), (3, 4), (5, 6)],
    };
    let (quit, plan) = render(&vec![], Some(update), &mut state);
    let plan = plan.unwrap();
    assert!(!quit);
    assert!(plan.regenerate);
    assert_eq!(plan.vertex_count, 8);
    assert_eq!(plan.entry, sample_entry());
    assert_eq!(*state.path(), vec![(1, 2), (3, 4), (5, 6)]);
    assert_eq!(
        state.axis_frame(),
        (
            2.0f32.to_bits(),
            3.0f32.to_bits(),
            4.0f32.to_bits(),
            5.0f32.to_bits()
        )
    );
}

#[test]
fn steady_redraw_repeats_identical_geometry() {
    // Two renders in succession with no new data and no quit event: two
    // frames with identical plans over an unchanged path.
    let mut state = init(sample_entry(), 1.0f32.to_bits(), two_point_update());
    let path_before = state.path().clone();
    let (quit1, plan1) = render(&vec![PlotEvent::Other], None, &mut state);
    let path_middle = state.path().clone();
    let (quit2, plan2) = render(&vec![], None, &mut state);
    assert!(!quit1);
    assert!(!quit2);
    assert_eq!(plan1.unwrap(), plan2.unwrap());
    assert_eq!(path_middle, path_before);
    assert_eq!(*state.path(), path_before);
    assert!(!plan1.unwrap().regenerate);
}

#[test]
fn scenario_expected_normalized_path() {
    // axis_x = [0, 1], axis_y = [-1, 1], values = (0, 0) and (0.5, 0.5):
    // the normalized path is [(0, 0.5), (0.5, 0.75)].
    let data = PlotData {
        axis_x: bits(&[0.0, 1.0]),
        axis_y: bits(&[-1.0, 1.0]),
        values_x: bits(&[0.0, 0.5]),
        values_y: bits(&[0.0, 0.5]),
    };
    let update = normalize_update(
        &data,
        1.0f32.to_bits(),
        2.0f32.to_bits(),
        kernel(0.0, 1.0),
        kernel(-1.0, 2.0),
    );
    assert_eq!(update.axis_ori_x, 0.0f32.to_bits());
    assert_eq!(update.axis_ori_y, (-1.0f32).to_bits());
    assert_eq!(update.axis_len_x, 1.0f32.to_bits());
    assert_eq!(update.axis_len_y, 2.0f32.to_bits());
    assert_eq!(
        update.path,
        vec![
            (0.0f32.to_bits(), 0.5f32.to_bits()),
            (0.5f32.to_bits(), 0.75f32.to_bits()),
        ]
    );
}

#[test]
fn first_point_at_origin_when_first_sample_on_axis_origins() {
    // With values starting exactly at the axis origins, the first
    // normalized point is (0, 0).
    let data = PlotData {
        axis_x: bits(&[2.0, 6.0]),
        axis_y: bits(&[-3.0, 5.0]),
        values_x: bits(&[2.0, 4.0]),
        values_y: bits(&[-3.0, 1.0]),
    };
    let update = normalize_update(
        &data,
        4.0f32.to_bits(),
        8.0f32.to_bits(),
        kernel(2.0, 4.0),
        kernel(-3.0, 8.0),
    );
    assert_eq!(update.path[0], (0.0f32.to_bits(), 0.0f32.to_bits()));
}

#[test]
fn normalization_preserves_order_along_axis() {
    // Strictly increasing x-values map to strictly increasing u, including
    // values outside the declared axis range (no clamping).
    let data = PlotData {
        axis_x: bits(&[0.0, 2.0]),
        axis_y: bits(&[0.0, 1.0]),
        values_x: bits(&[-1.0, 0.25, 1.0, 3.0]),
        values_y: bits(&[0.0, 0.0, 0.0, 0.0]),
    };
    let update = normalize_update(
        &data,
        2.0f32.to_bits(),
        1.0f32.to_bits(),
        kernel(0.0, 2.0),
        kernel(0.0, 1.0),
    );
    let u: Vec<f32> = update.path.iter().map(|p| f32::from_bits(p.0)).collect();
    assert!(u[0] < u[1] && u[1] < u[2] && u[2] < u[3]);
    assert!(u[0] < 0.0 && u[3] > 1.0);
}

#[test]
fn normalizing_twice_is_bit_identical() {
    let data = PlotData {
        axis_x: bits(&[0.1, 0.9]),
        axis_y: bits(&[-0.3, 0.7]),
        values_x: bits(&[0.1, 0.2, 0.30000001, 0.9]),
        values_y: bits(&[0.0, -0.1, 0.65, 0.7]),
    };
    let once = normalize_update(
        &data,
        (0.9f32 - 0.1f32).to_bits(),
        (0.7f32 - -0.3f32).to_bits(),
        kernel(0.1, 0.9 - 0.1),
        kernel(-0.3, 0.7 - -0.3),
    );
    let twice = normalize_update(
        &data,
        (0.9f32 - 0.1f32).to_bits(),
        (0.7f32 - -0.3f32).to_bits(),
        kernel(0.1, 0.9 - 0.1),
        kernel(-0.3, 0.7 - -0.3),
    );
    assert_eq!(once.path, twice.path);
}

#[test]
fn context_request_asks_for_core_gl33_with_msaa() {
    let request = context_request();
    assert_eq!(
        (request.version_major, request.version_minor),
        (3, 3)
    );
    assert!(request.core_profile);
    assert_eq!(request.multisample_buffers, 1);
    assert_eq!(request.multisample_samples, 4);
    assert!(request.double_buffer);
    assert_eq!(request.depth_size, 24);
    assert_eq!(request.swap_interval, 1);
}

#[test]
fn default_plot_data_is_degenerate_unit_axes() {
    let data = default_plot_data(3);
    assert_eq!(data.axis_x, bits(&[0.0, 1.0]));
    assert_eq!(data.axis_y, bits(&[0.0, 1.0]));
    assert_eq!(data.values_x, bits(&[0.0, 0.0, 0.0]));
    assert_eq!(data.values_y, bits(&[0.0, 0.0, 0.0]));
}
