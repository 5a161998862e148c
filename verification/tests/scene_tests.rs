use metaballs::field::Blob;
use metaballs::motion::{position_at, MotionProfile, CENTER_X_MILLI, CENTER_Y_MILLI};
use metaballs::scene::MetaballScene;
use metaballs::style::RenderMode;
use metaballs::{GRID_HEIGHT, GRID_WIDTH};

fn far_scene(mode: RenderMode) -> MetaballScene {
    let mut scene = MetaballScene::new();
    scene.mode = mode;
    let mut blobs = Vec::new();
    for _ in 0..5 {
        blobs.push(Blob::new(500_000, 500_000, 4000));
    }
    scene.blobs = blobs;
    scene
}

#[test]
fn mode_cycle_wraps_after_five() {
    let mut mode = RenderMode::Gradient;
    mode = mode.next();
    assert!(matches!(mode, RenderMode::Contour));
    mode = mode.next();
    assert!(matches!(mode, RenderMode::Solid));
    mode = mode.next();
    assert!(matches!(mode, RenderMode::Blocks));
    mode = mode.next();
    assert!(matches!(mode, RenderMode::Gooey));
    mode = mode.next();
    assert!(matches!(mode, RenderMode::Gradient));
}

#[test]
fn mode_names() {
    assert_eq!(RenderMode::Gradient.name(), "Gradient");
    assert_eq!(RenderMode::Contour.name(), "Contour");
    assert_eq!(RenderMode::Solid.name(), "Solid");
    assert_eq!(RenderMode::Blocks.name(), "Blocks");
    assert_eq!(RenderMode::Gooey.name(), "Gooey");
}

#[test]
fn new_scene_has_five_sources_and_gradient_style() {
    let scene = MetaballScene::new();
    assert_eq!(scene.blobs.len(), 5);
    assert_eq!(scene.profiles.len(), 5);
    let radii: Vec<i64> = scene.blobs.iter().map(|b| b.radius).collect();
    assert_eq!(radii, vec![4000, 3000, 3500, 2500, 3200]);
    assert!(matches!(scene.mode, RenderMode::Gradient));
    assert_eq!(scene.time_milli, 0);
    assert_eq!(scene.mode_timer_milli, 0);
}

#[test]
fn style_advances_after_exactly_one_dwell() {
    // 100 steps of 0.05 simulated seconds sum to exactly 5.0: the style
    // must change exactly once, at the last step.
    let mut scene = MetaballScene::new();
    for step in 1..=100 {
        assert!(matches!(scene.mode, RenderMode::Gradient), "step {step}");
        scene.update(50);
    }
    assert!(matches!(scene.mode, RenderMode::Contour));
    assert_eq!(scene.mode_timer_milli, 0);
}

#[test]
fn style_returns_after_five_dwells() {
    let mut scene = MetaballScene::new();
    for _ in 0..500 {
        scene.update(50);
    }
    assert_eq!(scene.time_milli, 25_000);
    assert!(matches!(scene.mode, RenderMode::Gradient));
    assert_eq!(scene.mode_timer_milli, 0);
}

#[test]
fn style_advance_with_uneven_steps() {
    // Steps of different sizes summing to one dwell still advance the
    // style exactly once, when they land on the boundary exactly.
    let mut scene = MetaballScene::new();
    for dt in [2500, 1500, 999, 1] {
        assert!(matches!(scene.mode, RenderMode::Gradient));
        scene.update(dt);
    }
    assert!(matches!(scene.mode, RenderMode::Contour));
    assert_eq!(scene.mode_timer_milli, 0);
}

#[test]
fn overshooting_step_also_fires_once() {
    let mut scene = MetaballScene::new();
    scene.update(7000);
    assert!(matches!(scene.mode, RenderMode::Contour));
    assert_eq!(scene.mode_timer_milli, 0);
    assert_eq!(scene.time_milli, 7000);
}

#[test]
fn position_at_quarter_turn() {
    let p = MotionProfile {
        freq_x: 1000,
        phase_x: 0,
        radius_x: 10000,
        freq_y: 1000,
        phase_y: 0,
        radius_y: 5000,
    };
    // angle = t * freq / 1000 = 1571: cosine 0, sine 1000.
    let (x, y) = position_at(&p, 1571);
    assert_eq!(x, CENTER_X_MILLI);
    assert_eq!(y, CENTER_Y_MILLI + 5000);
    // angle = 3142: cosine -1000, sine 0.
    let (x, y) = position_at(&p, 3142);
    assert_eq!(x, CENTER_X_MILLI - 10000);
    assert_eq!(y, CENTER_Y_MILLI);
}

#[test]
fn update_moves_sources_on_their_paths() {
    let mut scene = MetaballScene::new();
    let profiles = scene.profiles.clone();
    scene.update(50);
    for (i, b) in scene.blobs.iter().enumerate() {
        let (x, y) = position_at(&profiles[i], 50);
        assert_eq!(b.x, x, "source {i}");
        assert_eq!(b.y, y, "source {i}");
    }
}

#[test]
fn grid_has_one_extra_row_and_column() {
    let mut scene = MetaballScene::new();
    scene.update(50);
    let grid = scene.build_field_grid();
    assert_eq!(grid.len(), GRID_HEIGHT + 1);
    for line in &grid {
        assert_eq!(line.len(), GRID_WIDTH + 1);
    }
    assert_eq!(grid[7][11], scene.calculate_field(11_000, 7_000));
}

#[test]
fn render_is_deterministic() {
    let mut scene = MetaballScene::new();
    for _ in 0..7 {
        scene.update(50);
    }
    let first = scene.render();
    let second = scene.render();
    assert_eq!(first, second);
    assert_eq!(first.chars().count(), GRID_HEIGHT * (GRID_WIDTH + 1));
}

#[test]
fn render_has_terminated_rows() {
    let scene = MetaballScene::new();
    let frame = scene.render();
    let lines: Vec<&str> = frame.split('\n').collect();
    // A terminator after every row leaves one empty trailing piece.
    assert_eq!(lines.len(), GRID_HEIGHT + 1);
    assert_eq!(lines[GRID_HEIGHT], "");
    for line in lines.iter().take(GRID_HEIGHT) {
        assert_eq!(line.chars().count(), GRID_WIDTH);
    }
}

#[test]
fn far_sources_render_blank_in_every_style() {
    for mode in [
        RenderMode::Gradient,
        RenderMode::Contour,
        RenderMode::Solid,
        RenderMode::Blocks,
        RenderMode::Gooey,
    ] {
        let scene = far_scene(mode);
        let frame = scene.render();
        assert!(
            frame.chars().all(|c| c == ' ' || c == '\n'),
            "style {} not blank",
            mode.name()
        );
    }
}

#[test]
fn contour_classifies_crossing_neighbors_as_edge() {
    // One source at (10, 10) with radius 2: the cell two rows below the
    // center sits exactly at the threshold, its lower neighbor outside.
    let mut scene = far_scene(RenderMode::Contour);
    scene.blobs = vec![Blob::new(10_000, 10_000, 2000)];
    scene.profiles.truncate(1);
    let grid = scene.build_field_grid();
    assert!(scene.calculate_field(10_000, 12_000) >= 1000);
    assert!(scene.calculate_field(10_000, 13_000) < 1000);
    let edge = scene.render_contour(&grid, 12, 10);
    assert!(edge == '@' || edge == '#' || edge == 'O');
    assert_eq!(edge, 'O');
}

#[test]
fn contour_uniform_cells_are_not_edges() {
    let mut scene = far_scene(RenderMode::Contour);
    scene.blobs = vec![Blob::new(10_000, 10_000, 2000)];
    scene.profiles.truncate(1);
    let grid = scene.build_field_grid();
    // Deep inside: the center cell and all its neighbors are inside.
    assert_eq!(scene.render_contour(&grid, 10, 10), '.');
    // Far outside: the cell and all its neighbors are outside.
    assert_eq!(scene.render_contour(&grid, 30, 70), ' ');
}

#[test]
fn blocks_full_coverage_uses_second_densest_below_double_threshold() {
    // One small source centered between the four sub-pixel samples of
    // cell (10, 10): every sample reads 1152, the corner field stays
    // below twice the threshold.
    let mut scene = far_scene(RenderMode::Blocks);
    scene.blobs = vec![Blob::new(10_250, 10_250, 300)];
    scene.profiles.truncate(1);
    let grid = scene.build_field_grid();
    assert_eq!(scene.calculate_field(10_000, 10_000), 1152);
    assert_eq!(scene.render_blocks(&grid, 10, 10), '▓');
}

#[test]
fn blocks_empty_cell_is_blank() {
    let mut scene = far_scene(RenderMode::Blocks);
    scene.blobs = vec![Blob::new(10_250, 10_250, 300)];
    scene.profiles.truncate(1);
    let grid = scene.build_field_grid();
    assert_eq!(scene.render_blocks(&grid, 30, 70), ' ');
}

#[test]
fn fixed_scene_produces_known_statistics() {
    // A scenario pinned end to end: known positions, radii and style.
    let mut scene = far_scene(RenderMode::Solid);
    scene.blobs = vec![
        Blob::new(20_000, 10_000, 4000),
        Blob::new(60_000, 25_000, 3000),
    ];
    scene.profiles.truncate(2);
    let frame = scene.render();
    let repeat = scene.render();
    assert_eq!(frame, repeat);
    assert!(frame.contains('*'));
    assert!(frame.contains('@'));
    assert!(frame.contains(' '));
}
