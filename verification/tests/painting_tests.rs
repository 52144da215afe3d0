use painting::controller::{effective_point, Controller, DrawCall};
use painting::geometry::{build_path, polygon_commands, Path, PathCommand, PathError, Point};
use painting::scene::Scene;
use painting::style::{ColorSpace, Dash, GradientStop, LineJoin, Style};

fn p(x: i32, y: i32) -> Point {
    Point { x, y }
}

#[test]
fn snap_horizontal_when_dx_dominates() {
    assert_eq!(effective_point(p(0, 0), p(10, 3), true), p(10, 0));
}

#[test]
fn snap_vertical_when_dy_dominates() {
    assert_eq!(effective_point(p(0, 0), p(3, 10), true), p(0, 10));
}

#[test]
fn snap_tie_goes_vertical() {
    assert_eq!(effective_point(p(0, 0), p(5, 5), true), p(0, 5));
}

#[test]
fn snap_relative_to_origin() {
    assert_eq!(effective_point(p(100, 100), p(110, 103), true), p(110, 100));
    assert_eq!(effective_point(p(100, 100), p(103, 110), true), p(100, 110));
    assert_eq!(effective_point(p(100, 100), p(90, 97), true), p(90, 100));
}

#[test]
fn no_snap_without_shift() {
    assert_eq!(effective_point(p(0, 0), p(10, 3), false), p(10, 3));
}

#[test]
fn drag_sequence_records_effective_points() {
    let mut c = Controller::new();
    c.pointer_down(p(100, 100));
    c.pointer_move(p(110, 103), true);
    c.pointer_move(p(103, 110), true);
    c.pointer_up();
    assert_eq!(c.scene.strokes.len(), 1);
    assert_eq!(c.scene.strokes[0], vec![p(100, 100), p(110, 100), p(100, 110)]);
    assert!(!c.state.is_dragging);
}

#[test]
fn pointer_move_is_ignored_when_idle() {
    let mut c = Controller::new();
    c.pointer_move(p(10, 10), false);
    assert_eq!(c.scene.strokes.len(), 0);
}

#[test]
fn extend_is_noop_after_stroke_ends() {
    let mut s = Scene::new();
    s.start_stroke(p(1, 1));
    s.extend_active_stroke(p(1, 1));
    s.extend_active_stroke(p(2, 2));
    s.end_active_stroke();
    s.extend_active_stroke(p(9, 9));
    assert_eq!(s.strokes.len(), 1);
    assert_eq!(s.strokes[0], vec![p(1, 1), p(2, 2)]);
}

#[test]
fn clear_is_idempotent_and_keeps_statics() {
    let mut c = Controller::new();
    c.pointer_down(p(10, 10));
    c.pointer_move(p(20, 20), false);
    c.pointer_up();
    assert_eq!(c.scene.strokes.len(), 1);
    c.clear_clicked();
    let after_one: Vec<Vec<Point>> = c.scene.strokes.clone();
    let statics_one = c.scene.static_shapes.len();
    c.clear_clicked();
    assert_eq!(c.scene.strokes, after_one);
    assert!(c.scene.strokes.is_empty());
    assert_eq!(c.scene.static_shapes.len(), statics_one);
    assert_eq!(statics_one, 10);
}

#[test]
fn clear_mid_drag_discards_active_stroke() {
    let mut c = Controller::new();
    c.pointer_down(p(10, 10));
    c.pointer_move(p(20, 20), false);
    c.clear_clicked();
    assert!(c.scene.strokes.is_empty());
    assert!(!c.state.is_dragging);
    // a move after the clear extends nothing
    c.pointer_move(p(30, 30), false);
    assert!(c.scene.strokes.is_empty());
}

#[test]
fn short_stroke_gets_no_draw_call() {
    let mut c = Controller::new();
    c.pointer_down(p(5, 5));
    c.pointer_up();
    assert_eq!(c.scene.strokes.len(), 1);
    assert_eq!(c.scene.strokes[0].len(), 1);
    let calls = c.render_frame(1024);
    assert_eq!(calls.len(), 10);
}

#[test]
fn render_at_design_width_reproduces_authored_coordinates() {
    let c = Controller::new();
    let calls = c.render_frame(1024);
    assert_eq!(calls.len(), 10);
    // the bolt polygon, exactly as authored
    assert_eq!(
        calls[1].path.commands,
        vec![
            PathCommand::MoveTo(p(150, 200)),
            PathCommand::LineTo(p(200, 125)),
            PathCommand::LineTo(p(200, 175)),
            PathCommand::LineTo(p(250, 100)),
            PathCommand::Close,
        ]
    );
    assert_eq!(calls[1].style, Style::Solid { color: 0x1d4ed8 });
    // the star starts at its top point
    assert_eq!(calls[2].path.commands[0], PathCommand::MoveTo(p(350, 100)));
    assert_eq!(calls[2].path.commands.len(), 11);
    assert_eq!(*calls[2].path.commands.last().unwrap(), PathCommand::LineTo(p(350, 100)));
}

#[test]
fn render_at_double_width_doubles_every_coordinate() {
    let c = Controller::new();
    let calls = c.render_frame(2048);
    assert_eq!(calls.len(), 10);
    assert_eq!(calls[1].path.commands[0], PathCommand::MoveTo(p(300, 400)));
    assert_eq!(calls[2].path.commands[0], PathCommand::MoveTo(p(700, 200)));
    let single = c.render_frame(1024);
    for (d, s) in calls.iter().zip(single.iter()) {
        assert_eq!(d.path.commands.len(), s.path.commands.len());
    }
}

#[test]
fn render_at_half_width_halves_coordinates() {
    let c = Controller::new();
    let calls = c.render_frame(512);
    assert_eq!(calls[1].path.commands[0], PathCommand::MoveTo(p(75, 100)));
}

#[test]
fn logo_is_translated_and_scaled_from_its_source() {
    let c = Controller::new();
    let calls = c.render_frame(1024);
    // source (200, 100), translated by (10, 100), shrunk by 9/10
    assert_eq!(calls[0].path.commands[0], PathCommand::MoveTo(p(189, 180)));
    assert_eq!(calls[0].path.commands.len(), 18);
    assert_eq!(calls[0].style, Style::Solid { color: 0x000000 });
}

#[test]
fn pie_wedges_arc_around_shared_center() {
    let c = Controller::new();
    let calls = c.render_frame(1024);
    let colors = [0x1374e9, 0xe13527, 0x0751ce, 0x209742, 0xfbc10a];
    let starts = [p(871, 155), p(747, 63), p(679, 163), p(754, 249), p(854, 210)];
    for k in 0..5 {
        let call = &calls[4 + k];
        assert_eq!(call.style, Style::Solid { color: colors[k] });
        assert_eq!(call.path.commands[0], PathCommand::MoveTo(starts[k]));
        assert_eq!(
            call.path.commands[1],
            PathCommand::ArcTo {
                radii: p(96, 96),
                x_rotation: 0,
                large_arc: false,
                sweep: false,
                to: starts[(k + 1) % 5],
            }
        );
        assert_eq!(call.path.commands[2], PathCommand::LineTo(p(775, 155)));
        assert_eq!(call.path.commands[3], PathCommand::Close);
    }
}

#[test]
fn gradient_styles_are_as_authored() {
    let c = Controller::new();
    let calls = c.render_frame(1024);
    assert_eq!(
        calls[2].style,
        Style::LinearGradient {
            angle_deg: 180,
            stop_a: GradientStop { color: 0xFACC15, position_pm: 700 },
            stop_b: GradientStop { color: 0xD56D0C, position_pm: 1000 },
            space: ColorSpace::Oklab,
        }
    );
    assert_eq!(
        calls[3].style,
        Style::LinearGradient {
            angle_deg: 180,
            stop_a: GradientStop { color: 0x0000ff, position_pm: 400 },
            stop_b: GradientStop { color: 0xff0000, position_pm: 1000 },
            space: ColorSpace::Srgb,
        }
    );
}

#[test]
fn wave_is_a_bevel_stroke_of_fifty_commands() {
    let c = Controller::new();
    let calls = c.render_frame(1024);
    let wave = &calls[9];
    assert_eq!(wave.path.commands.len(), 50);
    assert_eq!(wave.path.commands[0], PathCommand::MoveTo(p(40, 320)));
    assert_eq!(wave.path.commands[1], PathCommand::LineTo(p(50, 298)));
    assert_eq!(wave.path.commands[49], PathCommand::LineTo(p(530, 316)));
    assert_eq!(
        wave.style,
        Style::Stroke { color: 0x000000, width: 1, join: LineJoin::Bevel, dash: None }
    );
}

#[test]
fn dash_toggle_changes_only_stroke_style() {
    let mut c = Controller::new();
    c.pointer_down(p(10, 10));
    c.pointer_move(p(30, 10), false);
    c.pointer_up();
    let solid = c.render_frame(1024);
    c.toggle_dash();
    let dashed = c.render_frame(1024);
    assert_eq!(solid.len(), dashed.len());
    for k in 0..10 {
        assert_eq!(solid[k].path.commands, dashed[k].path.commands);
        assert_eq!(solid[k].style, dashed[k].style);
    }
    assert_eq!(solid[10].path.commands, dashed[10].path.commands);
    assert_eq!(
        solid[10].style,
        Style::Stroke { color: 0x000000, width: 1, join: LineJoin::Miter, dash: None }
    );
    assert_eq!(
        dashed[10].style,
        Style::Stroke {
            color: 0x000000,
            width: 1,
            join: LineJoin::Miter,
            dash: Some(Dash { on: 4, off: 2 }),
        }
    );
    // stored point data is untouched
    assert_eq!(c.scene.strokes[0], vec![p(10, 10), p(30, 10)]);
    c.toggle_dash();
    let again = c.render_frame(1024);
    assert_eq!(again[10].style, solid[10].style);
}

#[test]
fn full_drag_then_clear_end_to_end() {
    let mut c = Controller::new();
    assert!(c.scene.strokes.is_empty());
    c.pointer_down(p(100, 100));
    c.pointer_move(p(140, 100), false);
    c.pointer_up();
    assert_eq!(c.scene.strokes.len(), 1);
    assert!(c.scene.strokes[0].len() >= 2);
    let calls = c.render_frame(1024);
    assert_eq!(calls.len(), 11);
    let ink: &DrawCall = &calls[10];
    assert_eq!(
        ink.path.commands,
        vec![PathCommand::MoveTo(p(100, 100)), PathCommand::LineTo(p(140, 100))]
    );
    // one straight horizontal segment of length 40 at the drawn scale
    match (&ink.path.commands[0], &ink.path.commands[1]) {
        (PathCommand::MoveTo(a), PathCommand::LineTo(b)) => {
            assert_eq!(a.y, b.y);
            assert_eq!((b.x - a.x).abs(), 40);
        }
        _ => panic!("stroke path must be a move followed by a line"),
    }
    c.clear_clicked();
    assert!(c.scene.strokes.is_empty());
    let after = c.render_frame(1024);
    assert_eq!(after.len(), 10);
    for k in 0..10 {
        assert_eq!(after[k].path.commands, calls[k].path.commands);
        assert_eq!(after[k].style, calls[k].style);
    }
}

#[test]
fn polygon_commands_open_and_closed() {
    let vertices = vec![p(0, 0), p(4, 0), p(4, 4)];
    assert_eq!(
        polygon_commands(&vertices, false),
        vec![
            PathCommand::MoveTo(p(0, 0)),
            PathCommand::LineTo(p(4, 0)),
            PathCommand::LineTo(p(4, 4)),
        ]
    );
    assert_eq!(
        polygon_commands(&vertices, true),
        vec![
            PathCommand::MoveTo(p(0, 0)),
            PathCommand::LineTo(p(4, 0)),
            PathCommand::LineTo(p(4, 4)),
            PathCommand::Close,
        ]
    );
    assert!(polygon_commands(&Vec::new(), true).is_empty());
}

#[test]
fn build_path_rejects_insufficient_geometry() {
    assert!(matches!(build_path(vec![]), Err(PathError::InsufficientGeometry)));
    assert!(matches!(
        build_path(vec![PathCommand::MoveTo(p(1, 1))]),
        Err(PathError::InsufficientGeometry)
    ));
    assert!(matches!(
        build_path(vec![PathCommand::MoveTo(p(1, 1)), PathCommand::Close]),
        Err(PathError::InsufficientGeometry)
    ));
    assert!(matches!(
        build_path(vec![PathCommand::LineTo(p(1, 1)), PathCommand::LineTo(p(2, 2))]),
        Err(PathError::InsufficientGeometry)
    ));
}

#[test]
fn build_path_accepts_a_drawable_list() {
    let cmds = vec![PathCommand::MoveTo(p(1, 1)), PathCommand::LineTo(p(2, 2))];
    let path: Path = build_path(cmds.clone()).expect("two points are drawable");
    assert_eq!(path.commands, cmds);
}

#[test]
fn degenerate_repeated_point_stroke_still_renders_without_error() {
    let mut c = Controller::new();
    c.pointer_down(p(7, 7));
    c.pointer_move(p(7, 7), false);
    c.pointer_up();
    let calls = c.render_frame(1024);
    assert_eq!(calls.len(), 11);
    assert_eq!(
        calls[10].path.commands,
        vec![PathCommand::MoveTo(p(7, 7)), PathCommand::LineTo(p(7, 7))]
    );
}

#[test]
fn strokes_render_after_statics_in_insertion_order() {
    let mut c = Controller::new();
    c.pointer_down(p(1, 1));
    c.pointer_move(p(2, 2), false);
    c.pointer_up();
    c.pointer_down(p(5, 5));
    c.pointer_move(p(6, 6), false);
    c.pointer_up();
    let calls = c.render_frame(1024);
    assert_eq!(calls.len(), 12);
    assert_eq!(calls[10].path.commands[0], PathCommand::MoveTo(p(1, 1)));
    assert_eq!(calls[11].path.commands[0], PathCommand::MoveTo(p(5, 5)));
}
