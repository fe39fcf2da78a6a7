use turtle_graphics::angle::{Degree, Distance};
use turtle_graphics::engine::{Canvas, Turtle};
use turtle_graphics::geom::Position;

/// One drawing unit in milli-units.
const UNIT: i64 = 1000;

#[test]
fn new_canvas_defaults() {
    let c = Canvas::new();
    assert!(c.is_pen_down());
    assert!(!c.is_pen_up());
    let st = c.current_state();
    assert_eq!(st.pos, Position(0, 0));
    assert_eq!(st.angle, Degree(0));
    assert!(st.pendown);
    let paths = c.paths();
    assert_eq!(paths.len(), 1);
    assert_eq!(paths[0], vec![Position(0, 0)]);
}

#[test]
fn forward_draws_up() {
    let mut c = Canvas::new();
    c.forward(Distance(UNIT));
    assert_eq!(c.current_state().pos, Position(0, UNIT));
    let paths = c.paths();
    assert_eq!(paths.len(), 1);
    assert_eq!(paths[0], vec![Position(0, 0), Position(0, UNIT)]);
}

#[test]
fn backward_draws_down() {
    let mut c = Canvas::new();
    c.backward(Distance(UNIT));
    assert_eq!(c.current_state().pos, Position(0, -UNIT));
    assert_eq!(c.paths()[0], vec![Position(0, 0), Position(0, -UNIT)]);
}

#[test]
fn right_turn_heads_toward_positive_x() {
    let mut c = Canvas::new();
    c.right(Degree(90_000));
    assert_eq!(c.current_state().angle, Degree(-90_000));
    c.forward(Distance(UNIT));
    assert_eq!(c.current_state().pos, Position(UNIT, 0));
}

#[test]
fn left_turn_heads_toward_negative_x() {
    let mut c = Canvas::new();
    c.left(Degree(90_000));
    assert_eq!(c.current_state().angle, Degree(90_000));
    c.forward(Distance(UNIT));
    assert_eq!(c.current_state().pos, Position(-UNIT, 0));
}

#[test]
fn left_then_right_restores_heading() {
    let mut c = Canvas::new();
    c.left(Degree(12_345));
    c.right(Degree(12_345));
    assert_eq!(c.current_state().angle, Degree(0));
    c.rotate(Degree(7_000));
    c.left(Degree(i64::MAX));
    c.right(Degree(i64::MAX));
    assert_eq!(c.current_state().angle, Degree(7_000));
}

#[test]
fn push_then_pop_restores_state() {
    let mut c = Canvas::new();
    c.forward(Distance(3 * UNIT));
    c.left(Degree(45_000));
    c.pen_up();
    let before = c.current_state();
    c.push();
    c.forward(Distance(10 * UNIT));
    c.rotate(Degree(90_000));
    c.pen_down();
    assert!(c.pop());
    assert_eq!(c.current_state(), before);
}

#[test]
fn pop_underflow_reports_and_changes_nothing() {
    let mut c = Canvas::new();
    let before = c.current_state();
    assert!(!c.pop());
    assert_eq!(c.current_state(), before);
    assert_eq!(c.paths().len(), 1);
}

#[test]
fn two_relocations_leave_one_anchor() {
    let mut c = Canvas::new();
    c.pen_up();
    c.goto(Position(5 * UNIT, 0));
    c.goto(Position(7 * UNIT, UNIT));
    let paths = c.paths();
    assert_eq!(paths.len(), 1);
    assert_eq!(paths[0], vec![Position(7 * UNIT, UNIT)]);
}

#[test]
fn relocation_seals_a_drawn_path() {
    let mut c = Canvas::new();
    c.pen_down();
    c.forward(Distance(10 * UNIT));
    c.pen_up();
    c.goto(Position(20 * UNIT, 20 * UNIT));
    let paths = c.paths();
    assert_eq!(paths.len(), 2);
    assert_eq!(paths[0].len(), 2);
    assert_eq!(paths[1], vec![Position(20 * UNIT, 20 * UNIT)]);
}

#[test]
fn move_forward_never_draws() {
    let mut c = Canvas::new();
    c.move_forward(Distance(4 * UNIT));
    assert_eq!(c.current_state().pos, Position(0, 4 * UNIT));
    let paths = c.paths();
    assert_eq!(paths.len(), 1);
    assert_eq!(paths[0], vec![Position(0, 4 * UNIT)]);
}

#[test]
fn pen_down_anchors_at_current_position() {
    let mut c = Canvas::new();
    c.pen_up();
    c.forward(Distance(5 * UNIT));
    c.pen_down();
    c.forward(Distance(UNIT));
    let paths = c.paths();
    assert_eq!(paths.len(), 1);
    assert_eq!(paths[0], vec![Position(0, 5 * UNIT), Position(0, 6 * UNIT)]);
}

#[test]
fn goto_never_draws_even_pen_down() {
    let mut c = Canvas::new();
    c.pen_down();
    c.forward(Distance(UNIT));
    c.goto(Position(9 * UNIT, 9 * UNIT));
    let paths = c.paths();
    assert_eq!(paths.len(), 2);
    assert_eq!(paths[1], vec![Position(9 * UNIT, 9 * UNIT)]);
    assert_eq!(c.current_state().pos, Position(9 * UNIT, 9 * UNIT));
}

#[test]
fn home_teleports_to_origin() {
    let mut c = Canvas::new();
    c.pen_up();
    c.goto(Position(3 * UNIT, -2 * UNIT));
    c.home();
    assert_eq!(c.current_state().pos, Position(0, 0));
}

#[test]
fn drawn_length_is_sum_of_distances() {
    let mut c = Canvas::new();
    c.forward(Distance(2 * UNIT));
    c.backward(Distance(UNIT / 2));
    c.right(Degree(90_000));
    c.forward(Distance(3 * UNIT));
    let paths = c.paths();
    assert_eq!(paths.len(), 1);
    let pts = &paths[0];
    let mut total: i64 = 0;
    for w in pts.windows(2) {
        total += (w[1].0 - w[0].0).abs() + (w[1].1 - w[0].1).abs();
    }
    assert_eq!(total, 2 * UNIT + UNIT / 2 + 3 * UNIT);
}

#[test]
fn pop_relocates_anchor_after_drawing() {
    let mut c = Canvas::new();
    c.push();
    c.forward(Distance(UNIT));
    assert!(c.pop());
    let paths = c.paths();
    assert_eq!(paths.len(), 2);
    assert_eq!(paths[1], vec![Position(0, 0)]);
    assert_eq!(c.current_state().pos, Position(0, 0));
}
