use turtle_graphics::angle::{Degree, Distance};
use turtle_graphics::engine::{Canvas, Turtle};
use turtle_graphics::recorder::TurtleRecorder;

/// One drawing unit in milli-units.
const UNIT: i64 = 1000;

#[test]
fn empty_canvas_svg_has_minimum_viewport_and_no_strokes() {
    let c = Canvas::new();
    let svg = c.save_svg();
    let expected = "<?xml version=\"1.0\" encoding=\"UTF-8\"?>\n<svg xmlns=\"http://www.w3.org/2000/svg\" version=\"1.1\" baseProfile=\"full\" viewBox=\"-10.000 -10.000 120.000 120.000\">\n<g stroke=\"black\" stroke-width=\"0.120\" fill=\"none\">\n</g>\n</svg>\n";
    assert_eq!(svg, expected);
}

#[test]
fn square_corner_svg_round_trip() {
    let mut c = Canvas::new();
    c.pen_down();
    c.forward(Distance(100 * UNIT));
    c.right(Degree(90_000));
    c.forward(Distance(100 * UNIT));
    let svg = c.save_svg();
    assert_eq!(svg.matches("<path").count(), 1);
    assert!(svg.contains("d=\"M0.000 0.000 L0.000 -100.000 L100.000 -100.000\""));
    assert!(svg.contains("viewBox=\"-10.000 -110.000 120.000 120.000\""));
    assert!(svg.contains("stroke-width=\"0.120\""));
}

#[test]
fn empty_canvas_eps_declares_minimum_viewport() {
    let c = Canvas::new();
    let eps = c.save_eps();
    let expected = "%%!PS-Adobe-3.0 EPSF-3.0\n%%BoundingBox: -10.000 -10.000 110.000 110.000\n%%LanguageLevel: 2\n%%Pages: 1\n%%Page: 1 1\n0.120 setlinewidth\n%%EOF\n";
    assert_eq!(eps, expected);
}

#[test]
fn one_stroke_eps_document() {
    let mut c = Canvas::new();
    c.pen_down();
    c.forward(Distance(100 * UNIT));
    let eps = c.save_eps();
    let expected = "%%!PS-Adobe-3.0 EPSF-3.0\n%%BoundingBox: -10.000 -10.000 110.000 110.000\n%%LanguageLevel: 2\n%%Pages: 1\n%%Page: 1 1\n0.120 setlinewidth\nnewpath\n  0.000 0.000 moveto\n  0.000 100.000 lineto\nstroke\n%%EOF\n";
    assert_eq!(eps, expected);
}

#[test]
fn single_point_paths_emit_nothing() {
    let mut c = Canvas::new();
    c.pen_up();
    c.goto(turtle_graphics::geom::Position(40 * UNIT, 40 * UNIT));
    c.goto(turtle_graphics::geom::Position(-40 * UNIT, 0));
    let svg = c.save_svg();
    assert_eq!(svg.matches("<path").count(), 0);
    let eps = c.save_eps();
    assert_eq!(eps.matches("newpath").count(), 0);
}

#[test]
fn negative_coordinates_are_formatted_with_sign_and_milli_digits() {
    let mut c = Canvas::new();
    c.pen_up();
    c.goto(turtle_graphics::geom::Position(-1_500, 250));
    c.pen_down();
    c.forward(Distance(200 * UNIT));
    let eps = c.save_eps();
    assert!(eps.contains("  -1.500 0.250 moveto\n"));
    assert!(eps.contains("  -1.500 200.250 lineto\n"));
}

#[test]
fn wide_drawing_dominates_the_viewport() {
    let mut c = Canvas::new();
    c.pen_down();
    c.right(Degree(90_000));
    c.forward(Distance(500 * UNIT));
    let svg = c.save_svg();
    // Width 500 padded to 600; height falls back to the 100-unit minimum.
    assert!(svg.contains("viewBox=\"-50.000 -10.000 600.000 120.000\""));
    assert!(svg.contains("stroke-width=\"0.600\""));
}

#[test]
fn empty_recorder_svg_collapses_to_origin_box() {
    let t = TurtleRecorder::new();
    let svg = t.save_as_svg();
    let expected = "<?xml version=\"1.0\" encoding=\"UTF-8\"?>\n<svg xmlns=\"http://www.w3.org/2000/svg\" version=\"1.1\" baseProfile=\"full\" width=\"100%\" height=\"100%\" viewBox=\"0.000 0.000 0.000 0.000\">\n</svg>\n";
    assert_eq!(svg, expected);
}

#[test]
fn recorder_square_emits_four_segments() {
    let mut t = TurtleRecorder::new();
    assert!(t.is_pen_up());
    t.pen_down();
    for _ in 0..4 {
        t.forward(Distance(10 * UNIT));
        t.right(Degree(90_000));
    }
    assert_eq!(t.lines().len(), 4);
    let svg = t.save_as_svg();
    assert_eq!(svg.matches("<path").count(), 4);
    assert!(svg.contains("<path d=\"M0.000 0.000 L0.000 10.000\" stroke=\"black\" stroke-width=\"1\"/>\n"));
    assert!(svg.contains("viewBox=\"-1.000 -1.000 12.000 12.000\""));
}

#[test]
fn recorder_pen_up_motion_leaves_no_mark() {
    let mut t = TurtleRecorder::new();
    t.forward(Distance(30 * UNIT));
    t.goto(turtle_graphics::geom::Position(5 * UNIT, 5 * UNIT));
    assert!(t.lines().is_empty());
}
