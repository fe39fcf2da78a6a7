//! A second, simpler turtle: it records each drawn stroke as a standalone
//! line segment rather than growing polylines, and serializes them to a
//! plain SVG with one `path` element per segment.
//!
//! It answers to the same `Turtle` command surface as `Canvas`; only its
//! record of the drawing differs. Pen-up motion and teleports relocate the
//! cursor without leaving any mark, and the pen starts up, so a fresh
//! recorder draws nothing until `pen_down()`.

use vstd::prelude::*;
use vstd::string::StringExecFns;
use crate::angle::{Degree, Distance};
use crate::engine::{cur_state, forward_pos, forward_state, with_cur, TurtleState, Turtle};
use crate::geom::{bounds_step, Bounds, Position};
use crate::num::{abs, clip, sat_add, sat_sub};
use crate::render::{fmt_milli, push_milli};

verus! {

/// The mathematical content of a recorder: the stack of cursor states and
/// the recorded line segments in draw order.
pub ghost struct RecorderModel {
    /// Saved cursor states; the last entry is the live one.
    pub states: Seq<TurtleState>,
    /// Recorded line segments, in draw order.
    pub lines: Seq<(Position, Position)>,
}

/// A recorder is well formed when a base cursor state always exists.
pub open spec fn recorder_wf(m: RecorderModel) -> bool {
    m.states.len() >= 1
}

/// The model of a fresh recorder: at the origin, heading up, pen up, no
/// lines.
pub open spec fn recorder_init() -> RecorderModel {
    RecorderModel {
        states: seq![
            TurtleState {
                pos: Position(0, 0),
                angle: Degree(0),
                pendown: false,
            },
        ],
        lines: Seq::empty(),
    }
}

/// The recorder after `forward(d)`: the cursor advances, and while the pen
/// is down the stroke is recorded as one segment.
pub open spec fn rec_forward(m: RecorderModel, d: int) -> RecorderModel {
    let st = cur_state(m.states);
    let dst = forward_pos(st, d);
    RecorderModel {
        states: with_cur(m.states, forward_state(st, d)),
        lines: if st.pendown {
            m.lines.push((st.pos, dst))
        } else {
            m.lines
        },
    }
}

/// The bounding box over both endpoints of every recorded segment.
pub open spec fn lines_bounds(lines: Seq<(Position, Position)>) -> Option<(Position, Position)>
    decreases lines.len(),
{
    if lines.len() == 0 {
        None
    } else {
        bounds_step(bounds_step(lines_bounds(lines.drop_last()), lines.last().0), lines.last().1)
    }
}

/// One SVG `path` element for a recorded segment.
pub open spec fn rec_svg_line(l: (Position, Position)) -> Seq<char> {
    "<path d=\"M"@ + fmt_milli(l.0.0 as int) + " "@ + fmt_milli(l.0.1 as int) + " L"@ + fmt_milli(
        l.1.0 as int,
    ) + " "@ + fmt_milli(l.1.1 as int) + "\" stroke=\"black\" stroke-width=\"1\"/>\n"@
}

/// The SVG elements of all recorded segments, in draw order.
pub open spec fn rec_svg_body(lines: Seq<(Position, Position)>) -> Seq<char>
    decreases lines.len(),
{
    if lines.len() == 0 {
        Seq::<char>::empty()
    } else {
        rec_svg_body(lines.drop_last()) + rec_svg_line(lines.last())
    }
}

/// The complete SVG document for a set of recorded segments. The box of an
/// empty recording collapses to the origin.
pub open spec fn rec_svg_doc(lines: Seq<(Position, Position)>) -> Seq<char> {
    let b = lines_bounds(lines);
    let mm = if b is Some {
        b->Some_0
    } else {
        (Position(0, 0), Position(0, 0))
    };
    let w = clip(abs(mm.1.0 - mm.0.0));
    let h = clip(abs(mm.1.1 - mm.0.1));
    let tlx = clip(mm.0.0 - w / 10);
    let tly = clip(mm.0.1 - h / 10);
    let brx = clip(mm.1.0 + w / 10);
    let bry = clip(mm.1.1 + h / 10);
    "<?xml version=\"1.0\" encoding=\"UTF-8\"?>\n<svg xmlns=\"http://www.w3.org/2000/svg\" version=\"1.1\" baseProfile=\"full\" width=\"100%\" height=\"100%\" viewBox=\""@
        + fmt_milli(tlx) + " "@ + fmt_milli(tly) + " "@ + fmt_milli(clip(brx - tlx)) + " "@
        + fmt_milli(clip(bry - tly)) + "\">\n"@ + rec_svg_body(lines) + "</svg>\n"@
}

/// Append one recorded segment's SVG `path` element to `out`.
fn emit_rec_line(l: (Position, Position), out: &mut String)
    ensures
        final(out)@ == old(out)@ + rec_svg_line(l),
{
    proof {
        reveal_strlit(" ");
        assert(" "@ =~= seq![' ']);
    }
    out.append("<path d=\"M");
    push_milli(l.0.0, out);
    out.append(" ");
    push_milli(l.0.1, out);
    out.append(" L");
    push_milli(l.1.0, out);
    out.append(" ");
    push_milli(l.1.1, out);
    out.append("\" stroke=\"black\" stroke-width=\"1\"/>\n");
    proof {
        assert(final(out)@ =~= old(out)@ + rec_svg_line(l));
    }
}

/// A turtle that records each drawn stroke as a standalone line segment.
pub struct TurtleRecorder {
    states: Vec<TurtleState>,
    lines: Vec<(Position, Position)>,
}

impl View for TurtleRecorder {
    type V = RecorderModel;

    closed spec fn view(&self) -> RecorderModel {
        RecorderModel { states: self.states@, lines: self.lines@ }
    }
}

impl TurtleRecorder {
    /// A fresh recorder: cursor at the origin, heading up, pen up, nothing
    /// drawn.
    pub fn new() -> (t: TurtleRecorder)
        ensures
            t@ == recorder_init(),
            recorder_wf(t@),
    {
        let init_state = TurtleState {
            pos: Position::origin(),
            angle: Degree(0),
            pendown: false,
        };
        let mut states: Vec<TurtleState> = Vec::new();
        states.push(init_state);
        let t = TurtleRecorder { states, lines: Vec::new() };
        proof {
            assert(t@.states =~= recorder_init().states);
            assert(t@.lines =~= recorder_init().lines);
        }
        t
    }

    /// The recorded segments, in draw order.
    pub fn lines(&self) -> (r: &Vec<(Position, Position)>)
        ensures
            r@ == self@.lines,
    {
        &self.lines
    }

    /// The live cursor state.
    pub fn current_state(&self) -> (st: TurtleState)
        requires
            self@.states.len() >= 1,
        ensures
            st == cur_state(self@.states),
    {
        let n = self.states.len();
        self.states[n - 1]
    }

    /// Replace the live cursor state.
    fn set_current_state(&mut self, st: TurtleState)
        requires
            old(self)@.states.len() >= 1,
        ensures
            final(self)@.states == with_cur(old(self)@.states, st),
            final(self)@.lines == old(self)@.lines,
    {
        let _top = self.states.pop();
        self.states.push(st);
        proof {
            assert(final(self)@.states =~= with_cur(old(self)@.states, st));
        }
    }

    /// The displacement of a move of `distance` at the current heading.
    fn direction(&self, distance: Distance) -> (r: (i64, i64))
        requires
            self@.states.len() >= 1,
        ensures
            r.0 == crate::engine::disp_x(cur_state(self@.states).angle.0 as int, distance.0 as int),
            r.1 == crate::engine::disp_y(cur_state(self@.states).angle.0 as int, distance.0 as int),
    {
        let st = self.current_state();
        let s = crate::angle::sin_mdeg(st.angle.0);
        let c = crate::angle::cos_mdeg(st.angle.0);
        let dx = crate::num::mul_div_trunc(-s, distance.0, 1000);
        let dy = crate::num::mul_div_trunc(c, distance.0, 1000);
        (dx, dy)
    }

    /// The recording as a complete SVG document: one `path` element per
    /// drawn segment, inside a viewport that covers every segment with a
    /// tenth of the drawing's extent as a border.
    pub fn save_as_svg(&self) -> (out: String)
        ensures
            out@ == rec_svg_doc(self@.lines),
    {
        let ghost lv = self@.lines;
        let mut b = Bounds::new();
        let n = self.lines.len();
        assert(lv.take(0) =~= Seq::<(Position, Position)>::empty());
        for i in 0..n
            invariant
                n == self.lines.len(),
                lv == self@.lines,
                b@ == lines_bounds(lv.take(i as int)),
        {
            let (src, dst) = self.lines[i];
            b.add_position(src);
            b.add_position(dst);
            proof {
                assert(lv.take(i as int + 1).drop_last() =~= lv.take(i as int));
                assert(b@ == lines_bounds(lv.take(i as int + 1)));
            }
        }
        proof {
            assert(lv.take(n as int) =~= lv);
        }
        let (mn, mx) = if b.is_bounded() {
            (
                Position(b.min_x(), b.min_y()),
                Position(b.max_x(), b.max_y()),
            )
        } else {
            (Position::origin(), Position::origin())
        };
        let w = if mx.0 >= mn.0 {
            sat_sub(mx.0, mn.0)
        } else {
            sat_sub(mn.0, mx.0)
        };
        let h = if mx.1 >= mn.1 {
            sat_sub(mx.1, mn.1)
        } else {
            sat_sub(mn.1, mx.1)
        };
        let bw: i64 = ((w as u64) / 10) as i64;
        let bh: i64 = ((h as u64) / 10) as i64;
        let tlx = sat_sub(mn.0, bw);
        let tly = sat_sub(mn.1, bh);
        let brx = sat_add(mx.0, bw);
        let bry = sat_add(mx.1, bh);
        let mut out = String::new();
        proof {
            reveal_strlit(" ");
            assert(" "@ =~= seq![' ']);
        }
        out.append(
            "<?xml version=\"1.0\" encoding=\"UTF-8\"?>\n<svg xmlns=\"http://www.w3.org/2000/svg\" version=\"1.1\" baseProfile=\"full\" width=\"100%\" height=\"100%\" viewBox=\"",
        );
        push_milli(tlx, &mut out);
        out.append(" ");
        push_milli(tly, &mut out);
        out.append(" ");
        push_milli(sat_sub(brx, tlx), &mut out);
        out.append(" ");
        push_milli(sat_sub(bry, tly), &mut out);
        out.append("\">\n");
        let ghost header = out@;
        assert(lv.take(0) =~= Seq::<(Position, Position)>::empty());
        for i in 0..n
            invariant
                n == self.lines.len(),
                lv == self@.lines,
                out@ == header + rec_svg_body(lv.take(i as int)),
        {
            let line = self.lines[i];
            emit_rec_line(line, &mut out);
            proof {
                assert(lv.take(i as int + 1).drop_last() =~= lv.take(i as int));
                assert(out@ =~= header + rec_svg_body(lv.take(i as int + 1)));
            }
        }
        out.append("</svg>\n");
        proof {
            assert(lv.take(n as int) =~= lv);
            assert(out@ =~= rec_svg_doc(lv));
        }
        out
    }
}

impl Turtle for TurtleRecorder {
    open spec fn inv(&self) -> bool {
        recorder_wf(self@)
    }

    open spec fn states(&self) -> Seq<TurtleState> {
        self@.states
    }

    fn forward(&mut self, distance: Distance)
        ensures
            final(self)@ == rec_forward(old(self)@, distance.0 as int),
    {
        let (dx, dy) = self.direction(distance);
        let st = self.current_state();
        let dst = Position(sat_add(st.pos.0, dx), sat_add(st.pos.1, dy));
        if st.pendown {
            self.lines.push((st.pos, dst));
        }
        self.set_current_state(TurtleState { pos: dst, ..st });
    }

    fn backward(&mut self, distance: Distance)
        ensures
            final(self)@ == rec_forward(old(self)@, clip(-distance.0)),
    {
        self.forward(distance.neg())
    }

    fn move_forward(&mut self, distance: Distance)
        ensures
            final(self)@.lines == old(self)@.lines,
    {
        let (dx, dy) = self.direction(distance);
        let st = self.current_state();
        let dst = Position(sat_add(st.pos.0, dx), sat_add(st.pos.1, dy));
        self.set_current_state(TurtleState { pos: dst, ..st });
    }

    fn rotate(&mut self, angle: Degree)
        ensures
            final(self)@.lines == old(self)@.lines,
    {
        let st = self.current_state();
        self.set_current_state(
            TurtleState { angle: Degree(st.angle.0.wrapping_add(angle.0)), ..st },
        );
    }

    fn right(&mut self, angle: Degree)
        ensures
            final(self)@.lines == old(self)@.lines,
    {
        self.rotate(angle.neg())
    }

    fn left(&mut self, angle: Degree)
        ensures
            final(self)@.lines == old(self)@.lines,
    {
        self.rotate(angle)
    }

    fn home(&mut self)
        ensures
            final(self)@.lines == old(self)@.lines,
    {
        self.goto(Position::origin())
    }

    fn is_pen_down(&self) -> (r: bool) {
        self.current_state().pendown
    }

    fn pen_down(&mut self)
        ensures
            final(self)@.lines == old(self)@.lines,
    {
        let st = self.current_state();
        self.set_current_state(TurtleState { pendown: true, ..st });
    }

    fn pen_up(&mut self)
        ensures
            final(self)@.lines == old(self)@.lines,
    {
        let st = self.current_state();
        self.set_current_state(TurtleState { pendown: false, ..st });
    }

    fn goto(&mut self, pos: Position)
        ensures
            final(self)@.lines == old(self)@.lines,
    {
        let st = self.current_state();
        self.set_current_state(TurtleState { pos, ..st });
    }

    fn push(&mut self)
        ensures
            final(self)@.lines == old(self)@.lines,
            final(self)@.states == old(self)@.states.push(cur_state(old(self)@.states)),
    {
        let st = self.current_state();
        self.states.push(st);
    }

    fn pop(&mut self) -> (r: bool)
        ensures
            final(self)@.lines == old(self)@.lines,
            r ==> final(self)@.states == old(self)@.states.drop_last(),
            !r ==> final(self)@ == old(self)@,
    {
        if self.states.len() <= 1 {
            return false;
        }
        let _top = self.states.pop();
        true
    }
}

} // verus!
