//! The turtle engine: cursor state, the command surface, and the canvas.
//!
//! The heading convention, fixed once for the whole crate: a heading of zero
//! points up (toward positive y), and a positive rotation turns left
//! (counterclockwise), so a move of `d` at heading `a` displaces by
//! `(-sin a, cos a) * d`.
//!
//! The canvas records polylines ("paths") under the move-or-line policy:
//! a pen-down move appends a point to the current path; a pen-up relocation
//! either starts a new path at the target (if the current path has already
//! drawn a line, sealing it) or slides the current path's sole anchor point
//! to the target.

use vstd::prelude::*;
use crate::angle::{cos_mdeg, cos_mdeg_spec, sin_mdeg, sin_mdeg_spec, Degree, Distance};
use crate::geom::Position;
use crate::num::{clip, div_trunc, mul_div_trunc, sat_add};

verus! {

/// The cursor's full state: where it is, which way it points, and whether
/// motion draws.
#[derive(Clone, Copy, Debug, PartialEq, Eq, Structural)]
pub struct TurtleState {
    /// Where the cursor stands.
    pub pos: Position,
    /// The heading, in millidegrees; zero points up, growing leftward.
    pub angle: Degree,
    /// Whether motion draws a line.
    pub pendown: bool,
}

/// The mathematical content of a canvas: the stack of cursor states (the
/// last entry is current) and the recorded polylines in draw order.
pub ghost struct CanvasModel {
    /// Saved cursor states; the last entry is the live one.
    pub states: Seq<TurtleState>,
    /// Recorded polylines, in insertion (= draw) order.
    pub paths: Seq<Seq<Position>>,
}

/// The live cursor state: the top of the stack.
pub open spec fn cur_state(states: Seq<TurtleState>) -> TurtleState {
    states.last()
}

/// The stack with its top replaced.
pub open spec fn with_cur(states: Seq<TurtleState>, st: TurtleState) -> Seq<TurtleState> {
    states.update(states.len() - 1, st)
}

/// Horizontal displacement of a move of `d` milli-units at heading `a`
/// millidegrees.
pub open spec fn disp_x(a: int, d: int) -> int {
    clip(div_trunc(-sin_mdeg_spec(a) * d, 1000))
}

/// Vertical displacement of a move of `d` milli-units at heading `a`
/// millidegrees.
pub open spec fn disp_y(a: int, d: int) -> int {
    clip(div_trunc(cos_mdeg_spec(a) * d, 1000))
}

/// Where a move of `d` milli-units lands from state `st`.
pub open spec fn forward_pos(st: TurtleState, d: int) -> Position {
    Position(
        clip(st.pos.0 + disp_x(st.angle.0 as int, d)) as i64,
        clip(st.pos.1 + disp_y(st.angle.0 as int, d)) as i64,
    )
}

/// The cursor after a move of `d` milli-units: only the position changes.
pub open spec fn forward_state(st: TurtleState, d: int) -> TurtleState {
    TurtleState { pos: forward_pos(st, d), ..st }
}

/// The cursor after a rotation by `a` millidegrees: the heading grows by
/// `a`, wrapping at the `i64` range.
pub open spec fn rotate_state(st: TurtleState, a: i64) -> TurtleState {
    TurtleState { angle: Degree(vstd::wrapping::i64_specs::wrapping_add(st.angle.0, a)), ..st }
}

/// The cursor with the pen set.
pub open spec fn pen_state(st: TurtleState, down: bool) -> TurtleState {
    TurtleState { pendown: down, ..st }
}

/// The cursor teleported to `p`.
pub open spec fn goto_state(st: TurtleState, p: Position) -> TurtleState {
    TurtleState { pos: p, ..st }
}

/// The move-or-line policy's pen-up relocation: seal a path that has drawn
/// a line and open a fresh one at `p`, or slide a pristine path's sole
/// anchor to `p`.
pub open spec fn move_to_paths(paths: Seq<Seq<Position>>, p: Position) -> Seq<Seq<Position>> {
    if paths.len() == 0 {
        seq![seq![p]]
    } else if paths.last().len() > 1 {
        paths.push(seq![p])
    } else {
        paths.update(paths.len() - 1, seq![p])
    }
}

/// The move-or-line policy's pen-down stroke: extend the current path to
/// `p`.
pub open spec fn line_to_paths(paths: Seq<Seq<Position>>, p: Position) -> Seq<Seq<Position>> {
    if paths.len() == 0 {
        paths
    } else {
        paths.update(paths.len() - 1, paths.last().push(p))
    }
}

/// A canvas is well formed when a base cursor state always exists, every
/// recorded path holds at least its anchor point, and, while the pen is
/// down, the current path ends at the cursor (so the next stroke continues
/// from where the cursor stands).
pub open spec fn canvas_wf(m: CanvasModel) -> bool {
    &&& m.states.len() >= 1
    &&& m.paths.len() >= 1
    &&& (forall|i: int| 0 <= i < m.paths.len() ==> #[trigger] m.paths[i].len() >= 1)
    &&& (cur_state(m.states).pendown ==> m.paths.last().last() == cur_state(m.states).pos)
}

/// The model of a freshly built canvas: pen down at the origin, heading
/// up, one path holding the single anchor point.
pub open spec fn canvas_init() -> CanvasModel {
    CanvasModel {
        states: seq![
            TurtleState {
                pos: Position(0, 0),
                angle: Degree(0),
                pendown: true,
            },
        ],
        paths: seq![seq![Position(0, 0)]],
    }
}

/// The canvas after `forward(d)`: the cursor advances, and while the pen
/// is down the current path is extended to the new position.
pub open spec fn spec_forward(m: CanvasModel, d: int) -> CanvasModel {
    let st = cur_state(m.states);
    let dst = forward_pos(st, d);
    CanvasModel {
        states: with_cur(m.states, forward_state(st, d)),
        paths: if st.pendown {
            line_to_paths(m.paths, dst)
        } else {
            m.paths
        },
    }
}

/// The canvas after `move_forward(d)`: the cursor advances and the anchor
/// is relocated; nothing is drawn, whatever the pen says.
pub open spec fn spec_move_forward(m: CanvasModel, d: int) -> CanvasModel {
    let st = cur_state(m.states);
    let dst = forward_pos(st, d);
    CanvasModel {
        states: with_cur(m.states, forward_state(st, d)),
        paths: move_to_paths(m.paths, dst),
    }
}

/// The canvas after `rotate(a)`: only the heading changes.
pub open spec fn spec_rotate(m: CanvasModel, a: i64) -> CanvasModel {
    CanvasModel { states: with_cur(m.states, rotate_state(cur_state(m.states), a)), ..m }
}

/// The canvas after `pen_down()`: the pen flag is set and a fresh anchor is
/// opened at the cursor, so the next stroke starts exactly here.
pub open spec fn spec_pen_down(m: CanvasModel) -> CanvasModel {
    CanvasModel {
        states: with_cur(m.states, pen_state(cur_state(m.states), true)),
        paths: move_to_paths(m.paths, cur_state(m.states).pos),
    }
}

/// The canvas after `pen_up()`: only the pen flag is cleared.
pub open spec fn spec_pen_up(m: CanvasModel) -> CanvasModel {
    CanvasModel { states: with_cur(m.states, pen_state(cur_state(m.states), false)), ..m }
}

/// The canvas after `goto(p)`: the cursor teleports and the anchor is
/// relocated; no line is drawn, whatever the pen says.
pub open spec fn spec_goto(m: CanvasModel, p: Position) -> CanvasModel {
    CanvasModel {
        states: with_cur(m.states, goto_state(cur_state(m.states), p)),
        paths: move_to_paths(m.paths, p),
    }
}

/// The canvas after `push()`: the current state is duplicated on the stack.
pub open spec fn spec_push(m: CanvasModel) -> CanvasModel {
    CanvasModel { states: m.states.push(cur_state(m.states)), ..m }
}

/// The canvas after a successful `pop()`: the top state is discarded and
/// the anchor is relocated to the restored position.
pub open spec fn spec_pop(m: CanvasModel) -> CanvasModel {
    let rest = m.states.drop_last();
    CanvasModel { states: rest, paths: move_to_paths(m.paths, cur_state(rest).pos) }
}

/// The command surface shared by every turtle: relative motion, rotation,
/// pen control, teleports, and a stack of saved cursor states.
///
/// Each implementation exposes its cursor-state stack as `states()` (the
/// last entry is current) and an invariant `inv()` that every command
/// preserves; the contracts below pin down exactly how each command moves
/// the cursor.
pub trait Turtle: Sized {
    /// The implementation's well-formedness; every command keeps it.
    spec fn inv(&self) -> bool;

    /// The stack of saved cursor states; the last entry is the live one.
    spec fn states(&self) -> Seq<TurtleState>;

    /// Move forward by `distance`; while the pen is down, the motion draws.
    fn forward(&mut self, distance: Distance)
        requires
            old(self).inv(),
        ensures
            final(self).inv(),
            final(self).states() == with_cur(
                old(self).states(),
                forward_state(cur_state(old(self).states()), distance.0 as int),
            ),
    ;

    /// Move backward by `distance`: forward by the opposite distance.
    fn backward(&mut self, distance: Distance)
        requires
            old(self).inv(),
        ensures
            final(self).inv(),
            final(self).states() == with_cur(
                old(self).states(),
                forward_state(cur_state(old(self).states()), clip(-distance.0)),
            ),
    {
        self.forward(distance.neg())
    }

    /// Move forward by `distance` without drawing, whatever the pen says.
    fn move_forward(&mut self, distance: Distance)
        requires
            old(self).inv(),
        ensures
            final(self).inv(),
            final(self).states() == with_cur(
                old(self).states(),
                forward_state(cur_state(old(self).states()), distance.0 as int),
            ),
    ;

    /// Rotate by `angle`: positive turns left, negative turns right.
    fn rotate(&mut self, angle: Degree)
        requires
            old(self).inv(),
        ensures
            final(self).inv(),
            final(self).states() == with_cur(
                old(self).states(),
                rotate_state(cur_state(old(self).states()), angle.0),
            ),
    ;

    /// Turn right by `angle`: rotate by its opposite.
    fn right(&mut self, angle: Degree)
        requires
            old(self).inv(),
        ensures
            final(self).inv(),
            final(self).states() == with_cur(
                old(self).states(),
                rotate_state(cur_state(old(self).states()), clip(-angle.0) as i64),
            ),
    {
        self.rotate(angle.neg())
    }

    /// Turn left by `angle`: the positive rotation.
    fn left(&mut self, angle: Degree)
        requires
            old(self).inv(),
        ensures
            final(self).inv(),
            final(self).states() == with_cur(
                old(self).states(),
                rotate_state(cur_state(old(self).states()), angle.0),
            ),
    {
        self.rotate(angle)
    }

    /// Whether the pen is down.
    fn is_pen_down(&self) -> (r: bool)
        requires
            self.inv(),
        ensures
            r == cur_state(self.states()).pendown,
    ;

    /// Whether the pen is up.
    fn is_pen_up(&self) -> (r: bool)
        requires
            self.inv(),
        ensures
            r == !cur_state(self.states()).pendown,
    {
        !self.is_pen_down()
    }

    /// Put the pen down: subsequent motion draws.
    fn pen_down(&mut self)
        requires
            old(self).inv(),
        ensures
            final(self).inv(),
            final(self).states() == with_cur(
                old(self).states(),
                pen_state(cur_state(old(self).states()), true),
            ),
    ;

    /// Lift the pen: subsequent motion relocates without drawing.
    fn pen_up(&mut self)
        requires
            old(self).inv(),
        ensures
            final(self).inv(),
            final(self).states() == with_cur(
                old(self).states(),
                pen_state(cur_state(old(self).states()), false),
            ),
    ;

    /// Teleport to `pos`; never draws, whatever the pen says.
    fn goto(&mut self, pos: Position)
        requires
            old(self).inv(),
        ensures
            final(self).inv(),
            final(self).states() == with_cur(
                old(self).states(),
                goto_state(cur_state(old(self).states()), pos),
            ),
    ;

    /// Teleport to the origin.
    fn home(&mut self)
        requires
            old(self).inv(),
        ensures
            final(self).inv(),
            final(self).states() == with_cur(
                old(self).states(),
                goto_state(cur_state(old(self).states()), Position(0, 0)),
            ),
    {
        self.goto(Position::origin())
    }

    /// Duplicate the current cursor state on top of the stack.
    fn push(&mut self)
        requires
            old(self).inv(),
        ensures
            final(self).inv(),
            final(self).states() == old(self).states().push(cur_state(old(self).states())),
    ;

    /// Discard the top cursor state so the previously saved one becomes
    /// current again. The base state cannot be popped: with nothing saved
    /// the call changes nothing and reports the underflow by returning
    /// `false`.
    fn pop(&mut self) -> (r: bool)
        requires
            old(self).inv(),
        ensures
            final(self).inv(),
            r == (old(self).states().len() > 1),
            r ==> final(self).states() == old(self).states().drop_last(),
            !r ==> final(self).states() == old(self).states(),
    ;
}

/// A turtle that records its drawing as polylines, ready to be serialized
/// to SVG or EPS.
pub struct Canvas {
    states: Vec<TurtleState>,
    paths: Vec<Vec<Position>>,
}

impl View for Canvas {
    type V = CanvasModel;

    closed spec fn view(&self) -> CanvasModel {
        CanvasModel {
            states: self.states@,
            paths: self.paths@.map_values(|p: Vec<Position>| p@),
        }
    }
}

impl Canvas {
    /// A fresh canvas: cursor at the origin, heading up, pen down, and one
    /// pristine path anchored at the origin.
    pub fn new() -> (c: Canvas)
        ensures
            c@ == canvas_init(),
            canvas_wf(c@),
    {
        let init_state = TurtleState {
            pos: Position::origin(),
            angle: Degree(0),
            pendown: true,
        };
        let mut states: Vec<TurtleState> = Vec::new();
        states.push(init_state);
        let mut first_path: Vec<Position> = Vec::new();
        first_path.push(Position::origin());
        let mut paths: Vec<Vec<Position>> = Vec::new();
        paths.push(first_path);
        let c = Canvas { states, paths };
        proof {
            assert(c@.states =~= canvas_init().states);
            assert(c@.paths =~= canvas_init().paths);
        }
        c
    }

    /// The recorded polylines, in draw order.
    pub fn paths(&self) -> (r: &Vec<Vec<Position>>)
        ensures
            r@.map_values(|p: Vec<Position>| p@) == self@.paths,
    {
        &self.paths
    }

    /// The live cursor state.
    pub fn current_state(&self) -> (st: TurtleState)
        requires
            self@.states.len() >= 1,
        ensures
            st == cur_state(self@.states),
    {
        let n = self.states.len();
        self.states[n - 1]
    }

    /// Replace the live cursor state.
    fn set_current_state(&mut self, st: TurtleState)
        requires
            old(self)@.states.len() >= 1,
        ensures
            final(self)@.states == with_cur(old(self)@.states, st),
            final(self)@.paths == old(self)@.paths,
    {
        let _top = self.states.pop();
        self.states.push(st);
        proof {
            assert(final(self)@.states =~= with_cur(old(self)@.states, st));
        }
    }

    /// The displacement of a move of `distance` at the current heading.
    fn direction(&self, distance: Distance) -> (r: (i64, i64))
        requires
            self@.states.len() >= 1,
        ensures
            r.0 == disp_x(cur_state(self@.states).angle.0 as int, distance.0 as int),
            r.1 == disp_y(cur_state(self@.states).angle.0 as int, distance.0 as int),
    {
        let st = self.current_state();
        let s = sin_mdeg(st.angle.0);
        let c = cos_mdeg(st.angle.0);
        let dx = mul_div_trunc(-s, distance.0, 1000);
        let dy = mul_div_trunc(c, distance.0, 1000);
        (dx, dy)
    }

    /// Extend the current path to `dst` (a drawn line).
    fn line_to(&mut self, dst: Position)
        requires
            old(self)@.paths.len() >= 1,
        ensures
            final(self)@.paths == line_to_paths(old(self)@.paths, dst),
            final(self)@.states == old(self)@.states,
    {
        let mut last = self.paths.pop().unwrap();
        last.push(dst);
        self.paths.push(last);
        proof {
            assert(final(self)@.paths =~= line_to_paths(old(self)@.paths, dst));
        }
    }

    /// Relocate the anchor to `dst` under the move-or-line policy (a pen-up
    /// relocation).
    fn move_to(&mut self, dst: Position)
        ensures
            final(self)@.paths == move_to_paths(old(self)@.paths, dst),
            final(self)@.states == old(self)@.states,
    {
        let n = self.paths.len();
        if n == 0 {
            let mut fresh: Vec<Position> = Vec::new();
            fresh.push(dst);
            self.paths.push(fresh);
            proof {
                assert(final(self)@.paths =~= move_to_paths(old(self)@.paths, dst));
            }
        } else {
            let begin_new_path = self.paths[n - 1].len() > 1;
            if begin_new_path {
                let mut fresh: Vec<Position> = Vec::new();
                fresh.push(dst);
                self.paths.push(fresh);
                proof {
                    assert(final(self)@.paths =~= move_to_paths(old(self)@.paths, dst));
                }
            } else {
                // The current path never drew a line: slide its anchor.
                let _old_path = self.paths.pop();
                let mut fresh: Vec<Position> = Vec::new();
                fresh.push(dst);
                self.paths.push(fresh);
                proof {
                    assert(final(self)@.paths =~= move_to_paths(old(self)@.paths, dst));
                }
            }
        }
    }
}

impl Turtle for Canvas {
    open spec fn inv(&self) -> bool {
        canvas_wf(self@)
    }

    open spec fn states(&self) -> Seq<TurtleState> {
        self@.states
    }

    fn forward(&mut self, distance: Distance)
        ensures
            final(self)@ == spec_forward(old(self)@, distance.0 as int),
    {
        let (dx, dy) = self.direction(distance);
        let st = self.current_state();
        let dst = Position(sat_add(st.pos.0, dx), sat_add(st.pos.1, dy));
        if st.pendown {
            self.line_to(dst);
        }
        self.set_current_state(TurtleState { pos: dst, ..st });
    }

    fn backward(&mut self, distance: Distance)
        ensures
            final(self)@ == spec_forward(old(self)@, clip(-distance.0)),
    {
        self.forward(distance.neg())
    }

    fn move_forward(&mut self, distance: Distance)
        ensures
            final(self)@ == spec_move_forward(old(self)@, distance.0 as int),
    {
        let (dx, dy) = self.direction(distance);
        let st = self.current_state();
        let dst = Position(sat_add(st.pos.0, dx), sat_add(st.pos.1, dy));
        self.move_to(dst);
        self.set_current_state(TurtleState { pos: dst, ..st });
    }

    fn rotate(&mut self, angle: Degree)
        ensures
            final(self)@ == spec_rotate(old(self)@, angle.0),
    {
        let st = self.current_state();
        let turned = TurtleState { angle: Degree(st.angle.0.wrapping_add(angle.0)), ..st };
        self.set_current_state(turned);
    }

    fn right(&mut self, angle: Degree)
        ensures
            final(self)@ == spec_rotate(old(self)@, clip(-angle.0) as i64),
    {
        self.rotate(angle.neg())
    }

    fn left(&mut self, angle: Degree)
        ensures
            final(self)@ == spec_rotate(old(self)@, angle.0),
    {
        self.rotate(angle)
    }

    fn is_pen_down(&self) -> (r: bool) {
        self.current_state().pendown
    }

    fn pen_down(&mut self)
        ensures
            final(self)@ == spec_pen_down(old(self)@),
    {
        let st = self.current_state();
        self.move_to(st.pos);
        self.set_current_state(TurtleState { pendown: true, ..st });
    }

    fn pen_up(&mut self)
        ensures
            final(self)@ == spec_pen_up(old(self)@),
    {
        let st = self.current_state();
        self.set_current_state(TurtleState { pendown: false, ..st });
    }

    fn goto(&mut self, pos: Position)
        ensures
            final(self)@ == spec_goto(old(self)@, pos),
    {
        let st = self.current_state();
        self.set_current_state(TurtleState { pos, ..st });
        self.move_to(pos);
    }

    fn home(&mut self)
        ensures
            final(self)@ == spec_goto(old(self)@, Position(0, 0)),
    {
        self.goto(Position::origin())
    }

    fn push(&mut self)
        ensures
            final(self)@ == spec_push(old(self)@),
    {
        let st = self.current_state();
        self.states.push(st);
    }

    fn pop(&mut self) -> (r: bool)
        ensures
            r ==> final(self)@ == spec_pop(old(self)@),
            !r ==> final(self)@ == old(self)@,
    {
        if self.states.len() <= 1 {
            return false;
        }
        let _top = self.states.pop();
        let st = self.current_state();
        self.move_to(st.pos);
        true
    }
}

} // verus!
