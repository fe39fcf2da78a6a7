//! Proved laws of the engine: how commands compose.
//!
//! Each law is stated over `CanvasModel`, the mathematical content of a
//! canvas; the engine's methods pin their effect down to the `spec_*`
//! transition functions, so these laws carry over to any run of commands.

use vstd::prelude::*;
use crate::angle::lemma_sin_cos_quarter;
use crate::engine::{
    canvas_wf, cur_state, disp_x, disp_y, forward_pos, line_to_paths, move_to_paths, spec_forward,
    spec_goto, spec_pop, spec_push, spec_rotate, CanvasModel,
};
use crate::geom::Position;
use crate::num::abs;

verus! {

/// The length of the segment from `p` to `q` along the axes. For a
/// horizontal or vertical segment this is the Euclidean length.
pub open spec fn seg_axis_len(p: Position, q: Position) -> int {
    abs(q.0 - p.0) + abs(q.1 - p.1)
}

/// The total axis length of one polyline: the sum over its segments.
pub open spec fn path_axis_len(path: Seq<Position>) -> int
    decreases path.len(),
{
    if path.len() <= 1 {
        0
    } else {
        path_axis_len(path.drop_last()) + seg_axis_len(path[path.len() - 2], path.last())
    }
}

/// The total axis length drawn across all recorded polylines.
pub open spec fn drawn_axis_len(paths: Seq<Seq<Position>>) -> int
    decreases paths.len(),
{
    if paths.len() == 0 {
        0
    } else {
        drawn_axis_len(paths.drop_last()) + path_axis_len(paths.last())
    }
}

/// The sum of the absolute values of a sequence of distances.
pub open spec fn sum_abs(ds: Seq<i64>) -> int
    decreases ds.len(),
{
    if ds.len() == 0 {
        0
    } else {
        sum_abs(ds.drop_last()) + abs(ds.last() as int)
    }
}

/// Scaling by a full unit is exact: `1000 * d / 1000` truncates to `d`.
proof fn lemma_div_trunc_unit(d: int)
    ensures
        crate::num::div_trunc(1000 * d, 1000) == d,
        crate::num::div_trunc(-1000 * d, 1000) == -d,
        crate::num::div_trunc(0 * d, 1000) == 0,
{
    vstd::arithmetic::div_mod::lemma_div_multiples_vanish(d, 1000);
    vstd::arithmetic::div_mod::lemma_div_multiples_vanish(-d, 1000);
    vstd::arithmetic::div_mod::lemma_div_multiples_vanish(0, 1000);
}

/// One pen-down move at an axis-aligned heading draws exactly its
/// distance: the drawn length grows by `|d|`, the cursor shifts by `|d|`
/// along one axis, and heading, pen and well-formedness are kept.
///
/// The heading must be a multiple of a quarter turn (there the fixed-point
/// sine and cosine are exact and the segment lies on an axis, so the axis
/// length is the Euclidean length), and the move must stay inside the
/// coordinate range, where no clamping distorts it.
pub proof fn lemma_forward_draws_distance(m: CanvasModel, d: i64)
    requires
        canvas_wf(m),
        cur_state(m.states).pendown,
        cur_state(m.states).angle.0 as int % 90000 == 0,
        d != i64::MIN,
        i64::MIN + abs(d as int) <= cur_state(m.states).pos.0 <= i64::MAX - abs(d as int),
        i64::MIN + abs(d as int) <= cur_state(m.states).pos.1 <= i64::MAX - abs(d as int),
    ensures
        drawn_axis_len(spec_forward(m, d as int).paths) == drawn_axis_len(m.paths) + abs(d as int),
        canvas_wf(spec_forward(m, d as int)),
        cur_state(spec_forward(m, d as int).states).angle == cur_state(m.states).angle,
        cur_state(spec_forward(m, d as int).states).pendown,
        abs(cur_state(spec_forward(m, d as int).states).pos.0 - cur_state(m.states).pos.0) <= abs(
            d as int,
        ),
        abs(cur_state(spec_forward(m, d as int).states).pos.1 - cur_state(m.states).pos.1) <= abs(
            d as int,
        ),
{
    let st = cur_state(m.states);
    let a = st.angle.0 as int;
    lemma_sin_cos_quarter(a);
    lemma_div_trunc_unit(d as int);
    let dx = disp_x(a, d as int);
    let dy = disp_y(a, d as int);
    assert(abs(dx) + abs(dy) == abs(d as int));
    let dst = forward_pos(st, d as int);
    assert(dst.0 == st.pos.0 + dx && dst.1 == st.pos.1 + dy);
    assert(seg_axis_len(st.pos, dst) == abs(d as int));

    let paths = m.paths;
    let last = paths.last();
    let grown = last.push(dst);
    assert(grown.drop_last() =~= last);
    assert(grown[grown.len() - 2] == last.last());
    assert(path_axis_len(grown) == path_axis_len(last) + seg_axis_len(st.pos, dst));

    let newpaths = line_to_paths(paths, dst);
    assert(newpaths.drop_last() =~= paths.drop_last());
    assert(newpaths.last() == grown);
    assert(drawn_axis_len(newpaths) == drawn_axis_len(paths.drop_last()) + path_axis_len(grown));
}

/// For every run of pen-down `forward` and `backward` commands at an
/// axis-aligned heading, the drawn length grows by exactly the sum of the
/// absolute distances moved (`backward(d)` is `forward(-d)`, so a run of
/// either is a sequence of signed forward distances).
///
/// The run must stay inside the coordinate range; the bound on the start
/// position by the total distance guarantees that.
pub proof fn lemma_forwards_draw_total_distance(m: CanvasModel, ds: Seq<i64>)
    requires
        canvas_wf(m),
        cur_state(m.states).pendown,
        cur_state(m.states).angle.0 as int % 90000 == 0,
        forall|i: int| 0 <= i < ds.len() ==> ds[i] != i64::MIN,
        i64::MIN + sum_abs(ds) <= cur_state(m.states).pos.0 <= i64::MAX - sum_abs(ds),
        i64::MIN + sum_abs(ds) <= cur_state(m.states).pos.1 <= i64::MAX - sum_abs(ds),
    ensures
        drawn_axis_len(replay_forwards(m, ds).paths) == drawn_axis_len(m.paths) + sum_abs(ds),
        canvas_wf(replay_forwards(m, ds)),
        cur_state(replay_forwards(m, ds).states).angle == cur_state(m.states).angle,
        cur_state(replay_forwards(m, ds).states).pendown,
        abs(cur_state(replay_forwards(m, ds).states).pos.0 - cur_state(m.states).pos.0) <= sum_abs(
            ds,
        ),
        abs(cur_state(replay_forwards(m, ds).states).pos.1 - cur_state(m.states).pos.1) <= sum_abs(
            ds,
        ),
    decreases ds.len(),
{
    lemma_sum_abs_nonneg(ds);
    if ds.len() == 0 {
    } else {
        let prefix = ds.drop_last();
        let d = ds.last();
        lemma_sum_abs_nonneg(prefix);
        assert(sum_abs(ds) == sum_abs(prefix) + abs(d as int));
        lemma_forwards_draw_total_distance(m, prefix);
        let m1 = replay_forwards(m, prefix);
        lemma_forward_draws_distance(m1, d);
    }
}

/// A pen-down replay of a sequence of signed forward distances.
pub open spec fn replay_forwards(m: CanvasModel, ds: Seq<i64>) -> CanvasModel
    decreases ds.len(),
{
    if ds.len() == 0 {
        m
    } else {
        spec_forward(replay_forwards(m, ds.drop_last()), ds.last() as int)
    }
}

/// The sum of absolute distances is never negative.
proof fn lemma_sum_abs_nonneg(ds: Seq<i64>)
    ensures
        sum_abs(ds) >= 0,
    decreases ds.len(),
{
    if ds.len() > 0 {
        lemma_sum_abs_nonneg(ds.drop_last());
    }
}

/// Turning left and then right by the same angle restores the canvas
/// exactly — position, heading, pen state, saved states and paths — for
/// every angle but `i64::MIN` millidegrees, whose negation is not
/// representable.
pub proof fn lemma_left_then_right_restores(m: CanvasModel, a: i64)
    requires
        m.states.len() >= 1,
        a != i64::MIN,
    ensures
        spec_rotate(spec_rotate(m, a), (-a) as i64) == m,
{
    let st = cur_state(m.states);
    let m1 = spec_rotate(m, a);
    let m2 = spec_rotate(m1, (-a) as i64);
    assert(cur_state(m1.states) == crate::engine::rotate_state(st, a));
    assert(cur_state(m2.states).angle.0 == st.angle.0);
    assert(m2.states =~= m.states);
    assert(m2 == m);
}

/// `push()` followed immediately by `pop()` restores the stack of cursor
/// states exactly — in particular position, heading and pen state.
/// (The pop also re-anchors the current path at the restored position, as
/// any pen-up relocation does; the drawn lines are untouched.)
pub proof fn lemma_push_then_pop_restores(m: CanvasModel)
    requires
        canvas_wf(m),
    ensures
        spec_pop(spec_push(m)).states == m.states,
        cur_state(spec_pop(spec_push(m)).states) == cur_state(m.states),
        spec_push(m).states.len() > 1,
{
    let pushed = spec_push(m);
    assert(pushed.states.drop_last() =~= m.states);
}

/// Two pen-up relocations in a row leave a single anchor point: the second
/// overwrites the first instead of piling up one-point paths.
pub proof fn lemma_reloc_twice_overwrites(m: CanvasModel, p1: Position, p2: Position)
    requires
        canvas_wf(m),
    ensures
        spec_goto(spec_goto(m, p1), p2).paths.last() =~= seq![p2],
        spec_goto(spec_goto(m, p1), p2).paths.len() == spec_goto(m, p1).paths.len(),
{
    let once = spec_goto(m, p1);
    assert(once.paths.last() =~= seq![p1]);
}

/// The bounding box of a non-empty run of points is tight, and the derived
/// viewport covers it: each box side equals the true coordinate spread of
/// the points (some pair of points attains it), and the viewport side is
/// never below the spread — exactly equal to it once the 100-unit minimum
/// is not binding. (A spread beyond the `i64` range is clamped, so the
/// exact clauses ask it to fit.)
pub proof fn lemma_viewport_covers_spread(ps: Seq<Position>)
    requires
        ps.len() > 0,
    ensures
        crate::geom::bounds_fold(None::<(Position, Position)>, ps) is Some,
        ({
            let mm = crate::geom::bounds_fold(None::<(Position, Position)>, ps)->Some_0;
            let spread_x = mm.1.0 - mm.0.0;
            let spread_y = mm.1.1 - mm.0.1;
            &&& 0 <= spread_x && 0 <= spread_y
            &&& (forall|i: int, j: int|
                #![trigger ps[i], ps[j]]
                0 <= i < ps.len() && 0 <= j < ps.len() ==> ps[i].0 - ps[j].0 <= spread_x && ps[i].1
                    - ps[j].1 <= spread_y)
            &&& (exists|i: int, j: int|
                #![trigger ps[i], ps[j]]
                0 <= i < ps.len() && 0 <= j < ps.len() && ps[i].0 - ps[j].0 == spread_x)
            &&& (exists|i: int, j: int|
                #![trigger ps[i], ps[j]]
                0 <= i < ps.len() && 0 <= j < ps.len() && ps[i].1 - ps[j].1 == spread_y)
            &&& spread_x <= i64::MAX ==> crate::render::vp_len(mm.0.0 as int, mm.1.0 as int)
                >= spread_x && (spread_x >= 100000 ==> crate::render::vp_len(
                mm.0.0 as int,
                mm.1.0 as int,
            ) == spread_x)
            &&& spread_y <= i64::MAX ==> crate::render::vp_len(mm.0.1 as int, mm.1.1 as int)
                >= spread_y && (spread_y >= 100000 ==> crate::render::vp_len(
                mm.0.1 as int,
                mm.1.1 as int,
            ) == spread_y)
        }),
{
    crate::geom::lemma_bounds_fold_encloses(None::<(Position, Position)>, ps);
    let mm = crate::geom::bounds_fold(None::<(Position, Position)>, ps)->Some_0;
    let i_min_x = choose|i: int| #![trigger ps[i]] 0 <= i < ps.len() && ps[i].0 == mm.0.0;
    let i_max_x = choose|i: int| #![trigger ps[i]] 0 <= i < ps.len() && ps[i].0 == mm.1.0;
    let i_min_y = choose|i: int| #![trigger ps[i]] 0 <= i < ps.len() && ps[i].1 == mm.0.1;
    let i_max_y = choose|i: int| #![trigger ps[i]] 0 <= i < ps.len() && ps[i].1 == mm.1.1;
    assert(ps[i_max_x].0 - ps[i_min_x].0 == mm.1.0 - mm.0.0);
    assert(ps[i_max_y].1 - ps[i_min_y].1 == mm.1.1 - mm.0.1);
}

/// A path that has drawn a line is sealed: a pen-up relocation leaves it
/// untouched and opens a fresh one-point path at the target.
pub proof fn lemma_reloc_seals_drawn_path(m: CanvasModel, p: Position)
    requires
        canvas_wf(m),
        m.paths.last().len() > 1,
    ensures
        spec_goto(m, p).paths == m.paths.push(seq![p]),
{
    assert(move_to_paths(m.paths, p) == m.paths.push(seq![p]));
}

} // verus!
