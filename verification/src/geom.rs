//! Plane geometry: positions and running bounding boxes.
//!
//! A `Position` is a pair of fixed-point coordinates (milli-units), x
//! growing to the right and y growing upward. `Bounds` is the running
//! componentwise minimum and maximum over every position it has been shown,
//! or nothing while it has been shown none.

use vstd::prelude::*;
use crate::num::{abs, clip, sat_add, sat_sub};

verus! {

/// A point of the plane, in milli-units.
#[derive(Clone, Copy, Debug, PartialEq, Eq, Structural)]
pub struct Position(pub i64, pub i64);

/// Componentwise minimum.
pub open spec fn pos_min(a: Position, b: Position) -> Position {
    Position(
        if a.0 <= b.0 {
            a.0
        } else {
            b.0
        },
        if a.1 <= b.1 {
            a.1
        } else {
            b.1
        },
    )
}

/// Componentwise maximum.
pub open spec fn pos_max(a: Position, b: Position) -> Position {
    Position(
        if a.0 >= b.0 {
            a.0
        } else {
            b.0
        },
        if a.1 >= b.1 {
            a.1
        } else {
            b.1
        },
    )
}

/// Componentwise saturating sum.
pub open spec fn pos_add(a: Position, b: Position) -> Position {
    Position(clip(a.0 + b.0) as i64, clip(a.1 + b.1) as i64)
}

impl Position {
    /// The point both of whose coordinates are zero.
    pub fn origin() -> (r: Position)
        ensures
            r == Position(0, 0),
    {
        Position(0, 0)
    }

    /// Componentwise minimum of `self` and `other`.
    pub fn min(&self, other: &Position) -> (r: Position)
        ensures
            r == pos_min(*self, *other),
    {
        Position(
            if self.0 <= other.0 {
                self.0
            } else {
                other.0
            },
            if self.1 <= other.1 {
                self.1
            } else {
                other.1
            },
        )
    }

    /// Componentwise maximum of `self` and `other`.
    pub fn max(&self, other: &Position) -> (r: Position)
        ensures
            r == pos_max(*self, *other),
    {
        Position(
            if self.0 >= other.0 {
                self.0
            } else {
                other.0
            },
            if self.1 >= other.1 {
                self.1
            } else {
                other.1
            },
        )
    }

    /// Lower the minimum and raise the maximum of a corner pair so that it
    /// encloses `self` as well.
    pub fn min_max(&self, min_max: &(Position, Position)) -> (r: (Position, Position))
        ensures
            r.0 == pos_min(*self, min_max.0),
            r.1 == pos_max(*self, min_max.1),
    {
        (self.min(&min_max.0), self.max(&min_max.1))
    }

    /// Componentwise sum, clamped at the `i64` range.
    pub fn add(self, other: Position) -> (r: Position)
        ensures
            r == pos_add(self, other),
    {
        Position(sat_add(self.0, other.0), sat_add(self.1, other.1))
    }
}

/// One step of the running bounding box: widen `b` to enclose `p`.
pub open spec fn bounds_step(b: Option<(Position, Position)>, p: Position) -> Option<
    (Position, Position),
> {
    match b {
        None => Some((p, p)),
        Some(mm) => Some((pos_min(p, mm.0), pos_max(p, mm.1))),
    }
}

/// The bounding box `b`, widened to enclose every point of `ps` in turn.
pub open spec fn bounds_fold(b: Option<(Position, Position)>, ps: Seq<Position>) -> Option<
    (Position, Position),
>
    decreases ps.len(),
{
    if ps.len() == 0 {
        b
    } else {
        bounds_step(bounds_fold(b, ps.drop_last()), ps.last())
    }
}

/// A folded bounding box encloses every point it was shown, it never
/// forgets what the starting box enclosed, and each of its four edges is
/// attained: it sits on the starting box or on one of the points.
pub proof fn lemma_bounds_fold_encloses(b: Option<(Position, Position)>, ps: Seq<Position>)
    ensures
        (bounds_fold(b, ps) is Some) == (b is Some || ps.len() > 0),
        bounds_fold(b, ps) matches Some(mm) ==> {
            &&& (forall|i: int|
                #![trigger ps[i]]
                0 <= i < ps.len() ==> mm.0.0 <= ps[i].0 <= mm.1.0 && mm.0.1 <= ps[i].1 <= mm.1.1)
            &&& (b matches Some(mb) ==> mm.0.0 <= mb.0.0 && mm.0.1 <= mb.0.1 && mm.1.0 >= mb.1.0
                && mm.1.1 >= mb.1.1)
            &&& ((b matches Some(mb) && mm.0.0 == mb.0.0) || exists|i: int|
                #![trigger ps[i]]
                0 <= i < ps.len() && ps[i].0 == mm.0.0)
            &&& ((b matches Some(mb) && mm.0.1 == mb.0.1) || exists|i: int|
                #![trigger ps[i]]
                0 <= i < ps.len() && ps[i].1 == mm.0.1)
            &&& ((b matches Some(mb) && mm.1.0 == mb.1.0) || exists|i: int|
                #![trigger ps[i]]
                0 <= i < ps.len() && ps[i].0 == mm.1.0)
            &&& ((b matches Some(mb) && mm.1.1 == mb.1.1) || exists|i: int|
                #![trigger ps[i]]
                0 <= i < ps.len() && ps[i].1 == mm.1.1)
        },
    decreases ps.len(),
{
    if ps.len() > 0 {
        lemma_bounds_fold_encloses(b, ps.drop_last());
        let pre = bounds_fold(b, ps.drop_last());
        let last = ps.last();
        assert(forall|i: int|
            #![trigger ps[i]]
            0 <= i < ps.len() - 1 ==> ps.drop_last()[i] == ps[i]);
        if pre is Some {
            let mp = pre->Some_0;
            if exists|i: int|
                #![trigger ps.drop_last()[i]]
                0 <= i < ps.len() - 1 && ps.drop_last()[i].0 == mp.0.0 {
                let k = choose|i: int|
                    #![trigger ps.drop_last()[i]]
                    0 <= i < ps.len() - 1 && ps.drop_last()[i].0 == mp.0.0;
                assert(ps[k] == ps.drop_last()[k]);
            }
            if exists|i: int|
                #![trigger ps.drop_last()[i]]
                0 <= i < ps.len() - 1 && ps.drop_last()[i].1 == mp.0.1 {
                let k = choose|i: int|
                    #![trigger ps.drop_last()[i]]
                    0 <= i < ps.len() - 1 && ps.drop_last()[i].1 == mp.0.1;
                assert(ps[k] == ps.drop_last()[k]);
            }
            if exists|i: int|
                #![trigger ps.drop_last()[i]]
                0 <= i < ps.len() - 1 && ps.drop_last()[i].0 == mp.1.0 {
                let k = choose|i: int|
                    #![trigger ps.drop_last()[i]]
                    0 <= i < ps.len() - 1 && ps.drop_last()[i].0 == mp.1.0;
                assert(ps[k] == ps.drop_last()[k]);
            }
            if exists|i: int|
                #![trigger ps.drop_last()[i]]
                0 <= i < ps.len() - 1 && ps.drop_last()[i].1 == mp.1.1 {
                let k = choose|i: int|
                    #![trigger ps.drop_last()[i]]
                    0 <= i < ps.len() - 1 && ps.drop_last()[i].1 == mp.1.1;
                assert(ps[k] == ps.drop_last()[k]);
            }
        }
        assert(ps[ps.len() - 1] == last);
    }
}

/// A corner pair is ordered: the minimum corner lies at or below and at or
/// left of the maximum corner.
pub open spec fn bounds_inv(b: Option<(Position, Position)>) -> bool {
    match b {
        None => true,
        Some(mm) => mm.0.0 <= mm.1.0 && mm.0.1 <= mm.1.1,
    }
}

/// The minimal axis-aligned rectangle enclosing every position added so
/// far; unbounded (empty) until the first position arrives.
pub struct Bounds {
    min_max: Option<(Position, Position)>,
}

impl View for Bounds {
    type V = Option<(Position, Position)>;

    closed spec fn view(&self) -> Option<(Position, Position)> {
        self.min_max
    }
}

impl Bounds {
    /// A bounding box that has seen no position yet.
    pub fn new() -> (r: Bounds)
        ensures
            r@ == None::<(Position, Position)>,
    {
        Bounds { min_max: None }
    }

    /// Widen the box to enclose `pos`.
    pub fn add_position(&mut self, pos: Position)
        ensures
            final(self)@ == bounds_step(old(self)@, pos),
            bounds_inv(old(self)@) ==> bounds_inv(final(self)@),
    {
        let mm = match self.min_max {
            None => (pos, pos),
            Some(ref a) => pos.min_max(a),
        };
        self.min_max = Some(mm);
    }

    /// Whether at least one position has been seen.
    pub fn is_bounded(&self) -> (r: bool)
        ensures
            r == (self@ is Some),
    {
        self.min_max.is_some()
    }

    /// Horizontal extent, clamped at the `i64` range.
    pub fn width(&self) -> (r: i64)
        requires
            self@ is Some,
        ensures
            r == clip(abs(self@->Some_0.1.0 - self@->Some_0.0.0)),
    {
        let (mn, mx) = self.min_max.unwrap();
        if mx.0 >= mn.0 {
            sat_sub(mx.0, mn.0)
        } else {
            sat_sub(mn.0, mx.0)
        }
    }

    /// Vertical extent, clamped at the `i64` range.
    pub fn height(&self) -> (r: i64)
        requires
            self@ is Some,
        ensures
            r == clip(abs(self@->Some_0.1.1 - self@->Some_0.0.1)),
    {
        let (mn, mx) = self.min_max.unwrap();
        if mx.1 >= mn.1 {
            sat_sub(mx.1, mn.1)
        } else {
            sat_sub(mn.1, mx.1)
        }
    }

    /// Leftmost coordinate seen.
    pub fn min_x(&self) -> (r: i64)
        requires
            self@ is Some,
        ensures
            r == self@->Some_0.0.0,
    {
        let (mn, _) = self.min_max.unwrap();
        mn.0
    }

    /// Lowest coordinate seen.
    pub fn min_y(&self) -> (r: i64)
        requires
            self@ is Some,
        ensures
            r == self@->Some_0.0.1,
    {
        let (mn, _) = self.min_max.unwrap();
        mn.1
    }

    /// Rightmost coordinate seen.
    pub fn max_x(&self) -> (r: i64)
        requires
            self@ is Some,
        ensures
            r == self@->Some_0.1.0,
    {
        let (_, mx) = self.min_max.unwrap();
        mx.0
    }

    /// Highest coordinate seen.
    pub fn max_y(&self) -> (r: i64)
        requires
            self@ is Some,
        ensures
            r == self@->Some_0.1.1,
    {
        let (_, mx) = self.min_max.unwrap();
        mx.1
    }
}

} // verus!
