//! Serialization of the recorded drawing to SVG and EPS documents.
//!
//! Both serializers share one shape: scan every recorded point for a
//! bounding box (SVG negates y while scanning and while emitting, since its
//! y axis grows downward; EPS keeps the turtle's bottom-up axis), widen the
//! box to at least 100 drawing units each way, pad it by a tenth of its
//! size on every side, derive a stroke width of a thousandth of the padded
//! extent, and emit one stroke primitive for every polyline that has drawn
//! a line. One-point polylines are pen-up relocation marks and emit
//! nothing.
//!
//! Every coordinate is written as a fixed-point decimal with three
//! fraction digits (one milli-unit resolution).

use vstd::prelude::*;
use vstd::string::StringExecFns;
use crate::engine::{canvas_wf, Canvas};
use crate::geom::{bounds_fold, bounds_inv, Bounds, Position};
use crate::num::{abs, clip, sat_neg, sat_sub};

verus! {

/// The decimal digit character for `d` between 0 and 9.
pub open spec fn digit_char(d: int) -> char {
    if d == 0 {
        '0'
    } else if d == 1 {
        '1'
    } else if d == 2 {
        '2'
    } else if d == 3 {
        '3'
    } else if d == 4 {
        '4'
    } else if d == 5 {
        '5'
    } else if d == 6 {
        '6'
    } else if d == 7 {
        '7'
    } else if d == 8 {
        '8'
    } else {
        '9'
    }
}

/// The decimal digits of `n`, most significant first, no leading zeros
/// (a single zero for zero).
pub open spec fn dec_digits(n: nat) -> Seq<char>
    decreases n,
{
    if n < 10 {
        seq![digit_char(n as int)]
    } else {
        dec_digits(n / 10) + seq![digit_char((n % 10) as int)]
    }
}

/// A non-negative milli-unit count as a decimal with exactly three
/// fraction digits: `1500` is written `1.500`.
pub open spec fn fmt_milli_u(m: nat) -> Seq<char> {
    dec_digits(m / 1000) + seq!['.'] + seq![
        digit_char(((m / 100) % 10) as int),
        digit_char(((m / 10) % 10) as int),
        digit_char((m % 10) as int),
    ]
}

/// A signed milli-unit count as a decimal: a leading minus sign, then the
/// magnitude as `fmt_milli_u`.
pub open spec fn fmt_milli(v: int) -> Seq<char> {
    if v < 0 {
        seq!['-'] + fmt_milli_u((-v) as nat)
    } else {
        fmt_milli_u(v as nat)
    }
}

/// The one-character string for digit `d`.
fn digit_str(d: u64) -> (r: &'static str)
    requires
        d < 10,
    ensures
        r@ == seq![digit_char(d as int)],
{
    if d == 0 {
        proof {
            reveal_strlit("0");
            assert("0"@ =~= seq![digit_char(0)]);
        }
        "0"
    } else if d == 1 {
        proof {
            reveal_strlit("1");
            assert("1"@ =~= seq![digit_char(1)]);
        }
        "1"
    } else if d == 2 {
        proof {
            reveal_strlit("2");
            assert("2"@ =~= seq![digit_char(2)]);
        }
        "2"
    } else if d == 3 {
        proof {
            reveal_strlit("3");
            assert("3"@ =~= seq![digit_char(3)]);
        }
        "3"
    } else if d == 4 {
        proof {
            reveal_strlit("4");
            assert("4"@ =~= seq![digit_char(4)]);
        }
        "4"
    } else if d == 5 {
        proof {
            reveal_strlit("5");
            assert("5"@ =~= seq![digit_char(5)]);
        }
        "5"
    } else if d == 6 {
        proof {
            reveal_strlit("6");
            assert("6"@ =~= seq![digit_char(6)]);
        }
        "6"
    } else if d == 7 {
        proof {
            reveal_strlit("7");
            assert("7"@ =~= seq![digit_char(7)]);
        }
        "7"
    } else if d == 8 {
        proof {
            reveal_strlit("8");
            assert("8"@ =~= seq![digit_char(8)]);
        }
        "8"
    } else {
        proof {
            reveal_strlit("9");
            assert("9"@ =~= seq![digit_char(9)]);
        }
        "9"
    }
}

/// Append the decimal digits of `n` to `out`.
fn push_dec(n: u64, out: &mut String)
    ensures
        final(out)@ == old(out)@ + dec_digits(n as nat),
    decreases n,
{
    if n >= 10 {
        push_dec(n / 10, out);
    }
    out.append(digit_str(n % 10));
    proof {
        assert(final(out)@ =~= old(out)@ + dec_digits(n as nat));
    }
}

/// Append a non-negative milli-unit count as a fixed-point decimal.
fn push_milli_u(m: u64, out: &mut String)
    ensures
        final(out)@ == old(out)@ + fmt_milli_u(m as nat),
{
    push_dec(m / 1000, out);
    proof {
        reveal_strlit(".");
        assert("."@ =~= seq!['.']);
    }
    out.append(".");
    out.append(digit_str((m / 100) % 10));
    out.append(digit_str((m / 10) % 10));
    out.append(digit_str(m % 10));
    proof {
        assert(final(out)@ =~= old(out)@ + fmt_milli_u(m as nat));
    }
}

/// Append a signed milli-unit count as a fixed-point decimal.
pub fn push_milli(v: i64, out: &mut String)
    ensures
        final(out)@ == old(out)@ + fmt_milli(v as int),
{
    let m: u64 = if v < 0 {
        proof {
            reveal_strlit("-");
            assert("-"@ =~= seq!['-']);
        }
        out.append("-");
        (-(v as i128)) as u64
    } else {
        v as u64
    };
    push_milli_u(m, out);
    proof {
        assert(final(out)@ =~= old(out)@ + fmt_milli(v as int));
    }
}

/// `p` with its y coordinate negated (clamped at the `i64` range), for the
/// SVG top-down axis.
pub open spec fn flip_y(p: Position) -> Position {
    Position(p.0, clip(-p.1) as i64)
}

/// A path with every point flipped when `flip` asks for it.
pub open spec fn maybe_flip(path: Seq<Position>, flip: bool) -> Seq<Position> {
    if flip {
        path.map_values(|p: Position| flip_y(p))
    } else {
        path
    }
}

/// The bounding box over every point of every path, optionally flipped.
pub open spec fn paths_bounds(paths: Seq<Seq<Position>>, flip: bool) -> Option<
    (Position, Position),
>
    decreases paths.len(),
{
    if paths.len() == 0 {
        None
    } else {
        bounds_fold(paths_bounds(paths.drop_last(), flip), maybe_flip(paths.last(), flip))
    }
}

/// Folding a path onto a box keeps it well formed, and yields one as soon
/// as there was a box or a point.
pub proof fn lemma_bounds_fold_some(b: Option<(Position, Position)>, ps: Seq<Position>)
    ensures
        (bounds_fold(b, ps) is Some) == (b is Some || ps.len() > 0),
        bounds_inv(b) ==> bounds_inv(bounds_fold(b, ps)),
    decreases ps.len(),
{
    if ps.len() > 0 {
        lemma_bounds_fold_some(b, ps.drop_last());
    }
}

/// The box over a set of paths is well formed, and exists as soon as any
/// path holds a point.
pub proof fn lemma_paths_bounds_some(paths: Seq<Seq<Position>>, flip: bool)
    ensures
        bounds_inv(paths_bounds(paths, flip)),
        (exists|i: int| 0 <= i < paths.len() && #[trigger] paths[i].len() > 0) ==> paths_bounds(
            paths,
            flip,
        ) is Some,
    decreases paths.len(),
{
    if paths.len() > 0 {
        lemma_paths_bounds_some(paths.drop_last(), flip);
        lemma_bounds_fold_some(paths_bounds(paths.drop_last(), flip), maybe_flip(paths.last(), flip));
        if exists|i: int| 0 <= i < paths.len() && #[trigger] paths[i].len() > 0 {
            let i = choose|i: int| 0 <= i < paths.len() && #[trigger] paths[i].len() > 0;
            if i < paths.len() - 1 {
                assert(paths.drop_last()[i].len() > 0);
            }
        }
    }
}

/// A viewport side: the box extent, but at least 100 drawing units.
pub open spec fn vp_len(lo: int, hi: int) -> int {
    let w = clip(abs(hi - lo));
    if w >= 100000 {
        w
    } else {
        100000
    }
}

/// A length with a tenth of itself added on both sides.
pub open spec fn padded(v: int) -> int {
    v + 2 * (v / 10)
}

/// The stroke width: a thousandth of the larger padded viewport side.
pub open spec fn stroke_width(w: int, h: int) -> int {
    padded(
        if w >= h {
            w
        } else {
            h
        },
    ) / 1000
}

/// One SVG `path` element's line commands past the first point.
pub open spec fn svg_path_tail(path: Seq<Position>) -> Seq<char>
    decreases path.len(),
{
    if path.len() <= 1 {
        Seq::<char>::empty()
    } else {
        svg_path_tail(path.drop_last()) + " L"@ + fmt_milli(path.last().0 as int) + " "@
            + fmt_milli(clip(-path.last().1))
    }
}

/// One SVG `path` element for a polyline, empty when nothing was drawn
/// into it.
pub open spec fn svg_path_elem(path: Seq<Position>) -> Seq<char> {
    if path.len() < 2 {
        Seq::<char>::empty()
    } else {
        "<path d=\"M"@ + fmt_milli(path[0].0 as int) + " "@ + fmt_milli(clip(-path[0].1))
            + svg_path_tail(path) + "\" />\n"@
    }
}

/// The SVG elements of all polylines, in draw order.
pub open spec fn svg_body(paths: Seq<Seq<Position>>) -> Seq<char>
    decreases paths.len(),
{
    if paths.len() == 0 {
        Seq::<char>::empty()
    } else {
        svg_body(paths.drop_last()) + svg_path_elem(paths.last())
    }
}

/// The complete SVG document for a set of recorded polylines.
pub open spec fn svg_doc(paths: Seq<Seq<Position>>) -> Seq<char> {
    let b = paths_bounds(paths, true);
    let lo = b->Some_0.0;
    let hi = b->Some_0.1;
    let w = vp_len(lo.0 as int, hi.0 as int);
    let h = vp_len(lo.1 as int, hi.1 as int);
    "<?xml version=\"1.0\" encoding=\"UTF-8\"?>\n<svg xmlns=\"http://www.w3.org/2000/svg\" version=\"1.1\" baseProfile=\"full\" viewBox=\""@
        + fmt_milli(clip(lo.0 - w / 10)) + " "@ + fmt_milli(clip(lo.1 - h / 10)) + " "@
        + fmt_milli_u(padded(w) as nat) + " "@ + fmt_milli_u(padded(h) as nat)
        + "\">\n<g stroke=\"black\" stroke-width=\""@ + fmt_milli_u(stroke_width(w, h) as nat)
        + "\" fill=\"none\">\n"@ + svg_body(paths) + "</g>\n</svg>\n"@
}

/// One EPS stroke block's `lineto` operators past the first point.
pub open spec fn eps_path_tail(path: Seq<Position>) -> Seq<char>
    decreases path.len(),
{
    if path.len() <= 1 {
        Seq::<char>::empty()
    } else {
        eps_path_tail(path.drop_last()) + "  "@ + fmt_milli(path.last().0 as int) + " "@
            + fmt_milli(path.last().1 as int) + " lineto\n"@
    }
}

/// One EPS stroke block for a polyline, empty when nothing was drawn into
/// it.
pub open spec fn eps_path_elem(path: Seq<Position>) -> Seq<char> {
    if path.len() < 2 {
        Seq::<char>::empty()
    } else {
        "newpath\n  "@ + fmt_milli(path[0].0 as int) + " "@ + fmt_milli(path[0].1 as int)
            + " moveto\n"@ + eps_path_tail(path) + "stroke\n"@
    }
}

/// The EPS stroke blocks of all polylines, in draw order.
pub open spec fn eps_body(paths: Seq<Seq<Position>>) -> Seq<char>
    decreases paths.len(),
{
    if paths.len() == 0 {
        Seq::<char>::empty()
    } else {
        eps_body(paths.drop_last()) + eps_path_elem(paths.last())
    }
}

/// Polylines that never drew a line emit no stroke at all: a drawing made
/// only of pen-up relocation marks (every path a single anchor point)
/// serializes to a document whose body is empty, in both formats.
pub proof fn lemma_undrawn_paths_emit_nothing(paths: Seq<Seq<Position>>)
    requires
        forall|i: int| 0 <= i < paths.len() ==> #[trigger] paths[i].len() < 2,
    ensures
        svg_body(paths) == Seq::<char>::empty(),
        eps_body(paths) == Seq::<char>::empty(),
    decreases paths.len(),
{
    if paths.len() > 0 {
        assert(forall|i: int|
            0 <= i < paths.len() - 1 ==> #[trigger] paths.drop_last()[i].len() < 2);
        lemma_undrawn_paths_emit_nothing(paths.drop_last());
        assert(paths[paths.len() - 1].len() < 2);
        assert(svg_body(paths) =~= Seq::<char>::empty());
        assert(eps_body(paths) =~= Seq::<char>::empty());
    }
}

/// The complete EPS document for a set of recorded polylines. The
/// `BoundingBox` comment spans the padded viewport: from the padded corner
/// (the box minimum less a tenth of each viewport side) across the whole
/// padded size, so a drawing under the 100-unit minimum still declares the
/// full minimum viewport.
pub open spec fn eps_doc(paths: Seq<Seq<Position>>) -> Seq<char> {
    let b = paths_bounds(paths, false);
    let lo = b->Some_0.0;
    let hi = b->Some_0.1;
    let w = vp_len(lo.0 as int, hi.0 as int);
    let h = vp_len(lo.1 as int, hi.1 as int);
    "%%!PS-Adobe-3.0 EPSF-3.0\n%%BoundingBox: "@ + fmt_milli(clip(lo.0 - w / 10)) + " "@
        + fmt_milli(clip(lo.1 - h / 10)) + " "@ + fmt_milli(clip(lo.0 - w / 10 + padded(w))) + " "@
        + fmt_milli(clip(lo.1 - h / 10 + padded(h)))
        + "\n%%LanguageLevel: 2\n%%Pages: 1\n%%Page: 1 1\n"@
        + fmt_milli_u(stroke_width(w, h) as nat) + " setlinewidth\n"@ + eps_body(paths)
        + "%%EOF\n"@
}

/// The far corner of the padded viewport: `lo - border + total`, clamped
/// into the `i64` range.
fn far_corner(lo: i64, border: u64, total: u64) -> (r: i64)
    ensures
        r == clip(lo - border + total),
{
    let v: i128 = lo as i128 - border as i128 + total as i128;
    if v > i64::MAX as i128 {
        i64::MAX
    } else if v < i64::MIN as i128 {
        i64::MIN
    } else {
        v as i64
    }
}

/// Scan every point of every path into a bounding box, negating y when
/// `flip` asks for it.
fn scan_bounds(paths: &Vec<Vec<Position>>, flip: bool) -> (b: Bounds)
    ensures
        b@ == paths_bounds(paths@.map_values(|p: Vec<Position>| p@), flip),
        bounds_inv(b@),
{
    let ghost pv = paths@.map_values(|p: Vec<Position>| p@);
    let mut b = Bounds::new();
    let n = paths.len();
    assert(pv.take(0) =~= Seq::<Seq<Position>>::empty());
    for i in 0..n
        invariant
            n == paths.len(),
            pv == paths@.map_values(|p: Vec<Position>| p@),
            b@ == paths_bounds(pv.take(i as int), flip),
            bounds_inv(b@),
    {
        let path = &paths[i];
        let ghost fp = maybe_flip(pv[i as int], flip);
        let ghost b0 = b@;
        let m = path.len();
        assert(fp.take(0) =~= Seq::<Position>::empty());
        for j in 0..m
            invariant
                n == paths.len(),
                m == path.len(),
                i < n,
                path@ == paths@.map_values(|p: Vec<Position>| p@)[i as int],
                fp == maybe_flip(path@, flip),
                b@ == bounds_fold(b0, fp.take(j as int)),
                bounds_inv(b@),
        {
            let p = path[j];
            let q = if flip {
                Position(p.0, sat_neg(p.1))
            } else {
                p
            };
            assert(q == fp[j as int]);
            b.add_position(q);
            proof {
                assert(fp.take(j as int + 1).drop_last() =~= fp.take(j as int));
                assert(b@ == bounds_fold(b0, fp.take(j as int + 1)));
            }
        }
        proof {
            assert(fp.take(m as int) =~= fp);
            assert(pv.take(i as int + 1).drop_last() =~= pv.take(i as int));
            assert(b@ == paths_bounds(pv.take(i as int + 1), flip));
        }
    }
    proof {
        assert(pv.take(n as int) =~= pv);
    }
    b
}

/// The padded viewport numbers derived from a bounding box: the two
/// viewport side lengths and the stroke width, all non-negative.
fn viewport_sides(b: &Bounds) -> (r: (u64, u64, u64))
    requires
        b@ is Some,
        bounds_inv(b@),
    ensures
        r.0 == vp_len(b@->Some_0.0.0 as int, b@->Some_0.1.0 as int),
        r.1 == vp_len(b@->Some_0.0.1 as int, b@->Some_0.1.1 as int),
        r.2 == stroke_width(r.0 as int, r.1 as int),
{
    let w0 = b.width();
    let h0 = b.height();
    let w: u64 = if w0 >= 100_000 {
        w0 as u64
    } else {
        100_000
    };
    let h: u64 = if h0 >= 100_000 {
        h0 as u64
    } else {
        100_000
    };
    let mx: u64 = if w >= h {
        w
    } else {
        h
    };
    let stroke: u64 = (mx + 2 * (mx / 10)) / 1000;
    (w, h, stroke)
}

impl Canvas {
    /// The drawing as a complete SVG document.
    ///
    /// The y axis is negated for SVG's top-down coordinates; the viewport
    /// is the bounding box of all recorded points, at least 100 units a
    /// side, padded by a tenth on every side; each polyline that drew a
    /// line becomes one `path` element.
    pub fn save_svg(&self) -> (out: String)
        requires
            canvas_wf(self@),
        ensures
            out@ == svg_doc(self@.paths),
    {
        let ghost pv = self@.paths;
        let paths = self.paths();
        let b = scan_bounds(paths, true);
        proof {
            lemma_paths_bounds_some(pv, true);
            assert(pv[0].len() > 0);
        }
        let lo_x = b.min_x();
        let lo_y = b.min_y();
        let (w, h, stroke) = viewport_sides(&b);
        let mut out = String::new();
        proof {
            reveal_strlit(" ");
            assert(" "@ =~= seq![' ']);
        }
        out.append(
            "<?xml version=\"1.0\" encoding=\"UTF-8\"?>\n<svg xmlns=\"http://www.w3.org/2000/svg\" version=\"1.1\" baseProfile=\"full\" viewBox=\"",
        );
        push_milli(sat_sub(lo_x, (w / 10) as i64), &mut out);
        out.append(" ");
        push_milli(sat_sub(lo_y, (h / 10) as i64), &mut out);
        out.append(" ");
        push_milli_u(w + 2 * (w / 10), &mut out);
        out.append(" ");
        push_milli_u(h + 2 * (h / 10), &mut out);
        out.append("\">\n<g stroke=\"black\" stroke-width=\"");
        push_milli_u(stroke, &mut out);
        out.append("\" fill=\"none\">\n");
        let ghost header = out@;
        let n = paths.len();
        assert(pv.take(0) =~= Seq::<Seq<Position>>::empty());
        for i in 0..n
            invariant
                n == paths@.len(),
                paths@.map_values(|p: Vec<Position>| p@) == pv,
                out@ == header + svg_body(pv.take(i as int)),
        {
            let path = &paths[i];
            assert(path@ == pv[i as int]);
            emit_svg_path(path, &mut out);
            proof {
                assert(pv.take(i as int + 1).drop_last() =~= pv.take(i as int));
                assert(out@ =~= header + svg_body(pv.take(i as int + 1)));
            }
        }
        out.append("</g>\n</svg>\n");
        proof {
            assert(pv.take(n as int) =~= pv);
            assert(out@ =~= svg_doc(pv));
        }
        out
    }

    /// The drawing as a complete EPS document.
    ///
    /// EPS keeps the turtle's bottom-up y axis; the bounding-box comment
    /// spans the padded viewport (at least the 100-unit minimum each way),
    /// and each polyline that drew a line becomes one
    /// `newpath`/`moveto`/`lineto`/`stroke` block.
    pub fn save_eps(&self) -> (out: String)
        requires
            canvas_wf(self@),
        ensures
            out@ == eps_doc(self@.paths),
    {
        let ghost pv = self@.paths;
        let paths = self.paths();
        let b = scan_bounds(paths, false);
        proof {
            lemma_paths_bounds_some(pv, false);
            assert(pv[0].len() > 0);
        }
        let lo_x = b.min_x();
        let lo_y = b.min_y();
        let (w, h, stroke) = viewport_sides(&b);
        let mut out = String::new();
        proof {
            reveal_strlit(" ");
            assert(" "@ =~= seq![' ']);
        }
        out.append("%%!PS-Adobe-3.0 EPSF-3.0\n%%BoundingBox: ");
        push_milli(sat_sub(lo_x, (w / 10) as i64), &mut out);
        out.append(" ");
        push_milli(sat_sub(lo_y, (h / 10) as i64), &mut out);
        out.append(" ");
        push_milli(far_corner(lo_x, w / 10, w + 2 * (w / 10)), &mut out);
        out.append(" ");
        push_milli(far_corner(lo_y, h / 10, h + 2 * (h / 10)), &mut out);
        out.append("\n%%LanguageLevel: 2\n%%Pages: 1\n%%Page: 1 1\n");
        push_milli_u(stroke, &mut out);
        out.append(" setlinewidth\n");
        let ghost header = out@;
        let n = paths.len();
        assert(pv.take(0) =~= Seq::<Seq<Position>>::empty());
        for i in 0..n
            invariant
                n == paths@.len(),
                paths@.map_values(|p: Vec<Position>| p@) == pv,
                out@ == header + eps_body(pv.take(i as int)),
        {
            let path = &paths[i];
            assert(path@ == pv[i as int]);
            emit_eps_path(path, &mut out);
            proof {
                assert(pv.take(i as int + 1).drop_last() =~= pv.take(i as int));
                assert(out@ =~= header + eps_body(pv.take(i as int + 1)));
            }
        }
        out.append("%%EOF\n");
        proof {
            assert(pv.take(n as int) =~= pv);
            assert(out@ =~= eps_doc(pv));
        }
        out
    }
}

/// Append one polyline's SVG `path` element to `out`.
fn emit_svg_path(path: &Vec<Position>, out: &mut String)
    ensures
        final(out)@ == old(out)@ + svg_path_elem(path@),
    {
        let ghost ps = path@;
        let m = path.len();
        if m < 2 {
            proof {
                assert(final(out)@ =~= old(out)@ + svg_path_elem(ps));
            }
            return ;
        }
        proof {
            reveal_strlit(" ");
            assert(" "@ =~= seq![' ']);
        }
        out.append("<path d=\"M");
        let p0 = path[0];
        push_milli(p0.0, out);
        out.append(" ");
        push_milli(sat_neg(p0.1), out);
        let ghost start = out@;
        assert(svg_path_tail(ps.take(1)) =~= Seq::<char>::empty());
        for j in 1..m
            invariant
                m == path.len(),
                path@ == ps,
                2 <= m,
                out@ == start + svg_path_tail(ps.take(j as int)),
        {
            let p = path[j];
            out.append(" L");
            push_milli(p.0, out);
            out.append(" ");
            push_milli(sat_neg(p.1), out);
            proof {
                assert(ps.take(j as int + 1).drop_last() =~= ps.take(j as int));
                assert(out@ =~= start + svg_path_tail(ps.take(j as int + 1)));
            }
        }
        out.append("\" />\n");
        proof {
            assert(ps.take(m as int) =~= ps);
            assert(final(out)@ =~= old(out)@ + svg_path_elem(ps));
        }
    }

/// Append one polyline's EPS stroke block to `out`.
fn emit_eps_path(path: &Vec<Position>, out: &mut String)
    ensures
        final(out)@ == old(out)@ + eps_path_elem(path@),
    {
        let ghost ps = path@;
        let m = path.len();
        if m < 2 {
            proof {
                assert(final(out)@ =~= old(out)@ + eps_path_elem(ps));
            }
            return ;
        }
        proof {
            reveal_strlit(" ");
            assert(" "@ =~= seq![' ']);
        }
        out.append("newpath\n  ");
        let p0 = path[0];
        push_milli(p0.0, out);
        out.append(" ");
        push_milli(p0.1, out);
        out.append(" moveto\n");
        let ghost start = out@;
        assert(eps_path_tail(ps.take(1)) =~= Seq::<char>::empty());
        for j in 1..m
            invariant
                m == path.len(),
                path@ == ps,
                2 <= m,
                out@ == start + eps_path_tail(ps.take(j as int)),
        {
            let p = path[j];
            out.append("  ");
            push_milli(p.0, out);
            out.append(" ");
            push_milli(p.1, out);
            out.append(" lineto\n");
            proof {
                assert(ps.take(j as int + 1).drop_last() =~= ps.take(j as int));
                assert(out@ =~= start + eps_path_tail(ps.take(j as int + 1)));
            }
        }
        out.append("stroke\n");
        proof {
            assert(ps.take(m as int) =~= ps);
            assert(final(out)@ =~= old(out)@ + eps_path_elem(ps));
        }
    }

} // verus!
