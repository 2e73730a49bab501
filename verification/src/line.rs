//! Bresenham's integer line rasterization, as a mathematical path.
//!
//! `line_points` is the deterministic, 8-connected pixel path that
//! `draw_line` produces: step one unit per iteration along the axis with
//! the larger magnitude, accumulate an error term by the minor-axis delta,
//! and step the minor axis — by one, signed by direction — whenever twice
//! the accumulated error reaches the major delta (stepping on equality, so
//! ties break deterministically).

use vstd::prelude::*;

verus! {

/// Sign of an integer: -1, 0 or 1.
pub open spec fn sign(d: int) -> int {
    if d > 0 {
        1
    } else if d < 0 {
        -1
    } else {
        0
    }
}

/// Absolute value of an integer.
pub open spec fn magnitude(d: int) -> int {
    if d >= 0 {
        d
    } else {
        -d
    }
}

/// One Bresenham step from state (x, y, err): the major axis advances one
/// unit; the error grows by the minor delta; when twice the grown error
/// reaches the major delta the minor axis steps too and the error drops by
/// the major delta.
pub open spec fn line_step(
    s: (int, int, int),
    sx: int,
    sy: int,
    dmaj: int,
    dmin: int,
    x_major: bool,
) -> (int, int, int) {
    let e = s.2 + dmin;
    let c = 2 * e >= dmaj;
    if x_major {
        (
            s.0 + sx,
            if c {
                s.1 + sy
            } else {
                s.1
            },
            if c {
                e - dmaj
            } else {
                e
            },
        )
    } else {
        (
            if c {
                s.0 + sx
            } else {
                s.0
            },
            s.1 + sy,
            if c {
                e - dmaj
            } else {
                e
            },
        )
    }
}

/// The (x, y, err) state after `k` Bresenham steps from `p0`.
pub open spec fn line_state(
    p0: (int, int),
    sx: int,
    sy: int,
    dmaj: int,
    dmin: int,
    x_major: bool,
    k: nat,
) -> (int, int, int)
    decreases k,
{
    if k == 0 {
        (p0.0, p0.1, 0)
    } else {
        line_step(
            line_state(p0, sx, sy, dmaj, dmin, x_major, (k - 1) as nat),
            sx,
            sy,
            dmaj,
            dmin,
            x_major,
        )
    }
}

/// The pixel reached after `i` Bresenham steps.
pub open spec fn line_point_at(
    p0: (int, int),
    sx: int,
    sy: int,
    dmaj: int,
    dmin: int,
    x_major: bool,
    i: int,
) -> (int, int) {
    let s = line_state(p0, sx, sy, dmaj, dmin, x_major, i as nat);
    (s.0, s.1)
}

/// The pixel path that drawing a line from `p0` to `p1` sets, both
/// endpoints included: one point per unit along the major axis.
pub open spec fn line_points(p0: (int, int), p1: (int, int)) -> Seq<(int, int)> {
    let dx = magnitude(p1.0 - p0.0);
    let dy = magnitude(p1.1 - p0.1);
    let sx = sign(p1.0 - p0.0);
    let sy = sign(p1.1 - p0.1);
    let x_major = dx >= dy;
    let dmaj = if x_major {
        dx
    } else {
        dy
    };
    let dmin = if x_major {
        dy
    } else {
        dx
    };
    Seq::new((dmaj + 1) as nat, |i: int| line_point_at(p0, sx, sy, dmaj, dmin, x_major, i))
}

/// How far a Bresenham state can drift from its start: after `k` steps
/// each coordinate has moved at most `k` units, and twice the error term
/// stays within [-(dmaj + dmin), dmaj + dmin].
pub proof fn lemma_line_state_bounds(
    p0: (int, int),
    sx: int,
    sy: int,
    dmaj: int,
    dmin: int,
    x_major: bool,
    k: nat,
)
    requires
        -1 <= sx <= 1,
        -1 <= sy <= 1,
        0 <= dmin <= dmaj,
    ensures
        magnitude(line_state(p0, sx, sy, dmaj, dmin, x_major, k).0 - p0.0) <= k,
        magnitude(line_state(p0, sx, sy, dmaj, dmin, x_major, k).1 - p0.1) <= k,
        -(dmaj + dmin) <= 2 * line_state(p0, sx, sy, dmaj, dmin, x_major, k).2 <= dmaj + dmin,
    decreases k,
{
    if k > 0 {
        lemma_line_state_bounds(p0, sx, sy, dmaj, dmin, x_major, (k - 1) as nat);
    }
}

/// Tracks a Bresenham run along the major axis: after `k` steps the major
/// coordinate has advanced exactly `k` signed units, the error term equals
/// the accumulated minor delta minus the minor steps taken times the major
/// delta, and twice the error stays within [-dmaj, dmaj).
proof fn lemma_line_state_track(
    p0: (int, int),
    sx: int,
    sy: int,
    dmaj: int,
    dmin: int,
    x_major: bool,
    k: nat,
)
    requires
        0 < dmaj,
        0 <= dmin <= dmaj,
        -1 <= sx <= 1,
        -1 <= sy <= 1,
        dmin > 0 ==> (if x_major {
            sy != 0
        } else {
            sx != 0
        }),
    ensures
        ({
            let s = line_state(p0, sx, sy, dmaj, dmin, x_major, k);
            &&& x_major ==> s.0 == p0.0 + sx * k && s.2 == k * dmin - (sy * (s.1 - p0.1)) * dmaj
                && (sy == 0 ==> s.1 == p0.1)
            &&& !x_major ==> s.1 == p0.1 + sy * k && s.2 == k * dmin - (sx * (s.0 - p0.0)) * dmaj
                && (sx == 0 ==> s.0 == p0.0)
            &&& -dmaj <= 2 * s.2 < dmaj
        }),
    decreases k,
{
    if k == 0 {
        assert((0int) * dmin - (sy * 0) * dmaj == 0) by (nonlinear_arith);
        assert((0int) * dmin - (sx * 0) * dmaj == 0) by (nonlinear_arith);
    } else {
        lemma_line_state_track(p0, sx, sy, dmaj, dmin, x_major, (k - 1) as nat);
        let prev = line_state(p0, sx, sy, dmaj, dmin, x_major, (k - 1) as nat);
        let s = line_state(p0, sx, sy, dmaj, dmin, x_major, k);
        let e1 = prev.2 + dmin;
        let c = 2 * e1 >= dmaj;
        if dmin == 0 {
            assert(!c);
        }
        if x_major {
            assert(s.0 == prev.0 + sx);
            assert(p0.0 + sx * (k - 1) + sx == p0.0 + sx * k) by (nonlinear_arith);
            let m_prev = sy * (prev.1 - p0.1);
            if c {
                assert(sy != 0);
                assert(s.1 == prev.1 + sy);
                assert(sy * (s.1 - p0.1) == m_prev + 1) by (nonlinear_arith)
                    requires
                        sy == 1 || sy == -1,
                        s.1 == prev.1 + sy,
                        m_prev == sy * (prev.1 - p0.1),
                ;
                assert(s.2 == k * dmin - (m_prev + 1) * dmaj) by (nonlinear_arith)
                    requires
                        s.2 == prev.2 + dmin - dmaj,
                        prev.2 == (k - 1) * dmin - m_prev * dmaj,
                ;
            } else {
                assert(s.1 == prev.1);
                assert(s.2 == k * dmin - m_prev * dmaj) by (nonlinear_arith)
                    requires
                        s.2 == prev.2 + dmin,
                        prev.2 == (k - 1) * dmin - m_prev * dmaj,
                ;
            }
        } else {
            assert(s.1 == prev.1 + sy);
            assert(p0.1 + sy * (k - 1) + sy == p0.1 + sy * k) by (nonlinear_arith);
            let m_prev = sx * (prev.0 - p0.0);
            if c {
                assert(sx != 0);
                assert(s.0 == prev.0 + sx);
                assert(sx * (s.0 - p0.0) == m_prev + 1) by (nonlinear_arith)
                    requires
                        sx == 1 || sx == -1,
                        s.0 == prev.0 + sx,
                        m_prev == sx * (prev.0 - p0.0),
                ;
                assert(s.2 == k * dmin - (m_prev + 1) * dmaj) by (nonlinear_arith)
                    requires
                        s.2 == prev.2 + dmin - dmaj,
                        prev.2 == (k - 1) * dmin - m_prev * dmaj,
                ;
            } else {
                assert(s.0 == prev.0);
                assert(s.2 == k * dmin - m_prev * dmaj) by (nonlinear_arith)
                    requires
                        s.2 == prev.2 + dmin,
                        prev.2 == (k - 1) * dmin - m_prev * dmaj,
                ;
            }
        }
    }
}

/// The path always includes both endpoints: it has one point per unit of
/// the major delta, starts at `p0`, and ends exactly at `p1`.
pub proof fn lemma_line_points_endpoints(p0: (int, int), p1: (int, int))
    ensures
        line_points(p0, p1).len() >= 1,
        line_points(p0, p1).first() == p0,
        line_points(p0, p1).last() == p1,
{
    let dx = magnitude(p1.0 - p0.0);
    let dy = magnitude(p1.1 - p0.1);
    let sx = sign(p1.0 - p0.0);
    let sy = sign(p1.1 - p0.1);
    let x_major = dx >= dy;
    let dmaj = if x_major {
        dx
    } else {
        dy
    };
    let dmin = if x_major {
        dy
    } else {
        dx
    };
    if dmaj == 0 {
        lemma_line_points_degenerate(p0);
    } else {
        lemma_line_state_track(p0, sx, sy, dmaj, dmin, x_major, dmaj as nat);
        let s = line_state(p0, sx, sy, dmaj, dmin, x_major, dmaj as nat);
        if x_major {
            let m = sy * (s.1 - p0.1);
            assert(s.2 == dmaj * (dmin - m)) by (nonlinear_arith)
                requires
                    s.2 == dmaj * dmin - m * dmaj,
            ;
            assert(dmin - m == 0) by (nonlinear_arith)
                requires
                    s.2 == dmaj * (dmin - m),
                    -dmaj <= 2 * s.2 < dmaj,
                    dmaj > 0,
            ;
            assert(sx * dmaj == p1.0 - p0.0) by (nonlinear_arith)
                requires
                    (sx == 1 && dmaj == p1.0 - p0.0) || (sx == -1 && dmaj == p0.0 - p1.0) || (sx
                        == 0 && p1.0 == p0.0),
            ;
            if sy != 0 {
                assert(s.1 - p0.1 == sy * m) by (nonlinear_arith)
                    requires
                        sy == 1 || sy == -1,
                        m == sy * (s.1 - p0.1),
                ;
                assert(sy * dmin == p1.1 - p0.1) by (nonlinear_arith)
                    requires
                        (sy == 1 && dmin == p1.1 - p0.1) || (sy == -1 && dmin == p0.1 - p1.1) || (
                        sy == 0 && p1.1 == p0.1),
                ;
            }
        } else {
            let m = sx * (s.0 - p0.0);
            assert(s.2 == dmaj * (dmin - m)) by (nonlinear_arith)
                requires
                    s.2 == dmaj * dmin - m * dmaj,
            ;
            assert(dmin - m == 0) by (nonlinear_arith)
                requires
                    s.2 == dmaj * (dmin - m),
                    -dmaj <= 2 * s.2 < dmaj,
                    dmaj > 0,
            ;
            assert(sy * dmaj == p1.1 - p0.1) by (nonlinear_arith)
                requires
                    (sy == 1 && dmaj == p1.1 - p0.1) || (sy == -1 && dmaj == p0.1 - p1.1) || (sy
                        == 0 && p1.1 == p0.1),
            ;
            if sx != 0 {
                assert(s.0 - p0.0 == sx * m) by (nonlinear_arith)
                    requires
                        sx == 1 || sx == -1,
                        m == sx * (s.0 - p0.0),
                ;
                assert(sx * dmin == p1.0 - p0.0) by (nonlinear_arith)
                    requires
                        (sx == 1 && dmin == p1.0 - p0.0) || (sx == -1 && dmin == p0.0 - p1.0) || (
                        sx == 0 && p1.0 == p0.0),
                ;
            }
        }
    }
}

/// A line whose endpoints coincide consists of exactly that one point.
pub proof fn lemma_line_points_degenerate(p: (int, int))
    ensures
        line_points(p, p) =~= seq![p],
{
    assert(line_state(p, 0, 0, 0, 0, true, 0) == (p.0, p.1, 0int));
}

/// States along a horizontal rightward line: the error never accumulates,
/// so y never steps and x advances one pixel per step.
proof fn lemma_line_state_horizontal(x0: int, x1: int, y: int, k: nat)
    requires
        x0 < x1,
        k <= x1 - x0,
    ensures
        line_state((x0, y), 1, 0, x1 - x0, 0, true, k) == (x0 + k, y, 0int),
    decreases k,
{
    if k > 0 {
        lemma_line_state_horizontal(x0, x1, y, (k - 1) as nat);
    }
}

/// A horizontal line from (x0, y) to (x1, y) with x0 <= x1 sets exactly
/// the pixels (x0, y), (x0 + 1, y), ..., (x1, y), in that order.
pub proof fn lemma_line_points_horizontal(x0: int, x1: int, y: int)
    requires
        x0 <= x1,
    ensures
        line_points((x0, y), (x1, y)).len() == x1 - x0 + 1,
        forall|i: int| 0 <= i <= x1 - x0 ==> line_points((x0, y), (x1, y))[i] == (x0 + i, y),
{
    if x0 == x1 {
        lemma_line_points_degenerate((x0, y));
    } else {
        assert forall|i: int| 0 <= i <= x1 - x0 implies line_points((x0, y), (x1, y))[i] == (
        x0 + i,
        y,
        ) by {
            lemma_line_state_horizontal(x0, x1, y, i as nat);
        }
    }
}

/// States along a vertical downward line, by the same argument.
proof fn lemma_line_state_vertical(x: int, y0: int, y1: int, k: nat)
    requires
        y0 < y1,
        k <= y1 - y0,
    ensures
        line_state((x, y0), 0, 1, y1 - y0, 0, false, k) == (x, y0 + k, 0int),
    decreases k,
{
    if k > 0 {
        lemma_line_state_vertical(x, y0, y1, (k - 1) as nat);
    }
}

/// A vertical line from (x, y0) to (x, y1) with y0 <= y1 sets exactly the
/// pixels (x, y0), (x, y0 + 1), ..., (x, y1), in that order.
pub proof fn lemma_line_points_vertical(x: int, y0: int, y1: int)
    requires
        y0 <= y1,
    ensures
        line_points((x, y0), (x, y1)).len() == y1 - y0 + 1,
        forall|i: int| 0 <= i <= y1 - y0 ==> line_points((x, y0), (x, y1))[i] == (x, y0 + i),
{
    if y0 == y1 {
        lemma_line_points_degenerate((x, y0));
    } else {
        assert forall|i: int| 0 <= i <= y1 - y0 implies line_points((x, y0), (x, y1))[i] == (
        x,
        y0 + i,
        ) by {
            lemma_line_state_vertical(x, y0, y1, i as nat);
        }
    }
}

} // verus!
