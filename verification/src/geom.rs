//! Fixed-point plane geometry: vectors, window-space conversion, the
//! axis-aligned overlap test, integer square roots and direction
//! normalization.

use vstd::prelude::*;

use crate::constants::{
    MAX_STEP, MAX_WINDOW, POS_ALIVE_LIMIT, POS_LIMIT, ROT_DELTA_MAX, SCALE, SIZE_LIMIT, TAU_MRAD,
};

verus! {

/// A two-dimensional vector in fixed-point coordinates (thousandths of a
/// world unit).
#[derive(Clone, Copy, PartialEq, Eq, Structural, Debug)]
pub struct Vec2 {
    pub x: i64,
    pub y: i64,
}

/// Play-field dimensions in fixed-point units, supplied each tick by the
/// windowing collaborator.
#[derive(Clone, Copy, PartialEq, Eq, Structural, Debug)]
pub struct Window {
    pub width: i64,
    pub height: i64,
}

impl Window {
    /// Dimensions are positive and small enough that every coordinate
    /// computation fits in `i64`.
    pub open spec fn wf(self) -> bool {
        0 < self.width <= MAX_WINDOW && 0 < self.height <= MAX_WINDOW
    }
}

/// Absolute value of a mathematical integer.
pub open spec fn iabs(x: int) -> int {
    if x >= 0 {
        x
    } else {
        -x
    }
}

/// Coordinate bound for any entity record, live or destroyed.
pub open spec fn coord_any(c: int) -> bool {
    iabs(c) <= POS_LIMIT
}

/// Coordinate bound for a live entity.
pub open spec fn coord_alive(c: int) -> bool {
    iabs(c) <= POS_ALIVE_LIMIT
}

/// Position bound for any entity record.
pub open spec fn pos_any(p: Vec2) -> bool {
    coord_any(p.x as int) && coord_any(p.y as int)
}

/// Position bound for a live entity.
pub open spec fn pos_alive(p: Vec2) -> bool {
    coord_alive(p.x as int) && coord_alive(p.y as int)
}

/// Window-space position of a world-space point: `win = size/2 - world`.
pub open spec fn spec_to_window(w: Window, p: Vec2) -> Vec2 {
    Vec2 { x: (w.width / 2 - p.x) as i64, y: (w.height / 2 - p.y) as i64 }
}

/// Converts a world-space position to window-space coordinates.
///
/// The same formula maps window space back to world space, so it also
/// serves to place spawn points chosen in window coordinates.
pub fn normalize_coords_in_window(window: &Window, coords: Vec2) -> (r: Vec2)
    requires
        window.wf(),
        pos_any(coords),
    ensures
        r == spec_to_window(*window, coords),
{
    let half_w = (window.width as u64 / 2) as i64;
    let half_h = (window.height as u64 / 2) as i64;
    Vec2 { x: half_w - coords.x, y: half_h - coords.y }
}

/// Strict overlap of two axis-aligned boxes centred at `c1` and `c2` with
/// full sizes `s1` and `s2`: on each axis the centre distance, doubled, is
/// less than the sum of the sides.
pub open spec fn spec_overlaps(c1: Vec2, s1: Vec2, c2: Vec2, s2: Vec2) -> bool {
    &&& 2 * iabs(c1.x - c2.x) < s1.x + s2.x
    &&& 2 * iabs(c1.y - c2.y) < s1.y + s2.y
}

/// Axis-aligned bounding-box overlap test between two centred boxes.
pub fn boxes_overlap(c1: Vec2, s1: Vec2, c2: Vec2, s2: Vec2) -> (r: bool)
    requires
        pos_any(c1),
        pos_any(c2),
        0 <= s1.x <= SIZE_LIMIT,
        0 <= s1.y <= SIZE_LIMIT,
        0 <= s2.x <= SIZE_LIMIT,
        0 <= s2.y <= SIZE_LIMIT,
    ensures
        r == spec_overlaps(c1, s1, c2, s2),
{
    let dx = if c1.x >= c2.x {
        c1.x - c2.x
    } else {
        c2.x - c1.x
    };
    let dy = if c1.y >= c2.y {
        c1.y - c2.y
    } else {
        c2.y - c1.y
    };
    2 * dx < s1.x + s2.x && 2 * dy < s1.y + s2.y
}

/// Floor of the square root of a natural number.
pub open spec fn sqrt_floor(n: nat) -> nat
    decreases n,
{
    if n == 0 {
        0
    } else {
        let r = sqrt_floor((n - 1) as nat);
        if (r + 1) * (r + 1) <= n {
            r + 1
        } else {
            r
        }
    }
}

/// `sqrt_floor(n)` is the unique natural `r` with `r^2 <= n < (r+1)^2`.
pub proof fn lemma_sqrt_floor_bracket(n: nat)
    ensures
        sqrt_floor(n) * sqrt_floor(n) <= n,
        n < (sqrt_floor(n) + 1) * (sqrt_floor(n) + 1),
    decreases n,
{
    if n == 0 {
        let r = sqrt_floor(n);
        assert(r == 0);
        assert(r * r == 0 && (r + 1) * (r + 1) == 1) by (nonlinear_arith)
            requires
                r == 0,
        ;
    } else {
        lemma_sqrt_floor_bracket((n - 1) as nat);
        let p = sqrt_floor((n - 1) as nat);
        assert(p * p <= n - 1);
        assert(n - 1 < (p + 1) * (p + 1));
        if (p + 1) * (p + 1) <= n {
            assert(sqrt_floor(n) == p + 1);
            assert(n <= (p + 1) * (p + 1));
            assert((p + 1) * (p + 1) < (p + 2) * (p + 2)) by (nonlinear_arith)
                requires
                    p >= 0,
            ;
            assert(sqrt_floor(n) * sqrt_floor(n) <= n);
            assert(n < (sqrt_floor(n) + 1) * (sqrt_floor(n) + 1));
        } else {
            assert(sqrt_floor(n) == p);
            assert(sqrt_floor(n) * sqrt_floor(n) <= n);
            assert(n < (sqrt_floor(n) + 1) * (sqrt_floor(n) + 1));
        }
    }
}

/// A square-root bracket pins the root down.
pub proof fn lemma_sqrt_floor_unique(n: nat, r: nat)
    requires
        r * r <= n,
        n < (r + 1) * (r + 1),
    ensures
        r == sqrt_floor(n),
{
    lemma_sqrt_floor_bracket(n);
    let s = sqrt_floor(n);
    if r < s {
        assert((r + 1) * (r + 1) <= s * s) by (nonlinear_arith)
            requires
                r + 1 <= s,
                r >= 0,
        ;
    }
    if s < r {
        assert((s + 1) * (s + 1) <= r * r) by (nonlinear_arith)
            requires
                s + 1 <= r,
                s >= 0,
        ;
    }
}

/// Integer square root by bisection: returns `sqrt_floor(n)`.
pub fn isqrt(n: u64) -> (r: u64)
    ensures
        r == sqrt_floor(n as nat),
        r * r <= n,
        n < (r + 1) * (r + 1),
{
    let mut lo: u64 = 0;
    let mut hi: u64 = 4_294_967_296;
    while lo + 1 < hi
        invariant
            0 <= lo < hi <= 4_294_967_296,
            lo * lo <= n,
            (n as int) < (hi as int) * (hi as int),
        decreases hi - lo,
    {
        let mid = lo + (hi - lo) / 2;
        assert(mid * mid <= 0xffff_ffff * 0xffff_ffff) by (nonlinear_arith)
            requires
                0 <= mid <= 0xffff_ffff,
        ;
        if mid * mid <= n {
            lo = mid;
        } else {
            hi = mid;
        }
    }
    proof {
        assert((n as int) < ((lo + 1) as int) * ((lo + 1) as int));
        lemma_sqrt_floor_unique(n as nat, lo as nat);
    }
    lo
}

/// Squared length of a vector.
pub open spec fn vec_sq_len(v: Vec2) -> int {
    v.x * v.x + v.y * v.y
}

/// Fixed-point unit vector in the direction of `v`: each component is
/// `|component| * SCALE / len` rounded toward zero with the sign restored,
/// where `len` is the integer length of `v`.
pub open spec fn spec_norm_dir(v: Vec2) -> Vec2 {
    let len = sqrt_floor(vec_sq_len(v) as nat) as int;
    let ux = iabs(v.x as int) * (SCALE as int) / len;
    let uy = iabs(v.y as int) * (SCALE as int) / len;
    Vec2 {
        x: (if v.x >= 0 {
            ux
        } else {
            -ux
        }) as i64,
        y: (if v.y >= 0 {
            uy
        } else {
            -uy
        }) as i64,
    }
}

/// Normalizes a non-zero vector to a fixed-point unit direction whose
/// components lie in `[-SCALE, SCALE]`.
pub fn norm_dir(v: Vec2) -> (u: Vec2)
    requires
        v.x != 0 || v.y != 0,
        iabs(v.x as int) <= 400_000_000,
        iabs(v.y as int) <= 400_000_000,
    ensures
        u == spec_norm_dir(v),
        iabs(u.x as int) <= SCALE,
        iabs(u.y as int) <= SCALE,
{
    let ax: u64 = if v.x >= 0 {
        v.x as u64
    } else {
        (-v.x) as u64
    };
    let ay: u64 = if v.y >= 0 {
        v.y as u64
    } else {
        (-v.y) as u64
    };
    proof {
        assert(ax * ax + ay * ay <= 400_000_000 * 400_000_000 + 400_000_000 * 400_000_000)
            by (nonlinear_arith)
            requires
                0 <= ax <= 400_000_000,
                0 <= ay <= 400_000_000,
        ;
        assert(ax * ax == v.x * v.x && ay * ay == v.y * v.y) by (nonlinear_arith)
            requires
                ax == v.x || (ax as int) == -(v.x as int),
                ay == v.y || (ay as int) == -(v.y as int),
        ;
    }
    let sq: u64 = ax * ax + ay * ay;
    assert(sq == vec_sq_len(v));
    let len: u64 = isqrt(sq);
    proof {
        assert(len >= 1) by {
            assert(ax >= 1 || ay >= 1);
            assert(ax * ax + ay * ay >= 1) by (nonlinear_arith)
                requires
                    0 <= ax,
                    0 <= ay,
                    ax >= 1 || ay >= 1,
            ;
            assert(sq >= 1);
            assert(len * len <= sq && sq < (len + 1) * (len + 1));
            if len == 0 {
                assert((len + 1) * (len + 1) == 1) by (nonlinear_arith)
                    requires
                        len == 0,
                ;
                assert(sq < 1);
            }
        }
        assert(ax <= len && ay <= len) by {
            assert(sq < (len + 1) * (len + 1));
            if ax > len {
                assert(ax >= len + 1);
                assert((len + 1) * (len + 1) <= ax * ax) by (nonlinear_arith)
                    requires
                        1 <= len + 1 <= ax,
                ;
                assert(ax * ax <= sq) by (nonlinear_arith)
                    requires
                        0 <= ay,
                        sq == ax * ax + ay * ay,
                ;
            }
            if ay > len {
                assert(ay >= len + 1);
                assert((len + 1) * (len + 1) <= ay * ay) by (nonlinear_arith)
                    requires
                        1 <= len + 1 <= ay,
                ;
                assert(ay * ay <= sq) by (nonlinear_arith)
                    requires
                        0 <= ax,
                        sq == ax * ax + ay * ay,
                ;
            }
        }
    }
    let qx: u64 = ax * 1000 / len;
    let qy: u64 = ay * 1000 / len;
    proof {
        assert(qx <= 1000 && qy <= 1000) by (nonlinear_arith)
            requires
                1 <= len,
                0 <= ax <= len,
                0 <= ay <= len,
                qx == ax * 1000 / (len as int),
                qy == ay * 1000 / (len as int),
        ;
    }
    Vec2 {
        x: if v.x >= 0 {
            qx as i64
        } else {
            -(qx as i64)
        },
        y: if v.y >= 0 {
            qy as i64
        } else {
            -(qy as i64)
        },
    }
}

/// Component scaled by a non-negative fixed-point factor: `t * s / SCALE`
/// rounded toward zero.
pub open spec fn spec_scaled(t: int, s: int) -> int {
    if t >= 0 {
        t * s / (SCALE as int)
    } else {
        -((-t) * s / (SCALE as int))
    }
}

/// Multiplies a unit-direction component by a speed, in sub-units.
pub fn scaled(t: i64, s: i64) -> (r: i64)
    requires
        -SCALE <= t <= SCALE,
        0 <= s <= MAX_STEP,
    ensures
        r == spec_scaled(t as int, s as int),
        iabs(r as int) <= s,
{
    let at: u64 = if t >= 0 {
        t as u64
    } else {
        (-t) as u64
    };
    proof {
        assert(at * (s as u64) <= 1000 * 10_000) by (nonlinear_arith)
            requires
                0 <= at <= 1000,
                0 <= (s as u64) <= 10_000,
        ;
    }
    let q: u64 = at * (s as u64) / 1000;
    proof {
        assert(at * (s as u64) <= 1000 * (s as int)) by (nonlinear_arith)
            requires
                0 <= at <= 1000,
                0 <= s,
        ;
        vstd::arithmetic::div_mod::lemma_div_is_ordered(
            (at * (s as u64)) as int,
            1000 * (s as int),
            1000,
        );
        vstd::arithmetic::div_mod::lemma_div_multiples_vanish(s as int, 1000);
        assert(q <= s);
    }
    if t >= 0 {
        q as i64
    } else {
        -(q as i64)
    }
}

/// The product of a unit direction and a speed, componentwise.
pub open spec fn spec_scaled_vec(t: Vec2, s: int) -> Vec2 {
    Vec2 {
        x: spec_scaled(t.x as int, s) as i64,
        y: spec_scaled(t.y as int, s) as i64,
    }
}

/// Scales a unit direction vector by a speed.
pub fn scaled_vec(t: Vec2, s: i64) -> (r: Vec2)
    requires
        -SCALE <= t.x <= SCALE,
        -SCALE <= t.y <= SCALE,
        0 <= s <= MAX_STEP,
    ensures
        r == spec_scaled_vec(t, s as int),
        iabs(r.x as int) <= s,
        iabs(r.y as int) <= s,
{
    Vec2 { x: scaled(t.x, s), y: scaled(t.y, s) }
}

/// An angle reduced to `[0, TAU_MRAD)` by Euclidean remainder.
pub open spec fn spec_wrap_angle(a: int) -> int {
    a % (TAU_MRAD as int)
}

/// Adds a rotation delta to an accumulated angle, keeping the result in
/// `[0, TAU_MRAD)` milliradians.
pub fn wrap_angle(rot: i64, delta: i64) -> (r: i64)
    requires
        0 <= rot < TAU_MRAD,
        -ROT_DELTA_MAX <= delta <= ROT_DELTA_MAX,
    ensures
        r == spec_wrap_angle(rot + delta),
        0 <= r < TAU_MRAD,
{
    let s = rot + delta;
    if s < 0 {
        s + TAU_MRAD
    } else if s >= TAU_MRAD {
        s - TAU_MRAD
    } else {
        s
    }
}

/// Saturating addition on the scoreboard's integer type.
pub open spec fn spec_sat_add(a: nat, b: nat) -> nat {
    if a + b <= usize::MAX {
        a + b
    } else {
        usize::MAX as nat
    }
}

/// Adds two counts, clamping at the type's maximum.
pub fn sat_add_usize(a: usize, b: usize) -> (r: usize)
    ensures
        r == spec_sat_add(a as nat, b as nat),
{
    if a <= usize::MAX - b {
        a + b
    } else {
        usize::MAX
    }
}

} // verus!
