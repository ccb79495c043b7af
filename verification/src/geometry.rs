use vstd::prelude::*;

verus! {

/// Fixed-point unit: a length of 1.0 on the canvas is `SCALE`.
pub const SCALE: i64 = 65536;

/// Angle units in one full turn of the circle.
pub const TURN: u64 = 65536;

/// A point on the canvas, in fixed-point coordinates (`SCALE` units per 1.0).
#[derive(Clone, Copy, PartialEq, Eq, Structural, Debug)]
pub struct Vec2 {
    pub x: i64,
    pub y: i64,
}

/// The point lies within the square canvas `[-1, 1] x [-1, 1]`.
pub open spec fn in_canvas(v: Vec2) -> bool {
    -SCALE <= v.x && v.x <= SCALE && -SCALE <= v.y && v.y <= SCALE
}

/// The point lies within distance 1.0 of the origin.
pub open spec fn in_unit_disk(v: Vec2) -> bool {
    v.x * v.x + v.y * v.y <= SCALE * SCALE
}

/// Halving with truncation toward zero, as the machine's signed division does.
pub open spec fn half_toward_zero(a: int) -> int {
    if a >= 0 {
        a / 2
    } else {
        -((-a) / 2)
    }
}

/// The half-way point between two points, rounded toward the origin.
pub open spec fn mid_of(a: Vec2, b: Vec2) -> Vec2 {
    Vec2 { x: half_toward_zero(a.x + b.x) as i64, y: half_toward_zero(a.y + b.y) as i64 }
}

/// The half-way point between two canvas points, rounded toward the origin.
pub fn midpoint(a: Vec2, b: Vec2) -> (r: Vec2)
    requires
        in_canvas(a),
        in_canvas(b),
    ensures
        r == mid_of(a, b),
        r.x == half_toward_zero(a.x + b.x),
        r.y == half_toward_zero(a.y + b.y),
        in_canvas(r),
{
    let sx = a.x + b.x;
    let sy = a.y + b.y;
    let x: i64 = if sx >= 0 {
        sx / 2
    } else {
        -((-sx) / 2)
    };
    let y: i64 = if sy >= 0 {
        sy / 2
    } else {
        -((-sy) / 2)
    };
    Vec2 { x, y }
}

/// The value that the rational sine approximation takes over the first half
/// turn, in `SCALE` units: 16u / (5 - 4u) with u = a(H - a) / H^2, written
/// over the integers.
pub open spec fn sin_half_mag_spec(a: int) -> int {
    let p = a * (32768 - a);
    1048576 * p / (5368709120 - 4 * p)
}

/// Magnitude of the approximated sine over the full turn.
pub open spec fn sin_mag_spec(a: int) -> int {
    if a <= 32768 {
        sin_half_mag_spec(a)
    } else {
        sin_half_mag_spec(a - 32768)
    }
}

/// The approximated sine is negative on the second half turn.
pub open spec fn sin_neg_spec(a: int) -> bool {
    a > 32768
}

/// The angle of point `i` of `n` on the circle, in `TURN` units.
pub open spec fn circle_angle(i: int, n: int) -> int {
    i * 65536 / n
}

/// The padded magnitude of the point's x coordinate, before the disk clamp.
pub open spec fn circle_mag_x(i: int, n: int) -> int {
    sin_mag_spec((circle_angle(i, n) + 16384) % 65536) * 95 / 100
}

/// The padded magnitude of the point's y coordinate, before the disk clamp.
pub open spec fn circle_mag_y(i: int, n: int) -> int {
    sin_mag_spec(circle_angle(i, n)) * 95 / 100
}

/// True when the clamp halves the point because the approximation left the
/// unit disk.
pub open spec fn circle_clamped(i: int, n: int) -> bool {
    circle_mag_x(i, n) * circle_mag_x(i, n) + circle_mag_y(i, n) * circle_mag_y(i, n)
        > 4294967296
}

/// The x coordinate of point `i` of `n` on the padded circle.
pub open spec fn circle_point_x(i: int, n: int) -> int {
    let m = if circle_clamped(i, n) {
        circle_mag_x(i, n) / 2
    } else {
        circle_mag_x(i, n)
    };
    if sin_neg_spec((circle_angle(i, n) + 16384) % 65536) {
        -m
    } else {
        m
    }
}

/// The y coordinate of point `i` of `n` on the padded circle.
pub open spec fn circle_point_y(i: int, n: int) -> int {
    let m = if circle_clamped(i, n) {
        circle_mag_y(i, n) / 2
    } else {
        circle_mag_y(i, n)
    };
    if sin_neg_spec(circle_angle(i, n)) {
        -m
    } else {
        m
    }
}

/// Magnitude of the sine over the first half turn, in `SCALE` units.
/// Uses the rational approximation 16u / (5 - 4u) with u = a(H - a) / H^2,
/// whose value stays within [0, 1] for a in [0, H].
fn sin_half_mag(a: u64) -> (r: u64)
    requires
        a <= 32768,
    ensures
        r <= 65536,
        r == sin_half_mag_spec(a as int),
{
    let b = 32768 - a;
    proof {
        assert(a * b <= 268435456) by (nonlinear_arith)
            requires
                0 <= a <= 32768,
                b == 32768 - a,
        ;
    }
    let p = a * b;
    let num = 1048576 * p;
    let den = 5368709120u64 - 4 * p;
    proof {
        assert(num <= den * 65536);
        vstd::arithmetic::div_mod::lemma_multiply_divide_le(num as int, den as int, 65536);
    }
    num / den
}

/// Sine of an angle given in `TURN` units, as a sign and a magnitude.
fn sin_turn(a: u64) -> (r: (bool, u64))
    requires
        a < 65536,
    ensures
        r.1 <= 65536,
        r.1 == sin_mag_spec(a as int),
        r.0 == sin_neg_spec(a as int),
{
    if a <= 32768 {
        (false, sin_half_mag(a))
    } else {
        (true, sin_half_mag(a - 32768))
    }
}

/// Point number `i` of `n` points evenly spaced on the circle of radius
/// 0.95 around the origin, starting at angle zero.  The result is certified
/// to lie inside the unit disk and the canvas.
pub fn circle_point(i: u64, n: u64) -> (r: Vec2)
    requires
        1 <= n,
        i < n,
    ensures
        in_canvas(r),
        in_unit_disk(r),
        r.x == circle_point_x(i as int, n as int),
        r.y == circle_point_y(i as int, n as int),
{
    let wide = (i as u128) * 65536 / (n as u128);
    proof {
        assert((i as int) * 65536 < (n as int) * 65536) by (nonlinear_arith)
            requires
                (i as int) < (n as int),
        ;
        vstd::arithmetic::div_mod::lemma_multiply_divide_lt(
            (i as int) * 65536,
            n as int,
            65536,
        );
    }
    let a = wide as u64;
    let (sneg, smag) = sin_turn(a);
    let c = (a + 16384) % 65536;
    let (cneg, cmag) = sin_turn(c);
    // pad the radius to 95% so the shape does not touch the canvas edge
    let mx = cmag * 95 / 100;
    let my = smag * 95 / 100;
    proof {
        vstd::arithmetic::div_mod::lemma_multiply_divide_le((cmag * 95) as int, 100, 62260);
        vstd::arithmetic::div_mod::lemma_multiply_divide_le((smag * 95) as int, 100, 62260);
        assert(mx * mx <= 62260 * 62260) by (nonlinear_arith)
            requires
                0 <= mx <= 62260,
        ;
        assert(my * my <= 62260 * 62260) by (nonlinear_arith)
            requires
                0 <= my <= 62260,
        ;
    }
    // certified clamp: keep the point inside the unit disk whatever the
    // approximation gave
    let over = mx * mx + my * my > 4294967296;
    let gx = if over {
        mx / 2
    } else {
        mx
    };
    let gy = if over {
        my / 2
    } else {
        my
    };
    proof {
        if over {
            assert(gx * gx + gy * gy <= 4294967296) by (nonlinear_arith)
                requires
                    0 <= gx <= 31130,
                    0 <= gy <= 31130,
            ;
        }
    }
    let x: i64 = if cneg {
        -(gx as i64)
    } else {
        gx as i64
    };
    let y: i64 = if sneg {
        -(gy as i64)
    } else {
        gy as i64
    };
    proof {
        assert((x as int) * (x as int) == (gx as int) * (gx as int)) by (nonlinear_arith)
            requires
                x == gx as int || x == -(gx as int),
        ;
        assert((y as int) * (y as int) == (gy as int) * (gy as int)) by (nonlinear_arith)
            requires
                y == gy as int || y == -(gy as int),
        ;
    }
    Vec2 { x, y }
}

/// The center of the canvas.
pub fn origin() -> (r: Vec2)
    ensures
        r.x == 0,
        r.y == 0,
        in_canvas(r),
        in_unit_disk(r),
{
    Vec2 { x: 0, y: 0 }
}

} // verus!
