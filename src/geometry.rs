//! Fixed-point vectors, rectangles and the trigonometry used for motion.
use vstd::prelude::*;
use vstd::math::{max, min};

verus! {

/// Position units per screen pixel.
pub const UNITS_PER_PIXEL: i64 = 1000;

/// Angle units per degree.
pub const UNITS_PER_DEGREE: i64 = 360;

/// One full turn (360 degrees) in angle units.
pub const FULL_TURN: i64 = 129600;

/// Half a turn (180 degrees) in angle units.
pub const HALF_TURN: i64 = 64800;

/// A quarter turn (90 degrees) in angle units.
pub const QUARTER_TURN: i64 = 32400;

/// Sines and cosines are integers scaled by this factor.
pub const TRIG_SCALE: i64 = 1000000;

/// `5 * HALF_TURN * HALF_TURN / 4`, the constant of Bhaskara's sine formula.
pub const BHASKARA_DEN: i64 = 5248800000;

/// Largest magnitude a coordinate may take; motion saturates here.
pub const COORD_LIMIT: i64 = 1000000000000000;

/// Largest per-frame speed of any entity, in position units.
pub const MAX_SPEED: i64 = 1000000;

/// Largest distance that `scale_exec` scales by a sine.
pub const MAX_REACH: i64 = 1000000000;

/// Largest width or height of an arena.
pub const ARENA_LIMIT: i64 = 100000000;

/// An angle brought into `[0, FULL_TURN)`.
pub open spec fn normalize_angle(a: int) -> int {
    a % (FULL_TURN as int)
}

/// Bhaskara's approximation of `TRIG_SCALE * sin(x)` for `x` in `[0, HALF_TURN]`.
pub open spec fn half_sine(x: int) -> int {
    let p = x * (HALF_TURN - x);
    (4 * p * TRIG_SCALE) / (BHASKARA_DEN - p)
}

/// `TRIG_SCALE * sin(a)`, approximated, for any angle `a`.
pub open spec fn sine(a: int) -> int {
    let n = normalize_angle(a);
    if n < HALF_TURN {
        half_sine(n)
    } else {
        -half_sine(n - HALF_TURN)
    }
}

/// `TRIG_SCALE * cos(a)`, approximated: the sine a quarter turn ahead.
pub open spec fn cosine(a: int) -> int {
    sine(a + QUARTER_TURN)
}

/// `speed * s / TRIG_SCALE`, rounded toward zero.
pub open spec fn scale_by(speed: int, s: int) -> int {
    if s >= 0 {
        (speed * s) / (TRIG_SCALE as int)
    } else {
        -((speed * (-s)) / (TRIG_SCALE as int))
    }
}

/// `v` saturated into `[-COORD_LIMIT, COORD_LIMIT]`.
pub open spec fn clamp_coord(v: int) -> int {
    if v > COORD_LIMIT {
        COORD_LIMIT as int
    } else if v < -COORD_LIMIT {
        -COORD_LIMIT
    } else {
        v
    }
}

/// Whether `v` lies within the coordinate range.
pub open spec fn coord_ok(v: int) -> bool {
    -COORD_LIMIT <= v <= COORD_LIMIT
}

/// A point or displacement in position units.
#[derive(Clone, Copy, Debug, PartialEq, Eq, Structural)]
pub struct Vector2 {
    pub x: i64,
    pub y: i64,
}

impl Vector2 {
    /// Both coordinates lie within the coordinate range.
    pub open spec fn wf(&self) -> bool {
        coord_ok(self.x as int) && coord_ok(self.y as int)
    }

    pub open spec fn new_spec(x: i64, y: i64) -> Vector2 {
        Vector2 { x, y }
    }

    #[verifier::when_used_as_spec(new_spec)]
    pub fn new(x: i64, y: i64) -> (r: Vector2)
        ensures
            r == Vector2::new_spec(x, y),
    {
        Vector2 { x, y }
    }

    /// This point moved by `d`, each coordinate saturating at the coordinate limit.
    pub fn translate(&self, d: Vector2) -> (r: Vector2)
        requires
            self.wf(),
            d.wf(),
        ensures
            r.wf(),
            r.x == clamp_coord(self.x + d.x),
            r.y == clamp_coord(self.y + d.y),
    {
        Vector2 { x: clamp_sum(self.x, d.x), y: clamp_sum(self.y, d.y) }
    }
}

fn clamp_sum(a: i64, b: i64) -> (r: i64)
    requires
        coord_ok(a as int),
        coord_ok(b as int),
    ensures
        r == clamp_coord(a + b),
{
    let s = a + b;
    if s > COORD_LIMIT {
        COORD_LIMIT
    } else if s < -COORD_LIMIT {
        -COORD_LIMIT
    } else {
        s
    }
}

/// The angle `a` brought into `[0, FULL_TURN)`.
pub fn normalize(a: i64) -> (r: i64)
    ensures
        r == normalize_angle(a as int),
        0 <= r < FULL_TURN,
{
    let m = a % FULL_TURN;
    if m < 0 {
        m + FULL_TURN
    } else {
        m
    }
}

fn half_sine_exec(x: i64) -> (r: i64)
    requires
        0 <= x <= HALF_TURN,
    ensures
        r == half_sine(x as int),
        0 <= r <= TRIG_SCALE,
{
    assert(0 <= x * (HALF_TURN - x) <= 1049760000) by (nonlinear_arith)
        requires
            0 <= x <= HALF_TURN,
    ;
    let p = x * (HALF_TURN - x);
    let num = 4 * p * TRIG_SCALE;
    let den = BHASKARA_DEN - p;
    assert(num / den <= TRIG_SCALE) by (nonlinear_arith)
        requires
            num == 4 * p * TRIG_SCALE,
            den == BHASKARA_DEN - p,
            0 <= p <= 1049760000,
    ;
    num / den
}

/// The approximate sine lies within `[-TRIG_SCALE, TRIG_SCALE]`.
pub proof fn lemma_sine_range(a: int)
    ensures
        -TRIG_SCALE <= sine(a) <= TRIG_SCALE,
{
    let n = normalize_angle(a);
    let h = HALF_TURN as int;
    let x = if n < h {
        n
    } else {
        n - h
    };
    assert(0 <= x <= h);
    let p = x * (h - x);
    assert(0 <= p <= 1049760000) by (nonlinear_arith)
        requires
            p == x * (h - x),
            0 <= x <= h,
            h == 64800,
    ;
    let num = 4 * p * TRIG_SCALE;
    let den = BHASKARA_DEN - p;
    assert(0 <= num / den <= TRIG_SCALE) by (nonlinear_arith)
        requires
            num == 4 * p * TRIG_SCALE,
            den == BHASKARA_DEN - p,
            0 <= p <= 1049760000,
    ;
}

/// The approximate sine of `a`, scaled by `TRIG_SCALE`.
pub fn sin_of(a: i64) -> (r: i64)
    ensures
        r == sine(a as int),
        -TRIG_SCALE <= r <= TRIG_SCALE,
{
    let n = normalize(a);
    if n < HALF_TURN {
        half_sine_exec(n)
    } else {
        -half_sine_exec(n - HALF_TURN)
    }
}

/// The approximate cosine of `a`, scaled by `TRIG_SCALE`.
pub fn cos_of(a: i64) -> (r: i64)
    ensures
        r == cosine(a as int),
        -TRIG_SCALE <= r <= TRIG_SCALE,
{
    let n = normalize(a);
    proof {
        assert(normalize_angle(n + QUARTER_TURN) == normalize_angle(a + QUARTER_TURN)) by {
            let q = QUARTER_TURN as int;
            let f = FULL_TURN as int;
            vstd::arithmetic::div_mod::lemma_add_mod_noop(a as int, q, f);
            vstd::arithmetic::div_mod::lemma_add_mod_noop(n as int, q, f);
            vstd::arithmetic::div_mod::lemma_mod_twice(a as int, f);
        }
    }
    sin_of(n + QUARTER_TURN)
}

/// `speed * s / TRIG_SCALE`, rounded toward zero.
pub fn scale_exec(speed: i64, s: i64) -> (r: i64)
    requires
        0 <= speed <= MAX_REACH,
        -TRIG_SCALE <= s <= TRIG_SCALE,
    ensures
        r == scale_by(speed as int, s as int),
        -speed <= r <= speed,
{
    if s >= 0 {
        assert(0 <= speed * s <= speed * TRIG_SCALE) by (nonlinear_arith)
            requires
                0 <= speed <= MAX_REACH,
                0 <= s <= TRIG_SCALE,
        ;
        let m = speed * s;
        assert(m / TRIG_SCALE <= speed) by (nonlinear_arith)
            requires
                0 <= m <= speed * TRIG_SCALE,
        ;
        m / TRIG_SCALE
    } else {
        assert(0 <= speed * (-s) <= speed * TRIG_SCALE) by (nonlinear_arith)
            requires
                0 <= speed <= MAX_REACH,
                0 < -s <= TRIG_SCALE,
        ;
        let m = speed * (-s);
        assert(m / TRIG_SCALE <= speed) by (nonlinear_arith)
            requires
                0 <= m <= speed * TRIG_SCALE,
        ;
        -(m / TRIG_SCALE)
    }
}

/// The largest `r` with `r * r <= n`.
pub fn isqrt(n: i64) -> (r: i64)
    requires
        0 <= n <= 1000000000000000000,
    ensures
        0 <= r,
        r * r <= n < (r + 1) * (r + 1),
{
    let mut lo: i64 = 0;
    let mut hi: i64 = 1000000001;
    assert(n < hi * hi);
    while hi - lo > 1
        invariant
            0 <= lo < hi <= 1000000001,
            lo * lo <= n < hi * hi,
        decreases hi - lo,
    {
        let mid = lo + (hi - lo) / 2;
        assert(0 <= mid * mid <= 1000000001 * 1000000001) by (nonlinear_arith)
            requires
                0 <= mid <= 1000000001,
        ;
        if mid * mid <= n {
            lo = mid;
        } else {
            hi = mid;
        }
    }
    lo
}

/// The displacement of one frame's travel at `speed` along `heading`.
pub open spec fn step_spec(heading: int, speed: int) -> Vector2 {
    Vector2 {
        x: scale_by(speed, sine(heading)) as i64,
        y: (-scale_by(speed, cosine(heading))) as i64,
    }
}

/// The displacement of one frame's travel at `speed` along `heading`:
/// `x` grows with the sine, `y` shrinks with the cosine.
pub fn step_along(heading: i64, speed: i64) -> (r: Vector2)
    requires
        0 <= speed <= MAX_SPEED,
    ensures
        r == step_spec(heading as int, speed as int),
        r.wf(),
        -MAX_SPEED <= r.x <= MAX_SPEED,
        -MAX_SPEED <= r.y <= MAX_SPEED,
{
    let dx = scale_exec(speed, sin_of(heading));
    let dy = scale_exec(speed, cos_of(heading));
    Vector2 { x: dx, y: -dy }
}

/// `n / TRIG_SCALE`, rounded toward zero.
pub open spec fn unscale(n: int) -> int {
    if n >= 0 {
        n / (TRIG_SCALE as int)
    } else {
        -((-n) / (TRIG_SCALE as int))
    }
}

/// The `x` coordinate of the point `(x, y)` turned clockwise by the angle `a`
/// about the coordinate origin (`y` grows downward).
pub open spec fn turn_x(x: int, y: int, a: int) -> int {
    unscale(x * cosine(a) - y * sine(a))
}

/// The `y` coordinate of the point `(x, y)` turned clockwise by the angle `a`
/// about the coordinate origin (`y` grows downward).
pub open spec fn turn_y(x: int, y: int, a: int) -> int {
    unscale(x * sine(a) + y * cosine(a))
}

/// The point `(x, y)` turned clockwise by the angle `a` about the coordinate origin.
pub fn turn_point(x: i64, y: i64, a: i64) -> (r: Vector2)
    requires
        -ARENA_LIMIT <= x <= ARENA_LIMIT,
        -ARENA_LIMIT <= y <= ARENA_LIMIT,
    ensures
        r.x == turn_x(x as int, y as int, a as int),
        r.y == turn_y(x as int, y as int, a as int),
        -2 * ARENA_LIMIT <= r.x <= 2 * ARENA_LIMIT,
        -2 * ARENA_LIMIT <= r.y <= 2 * ARENA_LIMIT,
{
    let s = sin_of(a);
    let c = cos_of(a);
    proof {
        lemma_product_bound(x as int, c as int);
        lemma_product_bound(y as int, s as int);
        lemma_product_bound(x as int, s as int);
        lemma_product_bound(y as int, c as int);
    }
    let rx = unscale_exec(x * c - y * s);
    let ry = unscale_exec(x * s + y * c);
    Vector2 { x: rx, y: ry }
}

proof fn lemma_product_bound(v: int, t: int)
    requires
        -ARENA_LIMIT <= v <= ARENA_LIMIT,
        -TRIG_SCALE <= t <= TRIG_SCALE,
    ensures
        -ARENA_LIMIT * TRIG_SCALE <= v * t <= ARENA_LIMIT * TRIG_SCALE,
{
    assert(-ARENA_LIMIT * TRIG_SCALE <= v * t <= ARENA_LIMIT * TRIG_SCALE) by (nonlinear_arith)
        requires
            -ARENA_LIMIT <= v <= ARENA_LIMIT,
            -TRIG_SCALE <= t <= TRIG_SCALE,
    ;
}

fn unscale_exec(n: i64) -> (r: i64)
    requires
        -2 * ARENA_LIMIT * TRIG_SCALE <= n <= 2 * ARENA_LIMIT * TRIG_SCALE,
    ensures
        r == unscale(n as int),
        -2 * ARENA_LIMIT <= r <= 2 * ARENA_LIMIT,
{
    if n >= 0 {
        n / TRIG_SCALE
    } else {
        -((-n) / TRIG_SCALE)
    }
}

/// The least of four values.
pub open spec fn min4(a: int, b: int, c: int, d: int) -> int {
    min(min(a, b), min(c, d))
}

/// The greatest of four values.
pub open spec fn max4(a: int, b: int, c: int, d: int) -> int {
    max(max(a, b), max(c, d))
}

/// The least of four values.
pub fn min4_exec(a: i64, b: i64, c: i64, d: i64) -> (r: i64)
    ensures
        r == min4(a as int, b as int, c as int, d as int),
{
    let ab = if a < b {
        a
    } else {
        b
    };
    let cd = if c < d {
        c
    } else {
        d
    };
    if ab < cd {
        ab
    } else {
        cd
    }
}

/// The greatest of four values.
pub fn max4_exec(a: i64, b: i64, c: i64, d: i64) -> (r: i64)
    ensures
        r == max4(a as int, b as int, c as int, d as int),
{
    let ab = if a > b {
        a
    } else {
        b
    };
    let cd = if c > d {
        c
    } else {
        d
    };
    if ab > cd {
        ab
    } else {
        cd
    }
}

/// An axis-aligned rectangle with non-negative extent.
#[derive(Clone, Copy, Debug, PartialEq, Eq, Structural)]
pub struct Rect {
    pub left: i64,
    pub top: i64,
    pub width: i64,
    pub height: i64,
}

/// Whether `(x, y)` lies in the half-open rectangle.
pub open spec fn rect_contains(r: Rect, x: int, y: int) -> bool {
    r.left <= x < r.left + r.width && r.top <= y < r.top + r.height
}

/// Whether the two rectangles share an area of positive size: the larger
/// left edge lies before the smaller right edge, and the larger top edge
/// before the smaller bottom edge. A rectangle of zero width or height
/// overlaps nothing.
pub open spec fn rects_overlap(a: Rect, b: Rect) -> bool {
    max(a.left as int, b.left as int) < min(a.left + a.width, b.left + b.width) && max(
        a.top as int,
        b.top as int,
    ) < min(a.top + a.height, b.top + b.height)
}

impl Rect {
    /// Corner within twice the coordinate range, extent non-negative and within it.
    pub open spec fn wf(&self) -> bool {
        -2 * COORD_LIMIT <= self.left <= 2 * COORD_LIMIT && -2 * COORD_LIMIT <= self.top <= 2
            * COORD_LIMIT && 0 <= self.width <= COORD_LIMIT
            && 0 <= self.height <= COORD_LIMIT
    }

    /// Whether `p` lies inside: left and top edges included, right and bottom excluded.
    pub fn contains(&self, p: Vector2) -> (r: bool)
        requires
            self.wf(),
        ensures
            r == rect_contains(*self, p.x as int, p.y as int),
    {
        self.left <= p.x && p.x < self.left + self.width && self.top <= p.y && p.y < self.top
            + self.height
    }

    /// Whether the two rectangles share an area of positive size.
    pub fn intersects(&self, o: &Rect) -> (r: bool)
        requires
            self.wf(),
            o.wf(),
        ensures
            r == rects_overlap(*self, *o),
    {
        let left = if self.left > o.left {
            self.left
        } else {
            o.left
        };
        let right = if self.left + self.width < o.left + o.width {
            self.left + self.width
        } else {
            o.left + o.width
        };
        let top = if self.top > o.top {
            self.top
        } else {
            o.top
        };
        let bottom = if self.top + self.height < o.top + o.height {
            self.top + self.height
        } else {
            o.top + o.height
        };
        left < right && top < bottom
    }
}

} // verus!
