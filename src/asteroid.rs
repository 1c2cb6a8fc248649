//! Asteroids: their motion, hits, splitting, and spawning at the arena's rim.
use vstd::prelude::*;
use rand::Rng;
use crate::geometry::{
    clamp_coord, cosine, half_sine, isqrt, normalize, normalize_angle, rect_contains, rects_overlap,
    scale_by, scale_exec, sin_of, cos_of, sine, step_along, step_spec, Rect, Vector2, ARENA_LIMIT,
    BHASKARA_DEN, FULL_TURN, HALF_TURN, MAX_SPEED, QUARTER_TURN, TRIG_SCALE, UNITS_PER_PIXEL,
};

verus! {

/// Number of fragments a destroyed asteroid breaks into.
pub const BREAK_NUM: i64 = 4;

/// Base speed of an asteroid, in position units per frame.
pub const MOVE_INC: i64 = 3000;

/// Lowest offset drawn around `MOVE_INC` for a new asteroid's speed.
pub const SPEED_JITTER_LOW: i64 = -1500;

/// Bound, excluded, of the offset drawn around `MOVE_INC`.
pub const SPEED_JITTER_HIGH: i64 = 1000;

/// Largest deviation of a spawned asteroid's heading from the arena's centre (10 degrees).
pub const HEADING_JITTER: i64 = 3600;

/// Hit points of a newly spawned asteroid.
pub const LARGE_HIT_POINTS: u8 = 3;

/// Where a destroyed asteroid is parked, off the arena, until the next retain pass.
pub const PARKED: i64 = -100 * UNITS_PER_PIXEL;

/// Size tier of an asteroid.
#[derive(Clone, Copy, Debug, PartialEq, Eq, Structural)]
pub enum AsteroidSize {
    Large,
    Medium,
    Small,
}

/// The factor an image's size is divided by to draw an asteroid of this tier.
pub open spec fn scale_divisor(size: AsteroidSize) -> int {
    match size {
        AsteroidSize::Large => 1,
        AsteroidSize::Medium => 2,
        AsteroidSize::Small => 4,
    }
}

/// A destructible hazard.
///
/// `position` is the top-left corner of its image, which is `image_width` x
/// `image_height` at full size and shrinks with the tier. `arena` is the
/// size of the arena it moves in.
#[derive(Clone, Copy, Debug, PartialEq, Eq, Structural)]
pub struct Asteroid {
    pub position: Vector2,
    pub heading: i64,
    pub size: AsteroidSize,
    pub hit_points: u8,
    pub has_entered: bool,
    pub speed: i64,
    pub image_width: i64,
    pub image_height: i64,
    pub arena: Vector2,
}

/// The tier a fragment of an asteroid of tier `size` has.
pub open spec fn next_tier(size: AsteroidSize) -> AsteroidSize {
    match size {
        AsteroidSize::Large => AsteroidSize::Medium,
        _ => AsteroidSize::Small,
    }
}

/// The hit points a fragment of tier `size` starts with.
pub open spec fn fragment_hit_points(size: AsteroidSize) -> u8 {
    match size {
        AsteroidSize::Medium => 2,
        _ => 1,
    }
}

/// Fragment `i` of a destroyed asteroid `a`.
pub open spec fn fragment(a: Asteroid, i: int) -> Asteroid {
    Asteroid {
        position: a.position,
        heading: normalize_angle(a.heading + i * BREAK_NUM) as i64,
        size: next_tier(a.size),
        hit_points: fragment_hit_points(next_tier(a.size)),
        has_entered: true,
        speed: a.speed,
        image_width: a.image_width,
        image_height: a.image_height,
        arena: a.arena,
    }
}

/// Whether an asteroid's top-left corner lies within the arena dilated,
/// up and left, by the asteroid's drawn size.
pub open spec fn is_bounded(a: Asteroid) -> bool {
    a.position.x >= -a.bounds().width && a.position.x <= a.arena.x && a.position.y
        >= -a.bounds().height && a.position.y <= a.arena.y
}

/// The asteroid `a` after one frame of motion.
pub open spec fn advanced(a: Asteroid) -> Asteroid {
    if a.hit_points > 0 {
        let d = step_spec(a.heading as int, a.speed as int);
        let moved = Asteroid {
            position: Vector2 {
                x: clamp_coord(a.position.x + d.x) as i64,
                y: clamp_coord(a.position.y + d.y) as i64,
            },
            ..a
        };
        Asteroid { has_entered: a.has_entered || is_bounded(moved), ..moved }
    } else {
        a
    }
}

/// Whether the arena's size and an image's size are within limits.
pub open spec fn sizes_ok(arena: Vector2, image_width: int, image_height: int) -> bool {
    0 < arena.x <= ARENA_LIMIT && 0 < arena.y <= ARENA_LIMIT && 0 <= image_width <= ARENA_LIMIT
        && 0 <= image_height <= ARENA_LIMIT
}

/// The speed a new asteroid gets for a drawn offset `jitter`.
pub open spec fn jittered_speed(jitter: int) -> int {
    MOVE_INC + jitter
}

/// Relies on rand::Rng::gen_range over rand::thread_rng: a value drawn from
/// `[low, high)`; it panics unless `low < high`.
#[verifier::external_body]
fn random_in(low: i64, high: i64) -> (r: i64)
    requires
        low < high,
    ensures
        low <= r < high,
{
    rand::thread_rng().gen_range(low, high)
}

impl Asteroid {
    /// Fields within their ranges.
    pub open spec fn wf(&self) -> bool {
        self.position.wf() && 0 <= self.heading < FULL_TURN && 0 <= self.speed <= MAX_SPEED
            && self.hit_points <= LARGE_HIT_POINTS && sizes_ok(
            self.arena,
            self.image_width as int,
            self.image_height as int,
        )
    }

    /// The asteroid's bounds on screen.
    pub open spec fn bounds(&self) -> Rect {
        Rect {
            left: self.position.x,
            top: self.position.y,
            width: (self.image_width as int / scale_divisor(self.size)) as i64,
            height: (self.image_height as int / scale_divisor(self.size)) as i64,
        }
    }

    /// A large asteroid at `initial_pos` heading along `theta`, with a speed
    /// drawn at random around `MOVE_INC`.
    pub fn new(
        initial_pos: Vector2,
        theta: i64,
        image_width: i64,
        image_height: i64,
        arena: Vector2,
    ) -> (r: Asteroid)
        requires
            initial_pos.wf(),
            sizes_ok(arena, image_width as int, image_height as int),
        ensures
            r.wf(),
            exists|j: int|
                SPEED_JITTER_LOW <= j < SPEED_JITTER_HIGH && r == Asteroid::with_speed_spec(
                    initial_pos,
                    theta,
                    image_width,
                    image_height,
                    arena,
                    jittered_speed(j) as i64,
                ),
    {
        let j = random_in(SPEED_JITTER_LOW, SPEED_JITTER_HIGH);
        let r = Asteroid::with_speed(
            initial_pos,
            theta,
            image_width,
            image_height,
            arena,
            MOVE_INC + j,
        );
        assert(jittered_speed(j as int) as i64 == MOVE_INC + j);
        r
    }

    pub open spec fn with_speed_spec(
        initial_pos: Vector2,
        theta: i64,
        image_width: i64,
        image_height: i64,
        arena: Vector2,
        speed: i64,
    ) -> Asteroid {
        Asteroid {
            position: initial_pos,
            heading: normalize_angle(theta as int) as i64,
            size: AsteroidSize::Large,
            hit_points: LARGE_HIT_POINTS,
            has_entered: false,
            speed,
            image_width,
            image_height,
            arena,
        }
    }

    /// A large asteroid at `initial_pos` heading along `theta` at `speed`,
    /// with full hit points, not yet entered.
    pub fn with_speed(
        initial_pos: Vector2,
        theta: i64,
        image_width: i64,
        image_height: i64,
        arena: Vector2,
        speed: i64,
    ) -> (r: Asteroid)
        requires
            initial_pos.wf(),
            sizes_ok(arena, image_width as int, image_height as int),
            0 <= speed <= MAX_SPEED,
        ensures
            r.wf(),
            r == Asteroid::with_speed_spec(
                initial_pos,
                theta,
                image_width,
                image_height,
                arena,
                speed,
            ),
    {
        Asteroid {
            position: initial_pos,
            heading: normalize(theta),
            size: AsteroidSize::Large,
            hit_points: LARGE_HIT_POINTS,
            has_entered: false,
            speed,
            image_width,
            image_height,
            arena,
        }
    }

    /// The fragments of a destroyed asteroid: none while it has hit points
    /// or when it is small; otherwise `BREAK_NUM` of the next tier, fanned
    /// out from its heading, already counted as entered.
    pub fn split(&self) -> (r: Option<Vec<Asteroid>>)
        requires
            self.wf(),
        ensures
            (self.hit_points > 0 || self.size == AsteroidSize::Small) ==> r.is_none(),
            (self.hit_points == 0 && self.size != AsteroidSize::Small) ==> {
                &&& r.is_some()
                &&& r.unwrap()@.len() == BREAK_NUM
                &&& forall|i: int|
                    0 <= i < BREAK_NUM ==> (#[trigger] r.unwrap()@[i]) == fragment(*self, i)
                        && r.unwrap()@[i].wf()
            },
    {
        if self.hit_points > 0 {
            return None;
        }
        match self.size {
            AsteroidSize::Small => None,
            _ => {
                let size = match self.size {
                    AsteroidSize::Large => AsteroidSize::Medium,
                    _ => AsteroidSize::Small,
                };
                let pts: u8 = match size {
                    AsteroidSize::Medium => 2,
                    _ => 1,
                };
                let mut new_asteroids: Vec<Asteroid> = Vec::new();
                let mut x: i64 = 0;
                while x < BREAK_NUM
                    invariant
                        self.wf(),
                        self.hit_points == 0,
                        self.size != AsteroidSize::Small,
                        size == next_tier(self.size),
                        pts == fragment_hit_points(size),
                        0 <= x <= BREAK_NUM,
                        new_asteroids@.len() == x,
                        forall|i: int|
                            0 <= i < x ==> (#[trigger] new_asteroids@[i]) == fragment(*self, i)
                                && new_asteroids@[i].wf(),
                    decreases BREAK_NUM - x,
                {
                    let a = Asteroid {
                        position: self.position,
                        heading: normalize(self.heading + x * BREAK_NUM),
                        size,
                        hit_points: pts,
                        has_entered: true,
                        speed: self.speed,
                        image_width: self.image_width,
                        image_height: self.image_height,
                        arena: self.arena,
                    };
                    new_asteroids.push(a);
                    x = x + 1;
                }
                Some(new_asteroids)
            },
        }
    }

    /// The asteroid's bounds on screen.
    pub fn rect(&self) -> (r: Rect)
        requires
            self.wf(),
        ensures
            r == self.bounds(),
            r.wf(),
    {
        let (w, h) = match self.size {
            AsteroidSize::Large => (self.image_width, self.image_height),
            AsteroidSize::Medium => (self.image_width / 2, self.image_height / 2),
            AsteroidSize::Small => (self.image_width / 4, self.image_height / 4),
        };
        Rect { left: self.position.x, top: self.position.y, width: w, height: h }
    }

    /// Whether `pos` lies within the asteroid's bounds.
    pub fn contains(&self, pos: Vector2) -> (r: bool)
        requires
            self.wf(),
        ensures
            r == rect_contains(self.bounds(), pos.x as int, pos.y as int),
    {
        self.rect().contains(pos)
    }

    /// Whether the asteroid's bounds overlap `rect` in an area of positive size.
    pub fn intersects(&self, rect: &Rect) -> (r: bool)
        requires
            self.wf(),
            rect.wf(),
        ensures
            r == rects_overlap(self.bounds(), *rect),
    {
        self.rect().intersects(rect)
    }

    /// Whether the asteroid may stay: it has never entered the arena, or it
    /// is still within the arena dilated by its size.
    pub fn in_bounds(&self) -> (r: bool)
        requires
            self.wf(),
        ensures
            r == (is_bounded(*self) || !self.has_entered),
    {
        self.bounded() || !self.has_entered
    }

    /// Whether any hit point is left.
    pub fn is_alive(&self) -> (r: bool)
        ensures
            r == (self.hit_points > 0),
    {
        self.hit_points > 0
    }

    /// Takes one hit point; with none left, nothing changes.
    pub fn is_hit(&mut self)
        requires
            old(self).wf(),
        ensures
            final(self).wf(),
            final(self).hit_points == if old(self).hit_points > 0 {
                old(self).hit_points - 1
            } else {
                0
            },
            final(self).hit_points <= old(self).hit_points,
            *final(self) == (Asteroid { hit_points: final(self).hit_points, ..*old(self) }),
    {
        if self.hit_points > 0 {
            self.hit_points = self.hit_points - 1;
        }
    }

    /// Parks the asteroid off the arena, to be removed by the next retain pass.
    pub fn destroy(&mut self)
        requires
            old(self).wf(),
        ensures
            final(self).wf(),
            *final(self) == (Asteroid { position: Vector2::new_spec(PARKED, PARKED), ..*old(self) }),
    {
        self.position = Vector2::new(PARKED, PARKED);
    }

    /// One frame of motion: an asteroid with hit points left moves along its
    /// heading at its speed, and is latched as entered once it is within
    /// bounds. One without hit points stays as it is.
    pub fn update(&mut self)
        requires
            old(self).wf(),
        ensures
            final(self).wf(),
            *final(self) == advanced(*old(self)),
            final(self).hit_points == old(self).hit_points,
    {
        if self.hit_points > 0 {
            let d = step_along(self.heading, self.speed);
            self.position = self.position.translate(d);
            if self.bounded() {
                self.has_entered = true;
            }
        }
    }

    fn bounded(&self) -> (r: bool)
        requires
            self.wf(),
        ensures
            r == is_bounded(*self),
    {
        let b = self.rect();
        let x = self.position.x;
        let y = self.position.y;
        x >= -b.width && x <= self.arena.x && y >= -b.height && y <= self.arena.y
    }
}

/// Where an asteroid spawns for an arena of size `arena` along angle `theta`
/// from its centre: a quarter further out than the half-diagonal.
pub open spec fn spawn_point(arena: Vector2, theta: int, half_diagonal: int) -> Vector2 {
    let dist = half_diagonal * 5 / 4;
    Vector2 {
        x: (arena.x / 2 + scale_by(dist, sine(theta))) as i64,
        y: (arena.y / 2 - scale_by(dist, cosine(theta))) as i64,
    }
}

/// Whether `d` is the half-diagonal of `arena`, rounded down.
pub open spec fn is_half_diagonal(arena: Vector2, d: int) -> bool {
    let s = (arena.x / 2) * (arena.x / 2) + (arena.y / 2) * (arena.y / 2);
    0 <= d && d * d <= s < (d + 1) * (d + 1)
}

/// The asteroid spawned along `theta`, deviated by `deviation`, at `speed`.
pub open spec fn spawned(
    arena: Vector2,
    image_width: i64,
    image_height: i64,
    theta: int,
    deviation: int,
    speed: int,
    half_diagonal: int,
) -> Asteroid {
    Asteroid::with_speed_spec(
        spawn_point(arena, theta, half_diagonal),
        normalize_angle(theta + HALF_TURN + deviation) as i64,
        image_width,
        image_height,
        arena,
        speed as i64,
    )
}

/// Whether `a` is one that the generator may give for an arena of size
/// `arena` and an image of `image_width` x `image_height`: spawned along
/// some angle, deviated and sped within the jitter ranges.
pub open spec fn is_generated(
    a: Asteroid,
    arena: Vector2,
    image_width: i64,
    image_height: i64,
) -> bool {
    exists|theta: int, deviation: int, jitter: int, d: int|
        0 <= theta < FULL_TURN && -HEADING_JITTER <= deviation < HEADING_JITTER && SPEED_JITTER_LOW
            <= jitter < SPEED_JITTER_HIGH && is_half_diagonal(arena, d) && a == spawned(
            arena,
            image_width,
            image_height,
            theta,
            deviation,
            jittered_speed(jitter),
            d,
        )
}

/// Spawns asteroids at the arena's outer ring, aimed roughly at its centre.
pub struct AsteroidGenerator {}

impl AsteroidGenerator {
    /// The asteroid spawned along angle `theta` from the arena's centre,
    /// heading back toward the centre deviated by `deviation`, at `speed`.
    pub fn generate_at(
        bounds: Vector2,
        image_width: i64,
        image_height: i64,
        theta: i64,
        deviation: i64,
        speed: i64,
    ) -> (r: Asteroid)
        requires
            sizes_ok(bounds, image_width as int, image_height as int),
            0 <= theta < FULL_TURN,
            -HEADING_JITTER <= deviation < HEADING_JITTER,
            0 <= speed <= MAX_SPEED,
        ensures
            r.wf(),
            exists|d: int|
                is_half_diagonal(bounds, d) && r == spawned(
                    bounds,
                    image_width,
                    image_height,
                    theta as int,
                    deviation as int,
                    speed as int,
                    d,
                ),
    {
        let ox = bounds.x / 2;
        let oy = bounds.y / 2;
        assert(0 <= ox * ox + oy * oy <= 5000000000000000) by (nonlinear_arith)
            requires
                0 <= ox <= 50000000,
                0 <= oy <= 50000000,
        ;
        let half_diagonal = isqrt(ox * ox + oy * oy);
        assert(half_diagonal <= 80000000) by (nonlinear_arith)
            requires
                0 <= half_diagonal,
                half_diagonal * half_diagonal <= 5000000000000000,
        ;
        let dist = half_diagonal * 5 / 4;
        let x = ox + scale_exec(dist, sin_of(theta));
        let y = oy - scale_exec(dist, cos_of(theta));
        let heading = normalize(theta + HALF_TURN + deviation);
        let r = Asteroid::with_speed(
            Vector2::new(x, y),
            heading,
            image_width,
            image_height,
            bounds,
            speed,
        );
        assert(is_half_diagonal(bounds, half_diagonal as int));
        r
    }

    /// An asteroid spawned along a random angle, heading back toward the
    /// centre deviated at random by less than `HEADING_JITTER`, with a
    /// random speed around `MOVE_INC`.
    pub fn generate(bounds: Vector2, image_width: i64, image_height: i64) -> (r: Asteroid)
        requires
            sizes_ok(bounds, image_width as int, image_height as int),
        ensures
            r.wf(),
            is_generated(r, bounds, image_width, image_height),
    {
        let theta = random_in(0, FULL_TURN);
        let deviation = random_in(-HEADING_JITTER, HEADING_JITTER);
        let jitter = random_in(SPEED_JITTER_LOW, SPEED_JITTER_HIGH);
        let r = AsteroidGenerator::generate_at(
            bounds,
            image_width,
            image_height,
            theta,
            deviation,
            MOVE_INC + jitter,
        );
        proof {
            let d = choose|d: int|
                is_half_diagonal(bounds, d) && r == spawned(
                    bounds,
                    image_width,
                    image_height,
                    theta as int,
                    deviation as int,
                    (MOVE_INC + jitter) as int,
                    d,
                );
            assert(jittered_speed(jitter as int) == MOVE_INC + jitter);
            assert(r == spawned(
                bounds,
                image_width,
                image_height,
                theta as int,
                deviation as int,
                jittered_speed(jitter as int),
                d,
            ));
        }
        r
    }
}

/// Where the product `x * (HALF_TURN - x)` is at least its value at 45
/// degrees, the sine is at least 0.7.
proof fn lemma_half_sine_large(x: int)
    requires
        0 <= x <= HALF_TURN,
        x * (HALF_TURN - x) >= 787320000,
    ensures
        half_sine(x) >= 700000,
{
    let p = x * (HALF_TURN - x);
    assert(p <= 1049760000) by (nonlinear_arith)
        requires
            p == x * (HALF_TURN - x),
            0 <= x <= HALF_TURN,
    ;
    let num = 4 * p * TRIG_SCALE;
    let den = BHASKARA_DEN - p;
    assert(num >= 700000 * den);
    assert(num / den >= 700000) by (nonlinear_arith)
        requires
            num >= 700000 * den,
            den > 0,
    ;
}

/// Of two angles a quarter turn apart within half a turn, one is at least
/// 45 degrees from both ends.
proof fn lemma_one_of_two_large(u: int)
    requires
        0 <= u <= QUARTER_TURN,
    ensures
        u * (HALF_TURN - u) >= 787320000 || (u + QUARTER_TURN) * (HALF_TURN - (u
            + QUARTER_TURN)) >= 787320000,
{
    if u >= 16200 {
        assert(u * (HALF_TURN - u) >= 787320000) by (nonlinear_arith)
            requires
                16200 <= u <= QUARTER_TURN,
        ;
    } else {
        assert((u + QUARTER_TURN) * (HALF_TURN - (u + QUARTER_TURN)) >= 787320000)
            by (nonlinear_arith)
            requires
                0 <= u < 16200,
        ;
    }
}

/// At every angle the sine or the cosine is at least 0.7 in magnitude.
proof fn lemma_sine_or_cosine_large(theta: int)
    requires
        0 <= theta < FULL_TURN,
    ensures
        sine(theta) >= 700000 || sine(theta) <= -700000 || cosine(theta) >= 700000 || cosine(
            theta,
        ) <= -700000,
{
    let f = FULL_TURN as int;
    let q = QUARTER_TURN as int;
    let h = HALF_TURN as int;
    vstd::arithmetic::div_mod::lemma_small_mod(theta as nat, f as nat);
    if theta + q < f {
        vstd::arithmetic::div_mod::lemma_small_mod((theta + q) as nat, f as nat);
    } else {
        vstd::arithmetic::div_mod::lemma_mod_add_multiples_vanish(theta + q - f, f);
        vstd::arithmetic::div_mod::lemma_small_mod((theta + q - f) as nat, f as nat);
    }
    if theta < q {
        lemma_one_of_two_large(theta);
        if theta * (h - theta) >= 787320000 {
            lemma_half_sine_large(theta);
        } else {
            lemma_half_sine_large(theta + q);
        }
    } else if theta < h {
        lemma_one_of_two_large(theta - q);
        if theta * (h - theta) >= 787320000 {
            lemma_half_sine_large(theta);
        } else {
            lemma_half_sine_large(theta - q);
        }
    } else if theta < h + q {
        lemma_one_of_two_large(theta - h);
        if (theta - h) * (h - (theta - h)) >= 787320000 {
            lemma_half_sine_large(theta - h);
        } else {
            lemma_half_sine_large(theta - q);
        }
    } else {
        lemma_one_of_two_large(theta - h - q);
        if (theta - h) * (h - (theta - h)) >= 787320000 {
            lemma_half_sine_large(theta - h);
        } else {
            lemma_half_sine_large(theta - h - q);
        }
    }
}

/// An asteroid generated for an 800 x 600 pixel arena spawns outside the
/// arena, on neither edge, and has not entered it yet.
pub proof fn lemma_generated_outside_arena(a: Asteroid, image_width: i64, image_height: i64)
    requires
        is_generated(
            a,
            Vector2 { x: 800000, y: 600000 },
            image_width,
            image_height,
        ),
    ensures
        a.position.x < 0 || a.position.x > 800 * UNITS_PER_PIXEL || a.position.y < 0
            || a.position.y > 600 * UNITS_PER_PIXEL,
        !a.has_entered,
{
    let arena = Vector2 { x: 800000, y: 600000 };
    let (theta, deviation, jitter, d) = choose|theta: int, deviation: int, jitter: int, d: int|
        0 <= theta < FULL_TURN && -HEADING_JITTER <= deviation < HEADING_JITTER && SPEED_JITTER_LOW
            <= jitter < SPEED_JITTER_HIGH && is_half_diagonal(arena, d) && a == spawned(
            arena,
            image_width,
            image_height,
            theta,
            deviation,
            jittered_speed(jitter),
            d,
        );
    assert(arena.x / 2 == 400000 && arena.y / 2 == 300000);
    let (ox, oy) = (arena.x / 2, arena.y / 2);
    assert(ox * ox + oy * oy == 250000000000) by (nonlinear_arith)
        requires
            ox == 400000,
            oy == 300000,
    ;
    assert(d == 500000) by (nonlinear_arith)
        requires
            0 <= d,
            d * d <= 250000000000,
            250000000000 < (d + 1) * (d + 1),
    ;
    lemma_sine_or_cosine_large(theta);
    let s = sine(theta);
    let c = cosine(theta);
    assert(-TRIG_SCALE <= s <= TRIG_SCALE && -TRIG_SCALE <= c <= TRIG_SCALE) by {
        crate::geometry::lemma_sine_range(theta);
        crate::geometry::lemma_sine_range(theta + QUARTER_TURN);
    }
    assert(s >= 700000 ==> 625000 * s / 1000000 >= 437500) by (nonlinear_arith);
    assert(s <= -700000 ==> 625000 * (-s) / 1000000 >= 437500) by (nonlinear_arith);
    assert(c >= 700000 ==> 625000 * c / 1000000 >= 437500) by (nonlinear_arith);
    assert(c <= -700000 ==> 625000 * (-c) / 1000000 >= 437500) by (nonlinear_arith);
    assert(625000 * s / 1000000 <= 625000 && 625000 * (-s) / 1000000 <= 625000) by (nonlinear_arith)
        requires
            -TRIG_SCALE <= s <= TRIG_SCALE,
    ;
    assert(625000 * c / 1000000 <= 625000 && 625000 * (-c) / 1000000 <= 625000) by (nonlinear_arith)
        requires
            -TRIG_SCALE <= c <= TRIG_SCALE,
    ;
}

} // verus!
