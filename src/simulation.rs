//! The frame step: input, motion, population upkeep, collisions and scoring.
use vstd::prelude::*;
use crate::asteroid::{
    advanced, fragment, is_bounded, is_generated, sizes_ok, Asteroid, AsteroidGenerator,
    AsteroidSize, BREAK_NUM, PARKED as ASTEROID_PARKED,
};
use crate::geometry::{rect_contains, rects_overlap, Vector2, ARENA_LIMIT};
use crate::ship::{
    flown, moved, strictly_inside, turned, wrapped_ship, Bullet, Direction, Ship,
    PARKED as BULLET_PARKED, SHOT_LIMIT,
};

verus! {

broadcast use vstd::seq_lib::group_seq_properties;

/// The population below which a new asteroid is spawned each frame.
pub const MAX_ASTEROIDS: usize = 10;

/// Milliseconds after a collision during which the ship takes no further damage.
pub const HIT_COOLDOWN_MS: u64 = 2000;

/// Phase of a session.
#[derive(Clone, Copy, Debug, PartialEq, Eq, Structural)]
pub enum GameState {
    Running,
    GameOver,
}

/// What the player asked for during one frame.
#[derive(Clone, Copy, Debug, PartialEq, Eq, Structural)]
pub struct FrameInput {
    pub has_focus: bool,
    pub forward: bool,
    pub rotate_left: bool,
    pub rotate_right: bool,
    pub fire: bool,
}

/// Everything that changes from frame to frame.
///
/// `asteroid_width` x `asteroid_height` is the full-size image of an
/// asteroid; `last_hit_ms` is when the ship was last damaged.
pub struct Simulation {
    pub ship: Ship,
    pub bullets: Vec<Bullet>,
    pub asteroids: Vec<Asteroid>,
    pub score: u64,
    pub last_hit_ms: u64,
    pub state: GameState,
    pub arena: Vector2,
    pub asteroid_width: i64,
    pub asteroid_height: i64,
}

/// Whether a bullet lies within an asteroid's bounds.
pub open spec fn hit_by(a: Asteroid, b: Bullet) -> bool {
    rect_contains(a.bounds(), b.position.x as int, b.position.y as int)
}

/// The bullet `b` parked off the arena.
pub open spec fn parked(b: Bullet) -> Bullet {
    Bullet { position: Vector2 { x: BULLET_PARKED, y: BULLET_PARKED }, ..b }
}

/// How many of `bullets` lie within `a`'s bounds.
pub open spec fn hits(a: Asteroid, bullets: Seq<Bullet>) -> nat
    decreases bullets.len(),
{
    if bullets.len() == 0 {
        0
    } else {
        hits(a, bullets.drop_last()) + if hit_by(a, bullets.last()) {
            1nat
        } else {
            0nat
        }
    }
}

/// `bullets` with those that lie within `a`'s bounds parked.
pub open spec fn shot_down(a: Asteroid, bullets: Seq<Bullet>) -> Seq<Bullet> {
    bullets.map_values(|b: Bullet| if hit_by(a, b) { parked(b) } else { b })
}

/// `a` after `n` hits.
pub open spec fn after_hits(a: Asteroid, n: nat) -> Asteroid {
    Asteroid { hit_points: if a.hit_points >= n { (a.hit_points - n) as u8 } else { 0 }, ..a }
}

/// The bullet-asteroid pass: each asteroid in turn takes a hit from every
/// bullet within its bounds, and each such bullet is parked and scores one.
/// Gives the asteroids, the bullets, and the points scored.
pub open spec fn collide(asteroids: Seq<Asteroid>, bullets: Seq<Bullet>) -> (
    Seq<Asteroid>,
    Seq<Bullet>,
    nat,
)
    decreases asteroids.len(),
{
    if asteroids.len() == 0 {
        (asteroids, bullets, 0)
    } else {
        let (pa, pb, ps) = collide(asteroids.drop_last(), bullets);
        let a = asteroids.last();
        let n = hits(a, pb);
        (pa.push(after_hits(a, n)), shot_down(a, pb), ps + n)
    }
}

/// The fragments of `a`, if it splits.
pub open spec fn fragments(a: Asteroid) -> Seq<Asteroid> {
    if a.hit_points == 0 && a.size != AsteroidSize::Small {
        Seq::new(BREAK_NUM as nat, |i: int| fragment(a, i))
    } else {
        Seq::empty()
    }
}

/// The fragments of all of `s`, in order.
pub open spec fn all_fragments(s: Seq<Asteroid>) -> Seq<Asteroid>
    decreases s.len(),
{
    if s.len() == 0 {
        Seq::empty()
    } else {
        all_fragments(s.drop_last()) + fragments(s.last())
    }
}

/// Whether an asteroid survives the retain pass.
pub open spec fn keeps_asteroid(a: Asteroid) -> bool {
    a.hit_points > 0 && (is_bounded(a) || !a.has_entered)
}

/// `v` plus `n`, saturating at `u64::MAX`.
pub open spec fn saturating_sum(v: int, n: int) -> u64 {
    if v + n > u64::MAX {
        u64::MAX
    } else {
        (v + n) as u64
    }
}

/// Whether `a`'s bounds overlap the ship's.
pub open spec fn rams(a: Asteroid, ship: Ship) -> bool {
    rects_overlap(a.bounds(), ship.bounds())
}

/// Whether the cooldown since a hit at `last_hit_ms` has run out at `now_ms`.
pub open spec fn cooled_down(last_hit_ms: u64, now_ms: u64) -> bool {
    now_ms >= last_hit_ms && now_ms - last_hit_ms >= HIT_COOLDOWN_MS
}

/// The index of the first asteroid of `s`, from `i` on, that overlaps the
/// ship; `s.len()` if there is none.
pub open spec fn first_ram(s: Seq<Asteroid>, ship: Ship, i: int) -> int
    decreases s.len() - i,
{
    if i < 0 || i >= s.len() {
        s.len() as int
    } else if rams(s[i], ship) {
        i
    } else {
        first_ram(s, ship, i + 1)
    }
}

/// Whether the ship is damaged by an asteroid of `s` at `now_ms`.
pub open spec fn ram_happens(ship: Ship, s: Seq<Asteroid>, last_hit_ms: u64, now_ms: u64) -> bool {
    cooled_down(last_hit_ms, now_ms) && first_ram(s, ship, 0) < s.len()
}

/// The ship after the ship-asteroid collision pass.
pub open spec fn rammed_ship(ship: Ship, s: Seq<Asteroid>, last_hit_ms: u64, now_ms: u64) -> Ship {
    if ram_happens(ship, s, last_hit_ms, now_ms) {
        Ship { life: if ship.life > 0 { (ship.life - 1) as u8 } else { 0 }, ..ship }
    } else {
        ship
    }
}

/// The asteroids after the ship-asteroid collision pass.
pub open spec fn rammed_asteroids(
    ship: Ship,
    s: Seq<Asteroid>,
    last_hit_ms: u64,
    now_ms: u64,
) -> Seq<Asteroid> {
    if ram_happens(ship, s, last_hit_ms, now_ms) {
        let k = first_ram(s, ship, 0);
        s.update(k, Asteroid { position: Vector2 { x: ASTEROID_PARKED, y: ASTEROID_PARKED }, ..s[k] })
    } else {
        s
    }
}

/// The time of the last hit after the ship-asteroid collision pass.
pub open spec fn rammed_clock(ship: Ship, s: Seq<Asteroid>, last_hit_ms: u64, now_ms: u64) -> u64 {
    if ram_happens(ship, s, last_hit_ms, now_ms) {
        now_ms
    } else {
        last_hit_ms
    }
}

impl Simulation {
    /// Every entity well formed, one shot counted for each bullet in flight.
    pub open spec fn wf(&self) -> bool {
        &&& self.ship.wf()
        &&& sizes_ok(self.arena, self.asteroid_width as int, self.asteroid_height as int)
        &&& self.ship.active_shots == self.bullets@.len()
        &&& forall|i: int| 0 <= i < self.bullets@.len() ==> (#[trigger] self.bullets@[i]).wf()
        &&& forall|i: int| 0 <= i < self.asteroids@.len() ==> (#[trigger] self.asteroids@[i]).wf()
    }

    /// A running session in an arena of `width` x `height`: the ship, with
    /// an image of `ship_width` x `ship_height`, at the centre pointing up,
    /// drawn around its middle; no bullet, no asteroid, no points, and the
    /// clock of the last hit at `now_ms`.
    pub fn new(
        width: i64,
        height: i64,
        ship_width: i64,
        ship_height: i64,
        asteroid_width: i64,
        asteroid_height: i64,
        now_ms: u64,
    ) -> (r: Simulation)
        requires
            0 < width <= ARENA_LIMIT,
            0 < height <= ARENA_LIMIT,
            0 <= ship_width <= ARENA_LIMIT,
            0 <= ship_height <= ARENA_LIMIT,
            0 <= asteroid_width <= ARENA_LIMIT,
            0 <= asteroid_height <= ARENA_LIMIT,
        ensures
            r.wf(),
            r.ship.position == Vector2::new_spec((width / 2) as i64, (height / 2) as i64),
            r.ship.orientation == 0,
            r.ship.life == crate::ship::STARTING_LIVES,
            r.ship.width == ship_width,
            r.ship.height == ship_height,
            r.ship.origin == Vector2::new_spec((ship_width / 2) as i64, (ship_height / 2) as i64),
            r.bullets@.len() == 0,
            r.asteroids@.len() == 0,
            r.score == 0,
            r.last_hit_ms == now_ms,
            r.state == GameState::Running,
            r.arena == Vector2::new_spec(width, height),
            r.asteroid_width == asteroid_width,
            r.asteroid_height == asteroid_height,
    {
        let mut ship = Ship::new(ship_width, ship_height);
        ship.set_position(Vector2::new(width / 2, height / 2));
        ship.set_orientation(0);
        ship.set_origin();
        Simulation {
            ship,
            bullets: Vec::new(),
            asteroids: Vec::new(),
            score: 0,
            last_hit_ms: now_ms,
            state: GameState::Running,
            arena: Vector2::new(width, height),
            asteroid_width,
            asteroid_height,
        }
    }
}

impl Simulation {
    /// Bullet-asteroid collisions: each asteroid in turn takes a hit from
    /// every bullet within its bounds, and each such bullet is parked off
    /// the arena and scores a point. The pass does not stop at a bullet's
    /// first hit: later asteroids test it where it was parked.
    pub fn resolve_bullet_hits(&mut self)
        requires
            old(self).wf(),
        ensures
            final(self).wf(),
            final(self).asteroids@ == collide(old(self).asteroids@, old(self).bullets@).0,
            final(self).bullets@ == collide(old(self).asteroids@, old(self).bullets@).1,
            final(self).score == saturating_sum(
                old(self).score as int,
                collide(old(self).asteroids@, old(self).bullets@).2 as int,
            ),
            final(self).ship == old(self).ship,
            final(self).last_hit_ms == old(self).last_hit_ms,
            final(self).state == old(self).state,
            final(self).arena == old(self).arena,
            final(self).asteroid_width == old(self).asteroid_width,
            final(self).asteroid_height == old(self).asteroid_height,
    {
        let ghost a0 = self.asteroids@;
        let ghost b0 = self.bullets@;
        let ghost s0 = self.score;
        let n = self.asteroids.len();
        let mut i: usize = 0;
        assert(a0.take(0) =~= Seq::<Asteroid>::empty());
        while i < n
            invariant
                n == a0.len(),
                0 <= i <= n,
                self.asteroids@.len() == n,
                forall|k: int| 0 <= k < n ==> (#[trigger] a0[k]).wf(),
                forall|k: int| i <= k < n ==> #[trigger] self.asteroids@[k] == a0[k],
                self.asteroids@.take(i as int) == collide(a0.take(i as int), b0).0,
                self.bullets@ == collide(a0.take(i as int), b0).1,
                self.bullets@.len() == b0.len(),
                self.score == saturating_sum(s0 as int, collide(a0.take(i as int), b0).2 as int),
                forall|k: int| 0 <= k < b0.len() ==> (#[trigger] b0[k]).wf(),
                forall|k: int| 0 <= k < b0.len() ==> (#[trigger] self.bullets@[k]).wf(),
                forall|k: int| 0 <= k < i ==> (#[trigger] self.asteroids@[k]).wf(),
                self.ship == old(self).ship,
                self.last_hit_ms == old(self).last_hit_ms,
                self.state == old(self).state,
                self.arena == old(self).arena,
                self.asteroid_width == old(self).asteroid_width,
                self.asteroid_height == old(self).asteroid_height,
            decreases n - i,
        {
            let ghost pb = self.bullets@;
            let ghost sb = self.score;
            let ghost sa = self.asteroids@;
            let orig = self.asteroids[i];
            let mut a = orig;
            let m = self.bullets.len();
            let mut j: usize = 0;
            assert(pb.take(0) =~= Seq::<Bullet>::empty());
            while j < m
                invariant
                    m == pb.len(),
                    0 <= j <= m,
                    orig.wf(),
                    a.wf(),
                    a == after_hits(orig, hits(orig, pb.take(j as int))),
                    self.bullets@.len() == m,
                    forall|k: int|
                        0 <= k < j ==> #[trigger] self.bullets@[k] == (if hit_by(orig, pb[k]) {
                            parked(pb[k])
                        } else {
                            pb[k]
                        }),
                    forall|k: int| j <= k < m ==> #[trigger] self.bullets@[k] == pb[k],
                    forall|k: int| 0 <= k < m ==> (#[trigger] pb[k]).wf(),
                    self.score == saturating_sum(sb as int, hits(orig, pb.take(j as int)) as int),
                    self.asteroids@ == sa,
                    self.ship == old(self).ship,
                self.last_hit_ms == old(self).last_hit_ms,
                self.state == old(self).state,
                self.arena == old(self).arena,
                self.asteroid_width == old(self).asteroid_width,
                self.asteroid_height == old(self).asteroid_height,
                decreases m - j,
            {
                assert(pb.take(j + 1).drop_last() =~= pb.take(j as int));
                let b = self.bullets[j];
                if a.contains(b.position) {
                    a.is_hit();
                    let mut d = b;
                    d.destroy();
                    self.bullets.set(j, d);
                    self.score = self.score.saturating_add(1);
                }
                j = j + 1;
            }
            proof {
                assert(pb.take(m as int) =~= pb);
                assert(self.bullets@ =~= shot_down(orig, pb));
                assert(a0.take(i + 1).drop_last() =~= a0.take(i as int));
            }
            self.asteroids.set(i, a);
            proof {
                assert(self.asteroids@.take(i + 1) =~= self.asteroids@.take(i as int).push(a));
            }
            i = i + 1;
        }
        proof {
            assert(a0.take(n as int) =~= a0);
            assert(self.asteroids@.take(n as int) =~= self.asteroids@);
        }
    }
}

impl Simulation {
    /// The movement pass: every bullet flies and every asteroid moves one frame.
    pub fn advance(&mut self)
        requires
            old(self).wf(),
        ensures
            final(self).wf(),
            final(self).bullets@ == old(self).bullets@.map_values(|b: Bullet| flown(b)),
            final(self).asteroids@ == old(self).asteroids@.map_values(|a: Asteroid| advanced(a)),
            final(self).ship == old(self).ship,
            final(self).score == old(self).score,
            final(self).last_hit_ms == old(self).last_hit_ms,
            final(self).state == old(self).state,
            final(self).arena == old(self).arena,
            final(self).asteroid_width == old(self).asteroid_width,
            final(self).asteroid_height == old(self).asteroid_height,
    {
        let ghost b0 = self.bullets@;
        let ghost a0 = self.asteroids@;
        let n = self.bullets.len();
        let mut j: usize = 0;
        while j < n
            invariant
                n == b0.len(),
                0 <= j <= n,
                self.bullets@.len() == n,
                forall|k: int| 0 <= k < n ==> (#[trigger] b0[k]).wf(),
                forall|k: int|
                    0 <= k < j ==> #[trigger] self.bullets@[k] == flown(b0[k])
                        && self.bullets@[k].wf(),
                forall|k: int| j <= k < n ==> #[trigger] self.bullets@[k] == b0[k],
                self.asteroids@ == a0,
                self.ship == old(self).ship,
                self.score == old(self).score,
                self.last_hit_ms == old(self).last_hit_ms,
                self.state == old(self).state,
                self.arena == old(self).arena,
                self.asteroid_width == old(self).asteroid_width,
                self.asteroid_height == old(self).asteroid_height,
            decreases n - j,
        {
            let mut b = self.bullets[j];
            b.update();
            self.bullets.set(j, b);
            j = j + 1;
        }
        let m = self.asteroids.len();
        let mut i: usize = 0;
        while i < m
            invariant
                m == a0.len(),
                0 <= i <= m,
                self.asteroids@.len() == m,
                forall|k: int| 0 <= k < m ==> (#[trigger] a0[k]).wf(),
                forall|k: int|
                    0 <= k < i ==> #[trigger] self.asteroids@[k] == advanced(a0[k])
                        && self.asteroids@[k].wf(),
                forall|k: int| i <= k < m ==> #[trigger] self.asteroids@[k] == a0[k],
                self.bullets@.len() == n,
                forall|k: int|
                    0 <= k < n ==> #[trigger] self.bullets@[k] == flown(b0[k])
                        && self.bullets@[k].wf(),
                self.ship == old(self).ship,
                self.score == old(self).score,
                self.last_hit_ms == old(self).last_hit_ms,
                self.state == old(self).state,
                self.arena == old(self).arena,
                self.asteroid_width == old(self).asteroid_width,
                self.asteroid_height == old(self).asteroid_height,
            decreases m - i,
        {
            let mut a = self.asteroids[i];
            a.update();
            self.asteroids.set(i, a);
            i = i + 1;
        }
        assert(self.bullets@ =~= b0.map_values(|b: Bullet| flown(b)));
        assert(self.asteroids@ =~= a0.map_values(|a: Asteroid| advanced(a)));
    }

    /// Appends the fragments of every destroyed asteroid, in order, after
    /// the whole population.
    pub fn split_destroyed(&mut self)
        requires
            old(self).wf(),
        ensures
            final(self).wf(),
            final(self).asteroids@ == old(self).asteroids@ + all_fragments(old(self).asteroids@),
            final(self).bullets@ == old(self).bullets@,
            final(self).ship == old(self).ship,
            final(self).score == old(self).score,
            final(self).last_hit_ms == old(self).last_hit_ms,
            final(self).state == old(self).state,
            final(self).arena == old(self).arena,
            final(self).asteroid_width == old(self).asteroid_width,
            final(self).asteroid_height == old(self).asteroid_height,
    {
        let ghost a0 = self.asteroids@;
        let mut temp: Vec<Asteroid> = Vec::new();
        let n = self.asteroids.len();
        let mut i: usize = 0;
        assert(a0.take(0) =~= Seq::<Asteroid>::empty());
        while i < n
            invariant
                n == a0.len(),
                0 <= i <= n,
                self.asteroids@ == a0,
                forall|k: int| 0 <= k < n ==> (#[trigger] a0[k]).wf(),
                temp@ == all_fragments(a0.take(i as int)),
                forall|k: int| 0 <= k < temp@.len() ==> (#[trigger] temp@[k]).wf(),
            decreases n - i,
        {
            let a = self.asteroids[i];
            let ghost t0 = temp@;
            assert(a0.take(i + 1).drop_last() =~= a0.take(i as int));
            match a.split() {
                Some(parts) => {
                    let mut k: usize = 0;
                    while k < parts.len()
                        invariant
                            parts@.len() == BREAK_NUM,
                            0 <= k <= parts@.len(),
                            a.hit_points == 0,
                            a.size != AsteroidSize::Small,
                            forall|q: int|
                                0 <= q < BREAK_NUM ==> (#[trigger] parts@[q]) == fragment(a, q)
                                    && parts@[q].wf(),
                            temp@ == t0 + parts@.take(k as int),
                            forall|q: int| 0 <= q < t0.len() ==> (#[trigger] t0[q]).wf(),
                        decreases parts@.len() - k,
                    {
                        temp.push(parts[k]);
                        assert(parts@.take(k + 1) =~= parts@.take(k as int).push(parts@[k as int]));
                        k = k + 1;
                    }
                    assert(parts@.take(k as int) =~= parts@);
                    assert(parts@ =~= fragments(a));
                },
                None => {
                    assert(fragments(a) =~= Seq::<Asteroid>::empty());
                    assert(temp@ =~= t0 + fragments(a));
                },
            }
            i = i + 1;
        }
        assert(a0.take(n as int) =~= a0);
        self.asteroids.append(&mut temp);
    }
}

/// The retain pass's test on asteroids.
pub open spec fn asteroid_keeper() -> spec_fn(Asteroid) -> bool {
    |a: Asteroid| keeps_asteroid(a)
}

/// The retain pass's test on bullets in an arena of size `arena`.
pub open spec fn bullet_keeper(arena: Vector2) -> spec_fn(Bullet) -> bool {
    |b: Bullet| keeps_bullet(b, arena)
}

/// Whether a bullet at `b` survives the retain pass in an arena of size `arena`.
pub open spec fn keeps_bullet(b: Bullet, arena: Vector2) -> bool {
    strictly_inside(b.position, arena.x as int, arena.y as int)
}

impl Simulation {
    /// The retain pass: asteroids stay while alive and in bounds, bullets
    /// while strictly inside the arena. Each bullet removed releases its
    /// shot back to the ship.
    pub fn retain_live(&mut self)
        requires
            old(self).wf(),
        ensures
            final(self).wf(),
            final(self).asteroids@ == old(self).asteroids@.filter(asteroid_keeper()),
            final(self).bullets@ == old(self).bullets@.filter(bullet_keeper(old(self).arena)),
            final(self).ship == (Ship {
                active_shots: final(self).bullets@.len() as u8,
                ..old(self).ship
            }),
            final(self).score == old(self).score,
            final(self).last_hit_ms == old(self).last_hit_ms,
            final(self).state == old(self).state,
            final(self).arena == old(self).arena,
            final(self).asteroid_width == old(self).asteroid_width,
            final(self).asteroid_height == old(self).asteroid_height,
    {
        let ghost a0 = self.asteroids@;
        let ghost b0 = self.bullets@;
        let ghost ship0 = self.ship;
        let ghost pa = asteroid_keeper();
        let ghost pb = bullet_keeper(self.arena);
        let mut kept: Vec<Asteroid> = Vec::new();
        let n = self.asteroids.len();
        let mut i: usize = 0;
        assert(a0.take(0) =~= Seq::<Asteroid>::empty());
        while i < n
            invariant
                n == a0.len(),
                0 <= i <= n,
                self.asteroids@ == a0,
                forall|k: int| 0 <= k < n ==> (#[trigger] a0[k]).wf(),
                kept@ == a0.take(i as int).filter(pa),
                forall|k: int| 0 <= k < kept@.len() ==> (#[trigger] kept@[k]).wf(),
                pa == asteroid_keeper(),
            decreases n - i,
        {
            let a = self.asteroids[i];
            assert(a0.take(i + 1) =~= a0.take(i as int).push(a));
            proof {
                a0.take(i as int).lemma_filter_push(a, pa);
            }
            if a.is_alive() && a.in_bounds() {
                kept.push(a);
            }
            i = i + 1;
        }
        assert(a0.take(n as int) =~= a0);
        self.asteroids = kept;
        let mut live: Vec<Bullet> = Vec::new();
        let m = self.bullets.len();
        let mut j: usize = 0;
        assert(b0.take(0) =~= Seq::<Bullet>::empty());
        while j < m
            invariant
                m == b0.len(),
                0 <= j <= m,
                self.bullets@ == b0,
                forall|k: int| 0 <= k < m ==> (#[trigger] b0[k]).wf(),
                live@ == b0.take(j as int).filter(pb),
                live@.len() <= j,
                forall|k: int| 0 <= k < live@.len() ==> (#[trigger] live@[k]).wf(),
                pb == bullet_keeper(self.arena),
                self.asteroids@ == a0.filter(pa),
                forall|k: int| 0 <= k < self.asteroids@.len() ==> (#[trigger] self.asteroids@[k]).wf(),
                self.score == old(self).score,
                self.last_hit_ms == old(self).last_hit_ms,
                self.state == old(self).state,
                self.arena == old(self).arena,
                self.asteroid_width == old(self).asteroid_width,
                self.asteroid_height == old(self).asteroid_height,
                self.ship.wf(),
                self.ship == (Ship { active_shots: self.ship.active_shots, ..ship0 }),
                self.ship.active_shots == ship0.active_shots - (j - live@.len()),
                ship0.active_shots == m,
                sizes_ok(self.arena, self.asteroid_width as int, self.asteroid_height as int),
            decreases m - j,
        {
            let b = self.bullets[j];
            assert(b0.take(j + 1) =~= b0.take(j as int).push(b));
            proof {
                b0.take(j as int).lemma_filter_push(b, pb);
            }
            if b.in_bounds(self.arena.x, self.arena.y) {
                live.push(b);
            } else {
                self.ship.reclaim_shot();
            }
            j = j + 1;
        }
        assert(b0.take(m as int) =~= b0);
        self.bullets = live;
    }

    /// Ship-asteroid collision: once the cooldown has run out, the first
    /// asteroid that overlaps the ship damages it, restarts the cooldown at
    /// `now_ms`, and is parked off the arena. Otherwise nothing changes.
    pub fn resolve_ship_hit(&mut self, now_ms: u64)
        requires
            old(self).wf(),
        ensures
            final(self).wf(),
            final(self).bullets@ == old(self).bullets@,
            final(self).score == old(self).score,
            final(self).state == old(self).state,
            final(self).arena == old(self).arena,
            final(self).asteroid_width == old(self).asteroid_width,
            final(self).asteroid_height == old(self).asteroid_height,
            final(self).ship == rammed_ship(
                old(self).ship,
                old(self).asteroids@,
                old(self).last_hit_ms,
                now_ms,
            ),
            final(self).asteroids@ == rammed_asteroids(
                old(self).ship,
                old(self).asteroids@,
                old(self).last_hit_ms,
                now_ms,
            ),
            final(self).last_hit_ms == rammed_clock(
                old(self).ship,
                old(self).asteroids@,
                old(self).last_hit_ms,
                now_ms,
            ),
    {
        let ghost a0 = self.asteroids@;
        let ghost ship0 = self.ship;
        if now_ms >= self.last_hit_ms && now_ms - self.last_hit_ms >= HIT_COOLDOWN_MS {
            let r = self.ship.rect();
            let n = self.asteroids.len();
            let mut i: usize = 0;
            while i < n
                invariant
                    n == self.asteroids@.len(),
                    0 <= i <= n,
                    self.wf(),
                    r == self.ship.bounds(),
                    r.wf(),
                    first_ram(a0, ship0, 0) == first_ram(a0, ship0, i as int),
                    self.asteroids@ == old(self).asteroids@,
                    a0 == old(self).asteroids@,
                    ship0 == old(self).ship,
                    self.ship == old(self).ship,
                    self.bullets@ == old(self).bullets@,
                    self.last_hit_ms == old(self).last_hit_ms,
                    self.score == old(self).score,
                    self.state == old(self).state,
                    self.arena == old(self).arena,
                    self.asteroid_width == old(self).asteroid_width,
                    self.asteroid_height == old(self).asteroid_height,
                    cooled_down(old(self).last_hit_ms, now_ms),
                decreases n - i,
            {
                let mut a = self.asteroids[i];
                if a.intersects(&r) {
                    assert(first_ram(a0, ship0, i as int) == i);
                    self.ship.take_damage();
                    self.last_hit_ms = now_ms;
                    a.destroy();
                    self.asteroids.set(i, a);
                    return;
                }
                i = i + 1;
            }
        }
    }
}

/// Whether the ship fires this frame.
pub open spec fn fires(ship: Ship, input: FrameInput) -> bool {
    input.fire && ship.life > 0 && ship.active_shots < SHOT_LIMIT
}

/// The direction the player turns in, left taking precedence.
pub open spec fn turn_of(input: FrameInput) -> Direction {
    if input.rotate_left {
        Direction::CCW
    } else {
        Direction::CW
    }
}

/// The ship after the input of one frame and the wraparound pass.
pub open spec fn steered(ship: Ship, input: FrameInput, arena: Vector2) -> Ship {
    let s0 = if fires(ship, input) {
        Ship { active_shots: (ship.active_shots + 1) as u8, ..ship }
    } else {
        ship
    };
    let steering = ship.life > 0 && input.has_focus;
    let s1 = if steering && input.forward {
        moved(s0)
    } else {
        s0
    };
    let s2 = if steering && (input.rotate_left || input.rotate_right) {
        turned(s1, turn_of(input))
    } else {
        s1
    };
    wrapped_ship(s2, arena.x as int, arena.y as int)
}

/// The bullets after the input of one frame: a shot fired adds one at the
/// ship's position, along its orientation.
pub open spec fn fired_bullets(ship: Ship, bullets: Seq<Bullet>, input: FrameInput) -> Seq<Bullet> {
    if fires(ship, input) {
        bullets.push(Bullet { position: ship.position, heading: ship.orientation })
    } else {
        bullets
    }
}

/// The asteroids after the spawn pass: `fresh` joins a population below the cap.
pub open spec fn with_spawn(s: Seq<Asteroid>, fresh: Option<Asteroid>) -> Seq<Asteroid> {
    if s.len() < MAX_ASTEROIDS && fresh.is_some() {
        s.push(fresh.unwrap())
    } else {
        s
    }
}

impl Simulation {
    /// Applies one frame's input: a shot when asked for and allowed, then,
    /// with input focus, forward motion and rotation; last the wraparound
    /// pass, whatever the input.
    pub fn apply_input(&mut self, input: FrameInput)
        requires
            old(self).wf(),
        ensures
            final(self).wf(),
            final(self).ship == steered(old(self).ship, input, old(self).arena),
            final(self).bullets@ == fired_bullets(old(self).ship, old(self).bullets@, input),
            final(self).asteroids@ == old(self).asteroids@,
            final(self).score == old(self).score,
            final(self).last_hit_ms == old(self).last_hit_ms,
            final(self).state == old(self).state,
            final(self).arena == old(self).arena,
            final(self).asteroid_width == old(self).asteroid_width,
            final(self).asteroid_height == old(self).asteroid_height,
    {
        let alive = self.ship.is_alive();
        if input.fire && alive {
            match self.ship.fire() {
                Some(pos) => {
                    let b = Bullet::new(pos, self.ship.get_orientation());
                    self.bullets.push(b);
                },
                None => {},
            }
        }
        if alive && input.has_focus {
            if input.forward {
                self.ship.move_ship();
            }
            if input.rotate_left || input.rotate_right {
                let direction = if input.rotate_left {
                    Direction::CCW
                } else {
                    Direction::CW
                };
                self.ship.rotate_ship(direction);
            }
        }
        self.ship.wrap_bounds(self.arena.x, self.arena.y);
        assert(self.bullets@ =~= fired_bullets(old(self).ship, old(self).bullets@, input));
    }

    /// The spawn pass: `fresh` joins the population while it is below
    /// `MAX_ASTEROIDS`.
    pub fn spawn(&mut self, fresh: Option<Asteroid>)
        requires
            old(self).wf(),
            fresh.is_some() ==> fresh.unwrap().wf(),
        ensures
            final(self).wf(),
            final(self).asteroids@ == with_spawn(old(self).asteroids@, fresh),
            final(self).ship == old(self).ship,
            final(self).bullets@ == old(self).bullets@,
            final(self).score == old(self).score,
            final(self).last_hit_ms == old(self).last_hit_ms,
            final(self).state == old(self).state,
            final(self).arena == old(self).arena,
            final(self).asteroid_width == old(self).asteroid_width,
            final(self).asteroid_height == old(self).asteroid_height,
    {
        if self.asteroids.len() < MAX_ASTEROIDS {
            match fresh {
                Some(a) => {
                    self.asteroids.push(a);
                },
                None => {},
            }
        }
    }
}

/// Whether `post` is what one frame makes of `pre`, given the player's
/// `input`, the clock at `now_ms`, and the asteroid `fresh` offered to the
/// spawn pass. A finished session does not change. A running one goes
/// through input and wraparound, spawning, motion, splitting, the retain
/// pass, bullet-asteroid and then ship-asteroid collisions, and is over once
/// the ship has no life left.
pub open spec fn next_frame(
    pre: Simulation,
    input: FrameInput,
    now_ms: u64,
    fresh: Option<Asteroid>,
    post: Simulation,
) -> bool {
    &&& post.arena == pre.arena
    &&& post.asteroid_width == pre.asteroid_width
    &&& post.asteroid_height == pre.asteroid_height
    &&& pre.state == GameState::GameOver ==> {
        &&& post.ship == pre.ship
        &&& post.bullets@ == pre.bullets@
        &&& post.asteroids@ == pre.asteroids@
        &&& post.score == pre.score
        &&& post.last_hit_ms == pre.last_hit_ms
        &&& post.state == GameState::GameOver
    }
    &&& pre.state == GameState::Running ==> {
        let ship1 = steered(pre.ship, input, pre.arena);
        let b1 = fired_bullets(pre.ship, pre.bullets@, input);
        let a1 = with_spawn(pre.asteroids@, fresh);
        let b2 = b1.map_values(|b: Bullet| flown(b));
        let a2 = a1.map_values(|a: Asteroid| advanced(a));
        let a3 = a2 + all_fragments(a2);
        let a4 = a3.filter(asteroid_keeper());
        let b4 = b2.filter(bullet_keeper(pre.arena));
        let ship4 = Ship { active_shots: b4.len() as u8, ..ship1 };
        let (a5, b5, n) = collide(a4, b4);
        &&& post.bullets@ == b5
        &&& post.score == saturating_sum(pre.score as int, n as int)
        &&& post.ship == rammed_ship(ship4, a5, pre.last_hit_ms, now_ms)
        &&& post.asteroids@ == rammed_asteroids(ship4, a5, pre.last_hit_ms, now_ms)
        &&& post.last_hit_ms == rammed_clock(ship4, a5, pre.last_hit_ms, now_ms)
        &&& post.state == if post.ship.life > 0 {
            GameState::Running
        } else {
            GameState::GameOver
        }
    }
}

impl Simulation {
    /// One frame, with `fresh` offered to the spawn pass.
    pub fn step_with(&mut self, input: FrameInput, now_ms: u64, fresh: Option<Asteroid>)
        requires
            old(self).wf(),
            fresh.is_some() ==> fresh.unwrap().wf(),
        ensures
            final(self).wf(),
            next_frame(*old(self), input, now_ms, fresh, *final(self)),
    {
        match self.state {
            GameState::GameOver => {
                return;
            },
            GameState::Running => {},
        }
        self.apply_input(input);
        self.spawn(fresh);
        self.advance();
        self.split_destroyed();
        self.retain_live();
        self.resolve_bullet_hits();
        self.resolve_ship_hit(now_ms);
        if !self.ship.is_alive() {
            self.state = GameState::GameOver;
        }
    }

    /// One frame at `now_ms`: while the population is below the cap, a new
    /// asteroid is generated for the spawn pass.
    pub fn step(&mut self, input: FrameInput, now_ms: u64)
        requires
            old(self).wf(),
        ensures
            final(self).wf(),
            exists|fresh: Option<Asteroid>|
                {
                    &&& (old(self).state == GameState::Running && old(self).asteroids@.len()
                        < MAX_ASTEROIDS) <==> fresh.is_some()
                    &&& fresh.is_some() ==> fresh.unwrap().wf() && is_generated(
                        fresh.unwrap(),
                        old(self).arena,
                        old(self).asteroid_width,
                        old(self).asteroid_height,
                    )
                    &&& next_frame(*old(self), input, now_ms, fresh, *final(self))
                },
    {
        let fresh = if self.state == GameState::Running && self.asteroids.len() < MAX_ASTEROIDS {
            Some(
                AsteroidGenerator::generate(
                    self.arena,
                    self.asteroid_width,
                    self.asteroid_height,
                ),
            )
        } else {
            None
        };
        self.step_with(input, now_ms, fresh);
    }

    /// Whether the session is over.
    pub fn is_over(&self) -> (r: bool)
        ensures
            r == (self.state == GameState::GameOver),
    {
        match self.state {
            GameState::GameOver => true,
            GameState::Running => false,
        }
    }
}

/// The bullet-asteroid pass keeps every asteroid in its place and changes
/// nothing but hit points, which never rise.
pub proof fn lemma_collide_never_raises_hit_points(asteroids: Seq<Asteroid>, bullets: Seq<Bullet>)
    ensures
        collide(asteroids, bullets).0.len() == asteroids.len(),
        collide(asteroids, bullets).1.len() == bullets.len(),
        forall|k: int|
            0 <= k < asteroids.len() ==> (#[trigger] collide(asteroids, bullets).0[k]).hit_points
                <= asteroids[k].hit_points && collide(asteroids, bullets).0[k] == (Asteroid {
                hit_points: collide(asteroids, bullets).0[k].hit_points,
                ..asteroids[k]
            }),
    decreases asteroids.len(),
{
    if asteroids.len() > 0 {
        lemma_collide_never_raises_hit_points(asteroids.drop_last(), bullets);
    }
}

/// Within the cooldown after a hit, no asteroid damages the ship or is
/// parked by it.
pub proof fn lemma_cooldown_blocks_damage(
    ship: Ship,
    asteroids: Seq<Asteroid>,
    last_hit_ms: u64,
    now_ms: u64,
)
    requires
        last_hit_ms <= now_ms < last_hit_ms + HIT_COOLDOWN_MS,
    ensures
        rammed_ship(ship, asteroids, last_hit_ms, now_ms) == ship,
        rammed_asteroids(ship, asteroids, last_hit_ms, now_ms) == asteroids,
        rammed_clock(ship, asteroids, last_hit_ms, now_ms) == last_hit_ms,
{
}

/// Once the cooldown has run out, an asteroid overlapping a live ship
/// takes one of its lives and restarts the cooldown.
pub proof fn lemma_ram_after_cooldown_damages(
    ship: Ship,
    asteroids: Seq<Asteroid>,
    last_hit_ms: u64,
    now_ms: u64,
    k: int,
)
    requires
        now_ms >= last_hit_ms + HIT_COOLDOWN_MS,
        0 <= k < asteroids.len(),
        rams(asteroids[k], ship),
        ship.life > 0,
    ensures
        rammed_ship(ship, asteroids, last_hit_ms, now_ms).life == ship.life - 1,
        rammed_clock(ship, asteroids, last_hit_ms, now_ms) == now_ms,
{
    lemma_first_ram_found(asteroids, ship, 0, k);
}

proof fn lemma_first_ram_found(s: Seq<Asteroid>, ship: Ship, i: int, k: int)
    requires
        0 <= i <= k < s.len(),
        rams(s[k], ship),
    ensures
        i <= first_ram(s, ship, i) <= k,
    decreases k - i,
{
    if !rams(s[i], ship) {
        lemma_first_ram_found(s, ship, i + 1, k);
    }
}

/// A well-formed session counts one shot for each bullet in flight, so it
/// never has more than `SHOT_LIMIT` of them; every frame keeps it well formed.
pub proof fn lemma_shot_limit(sim: Simulation)
    requires
        sim.wf(),
    ensures
        sim.bullets@.len() == sim.ship.active_shots,
        sim.bullets@.len() <= SHOT_LIMIT,
{
}

/// Firing never puts more than `SHOT_LIMIT` bullets of a ship in flight,
/// and keeps one shot counted for each of them.
pub proof fn lemma_fire_within_limit(
    ship: Ship,
    bullets: Seq<Bullet>,
    input: FrameInput,
    arena: Vector2,
)
    requires
        ship.wf(),
        ship.active_shots == bullets.len(),
    ensures
        fired_bullets(ship, bullets, input).len() <= SHOT_LIMIT,
        fired_bullets(ship, bullets, input).len() <= bullets.len() + 1,
        steered(ship, input, arena).active_shots == fired_bullets(ship, bullets, input).len(),
{
}

} // verus!
