use asteroids::asteroid::{Asteroid, AsteroidGenerator, AsteroidSize, BREAK_NUM, HEADING_JITTER};
use asteroids::geometry::{Vector2, FULL_TURN, HALF_TURN, QUARTER_TURN, UNITS_PER_PIXEL};
use asteroids::ship::{Bullet, Direction, Ship, BULLET_SPEED, ROTATE_INC, SHIP_SPEED};

const W: i64 = 800 * UNITS_PER_PIXEL;
const H: i64 = 600 * UNITS_PER_PIXEL;

fn arena() -> Vector2 {
    Vector2::new(W, H)
}

fn large(x: i64, y: i64, hit_points: u8) -> Asteroid {
    let mut a = Asteroid::with_speed(Vector2::new(x, y), 0, 64000, 64000, arena(), 3000);
    a.hit_points = hit_points;
    a
}

#[test]
fn ship_fires_from_its_position_and_the_bullet_leaves_the_arena() {
    let mut ship = Ship::new(40000, 40000);
    ship.set_position(Vector2::new(400 * UNITS_PER_PIXEL, 300 * UNITS_PER_PIXEL));
    ship.set_orientation(0);
    let pos = ship.fire().unwrap();
    let mut b = Bullet::new(pos, ship.get_orientation());
    assert_eq!(b.position(), Vector2::new(400000, 300000));
    assert_eq!(b.heading, 0);
    assert_eq!(ship.active_shots, 1);
    let mut frames = 0;
    while b.in_bounds(W, H) {
        b.update();
        frames += 1;
    }
    // 300 pixels up at 9 pixels a frame
    assert_eq!(frames, 34);
    assert_eq!(b.position().x, 400000);
    assert!(b.position().y <= 0);
    let mut bullets = vec![b];
    bullets.retain(|b| b.in_bounds(W, H));
    assert!(bullets.is_empty());
}

#[test]
fn ship_fire_respects_the_shot_limit() {
    let mut ship = Ship::new(40000, 40000);
    for _ in 0..4 {
        assert!(ship.fire().is_some());
    }
    assert_eq!(ship.active_shots, 4);
    assert_eq!(ship.fire(), None);
    assert_eq!(ship.active_shots, 4);
    ship.reclaim_shot();
    assert_eq!(ship.active_shots, 3);
    assert!(ship.fire().is_some());
    assert_eq!(ship.fire(), None);
}

#[test]
fn reclaim_shot_floors_at_zero() {
    let mut ship = Ship::new(40000, 40000);
    ship.reclaim_shot();
    assert_eq!(ship.active_shots, 0);
}

#[test]
fn ship_moves_along_its_orientation() {
    let mut ship = Ship::new(40000, 40000);
    ship.set_position(Vector2::new(100000, 100000));
    ship.move_ship();
    assert_eq!(ship.position(), Vector2::new(100000, 100000 - SHIP_SPEED));
    ship.set_orientation(QUARTER_TURN);
    ship.move_ship();
    assert_eq!(ship.position(), Vector2::new(100000 + SHIP_SPEED, 100000 - SHIP_SPEED));
}

#[test]
fn dead_ship_does_not_move() {
    let mut ship = Ship::new(40000, 40000);
    ship.set_position(Vector2::new(100000, 100000));
    for _ in 0..5 {
        ship.take_damage();
    }
    assert_eq!(ship.get_lives(), 0);
    assert!(!ship.is_alive());
    ship.move_ship();
    assert_eq!(ship.position(), Vector2::new(100000, 100000));
}

#[test]
fn take_damage_counts_down_lives() {
    let mut ship = Ship::new(40000, 40000);
    assert_eq!(ship.get_lives(), 3);
    ship.take_damage();
    assert_eq!(ship.get_lives(), 2);
    assert!(ship.is_alive());
}

#[test]
fn rotation_wraps_around_a_full_turn() {
    let mut ship = Ship::new(40000, 40000);
    ship.rotate_ship(Direction::CCW);
    assert_eq!(ship.get_orientation(), FULL_TURN - ROTATE_INC);
    ship.rotate_ship(Direction::CW);
    ship.rotate_ship(Direction::CW);
    assert_eq!(ship.get_orientation(), ROTATE_INC);
    ship.set_orientation(-HALF_TURN);
    assert_eq!(ship.get_orientation(), HALF_TURN);
}

#[test]
fn wrap_bounds_leaves_an_inside_ship_alone() {
    let mut ship = Ship::new(40000, 40000);
    ship.set_position(Vector2::new(400000, 300000));
    let before = ship;
    ship.wrap_bounds(W, H);
    assert_eq!(ship, before);
    ship.wrap_bounds(W, H);
    assert_eq!(ship, before);
}

#[test]
fn wrap_bounds_moves_a_ship_at_an_edge_to_the_other_side() {
    let mut ship = Ship::new(40000, 40000);
    ship.set_position(Vector2::new(-5000, 600000));
    ship.wrap_bounds(W, H);
    assert_eq!(ship.position(), Vector2::new(795000, 0));
    ship.wrap_bounds(W, H);
    assert_eq!(ship.position(), Vector2::new(795000, 600000));
}

#[test]
fn set_origin_centres_the_ship() {
    let mut ship = Ship::new(40000, 30000);
    ship.set_position(Vector2::new(400000, 300000));
    ship.set_origin();
    assert_eq!(ship.origin, Vector2::new(20000, 15000));
    let r = ship.rect();
    assert_eq!((r.left, r.top, r.width, r.height), (380000, 285000, 40000, 30000));
}

#[test]
fn bullet_in_bounds_is_strict() {
    let b = Bullet::new(Vector2::new(0, 300000), 0);
    assert!(!b.in_bounds(W, H));
    let b = Bullet::new(Vector2::new(W, 300000), 0);
    assert!(!b.in_bounds(W, H));
    let b = Bullet::new(Vector2::new(1, 1), 0);
    assert!(b.in_bounds(W, H));
    let mut b = Bullet::new(Vector2::new(1000, 1000), HALF_TURN);
    b.update();
    assert_eq!(b.position(), Vector2::new(1000, 1000 + BULLET_SPEED));
    b.destroy();
    assert!(!b.in_bounds(W, H));
}

#[test]
fn large_asteroid_hit_once_more_splits_into_four_medium() {
    let mut a = large(100000, 100000, 1);
    assert_eq!(a.size, AsteroidSize::Large);
    a.is_hit();
    assert_eq!(a.hit_points, 0);
    assert!(!a.is_alive());
    let parts = a.split().unwrap();
    assert_eq!(parts.len(), 4);
    for (i, p) in parts.iter().enumerate() {
        assert_eq!(p.size, AsteroidSize::Medium);
        assert_eq!(p.hit_points, 2);
        assert!(p.has_entered);
        assert_eq!(p.speed, a.speed);
        assert_eq!(p.position, a.position);
        assert_eq!(p.heading, i as i64 * BREAK_NUM);
        assert_eq!(p.rect().width, 32000);
    }
}

#[test]
fn medium_asteroid_splits_into_four_small() {
    let mut a = large(100000, 100000, 1);
    a.is_hit();
    let mut m = a.split().unwrap()[3];
    m.is_hit();
    m.is_hit();
    let parts = m.split().unwrap();
    assert_eq!(parts.len(), 4);
    for p in parts.iter() {
        assert_eq!(p.size, AsteroidSize::Small);
        assert_eq!(p.hit_points, 1);
        assert_eq!(p.rect().width, 16000);
    }
    assert_eq!(parts[2].heading, 3 * BREAK_NUM + 2 * BREAK_NUM);
}

#[test]
fn split_yields_nothing_while_alive_or_when_small() {
    let a = large(100000, 100000, 3);
    assert!(a.split().is_none());
    let mut s = large(100000, 100000, 1);
    s.size = AsteroidSize::Small;
    s.is_hit();
    assert!(s.split().is_none());
}

#[test]
fn hit_points_never_rise_and_floor_at_zero() {
    let mut a = large(100000, 100000, 3);
    let mut last = a.hit_points;
    for _ in 0..5 {
        a.is_hit();
        assert!(a.hit_points <= last);
        last = a.hit_points;
        a.update();
        assert_eq!(a.hit_points, last);
    }
    assert_eq!(a.hit_points, 0);
}

#[test]
fn asteroid_moves_at_its_own_speed_and_latches_entry() {
    let mut a = Asteroid::with_speed(Vector2::new(100000, -100000), HALF_TURN, 64000, 64000, arena(), 2500);
    assert!(!a.has_entered);
    assert!(a.in_bounds());
    a.update();
    assert_eq!(a.position, Vector2::new(100000, -97500));
    assert!(!a.has_entered);
    for _ in 0..20 {
        a.update();
    }
    assert!(a.has_entered);
    a.destroy();
    assert_eq!(a.position, Vector2::new(-100000, -100000));
    assert!(!a.in_bounds());
}

#[test]
fn dead_asteroid_does_not_move() {
    let mut a = large(100000, 100000, 1);
    a.is_hit();
    a.update();
    assert_eq!(a.position, Vector2::new(100000, 100000));
}

#[test]
fn asteroid_contains_and_intersects() {
    let a = large(100000, 100000, 3);
    assert!(a.contains(Vector2::new(100000, 100000)));
    assert!(a.contains(Vector2::new(163999, 163999)));
    assert!(!a.contains(Vector2::new(164000, 120000)));
    let r = asteroids::geometry::Rect { left: 150000, top: 150000, width: 40000, height: 40000 };
    assert!(a.intersects(&r));
    let r = asteroids::geometry::Rect { left: 164000, top: 150000, width: 40000, height: 40000 };
    assert!(!a.intersects(&r));
}

fn outside_arena(p: Vector2) -> bool {
    p.x < 0 || p.x > W || p.y < 0 || p.y > H
}

#[test]
fn generated_asteroid_spawns_outside_the_arena_not_yet_entered() {
    for _ in 0..200 {
        let a = AsteroidGenerator::generate(arena(), 64000, 64000);
        assert!(outside_arena(a.position));
        assert!(!a.has_entered);
        assert_eq!(a.hit_points, 3);
        assert_eq!(a.size, AsteroidSize::Large);
        assert!(a.speed >= 1500 && a.speed < 4000);
        assert!(a.heading >= 0 && a.heading < FULL_TURN);
    }
}

#[test]
fn spawn_ring_lies_outside_the_arena_at_every_degree() {
    for deg in 0..360 {
        let a = AsteroidGenerator::generate_at(arena(), 64000, 64000, deg * 360, 0, 3000);
        assert!(outside_arena(a.position));
    }
}

#[test]
fn spawn_point_and_heading_at_given_angles() {
    let a = AsteroidGenerator::generate_at(arena(), 64000, 64000, 0, 0, 3000);
    // 1.25 times the half-diagonal of 500 pixels, straight up from the centre
    assert_eq!(a.position, Vector2::new(400000, 300000 - 625000));
    assert_eq!(a.heading, HALF_TURN);
    let a = AsteroidGenerator::generate_at(arena(), 64000, 64000, QUARTER_TURN, -HEADING_JITTER, 2000);
    assert_eq!(a.position, Vector2::new(400000 + 625000, 300000));
    assert_eq!(a.heading, 3 * QUARTER_TURN - HEADING_JITTER);
    assert_eq!(a.speed, 2000);
}

#[test]
fn random_speeds_vary() {
    let speeds: Vec<i64> = (0..100)
        .map(|_| Asteroid::new(Vector2::new(0, 0), 0, 64000, 64000, arena()).speed)
        .collect();
    assert!(speeds.iter().all(|s| *s >= 1500 && *s < 4000));
    assert!(speeds.iter().any(|s| *s != speeds[0]));
}

#[test]
fn ship_bounds_follow_its_rotation() {
    let mut ship = Ship::new(40000, 30000);
    ship.set_position(Vector2::new(400000, 300000));
    ship.set_origin();
    ship.set_orientation(QUARTER_TURN);
    let r = ship.rect();
    assert_eq!((r.left, r.top, r.width, r.height), (385000, 280000, 30000, 40000));
    let mut square = Ship::new(40000, 40000);
    square.set_position(Vector2::new(400000, 300000));
    square.set_origin();
    square.set_orientation(QUARTER_TURN / 2);
    let r = square.rect();
    assert_eq!((r.left, r.top, r.width, r.height), (400000 - 28235, 300000 - 28235, 56470, 56470));
}

#[test]
fn zero_width_asteroid_touches_nothing() {
    let a = Asteroid::with_speed(Vector2::new(100000, 100000), 0, 0, 64000, arena(), 3000);
    let r = asteroids::geometry::Rect { left: 50000, top: 50000, width: 100000, height: 100000 };
    assert!(!a.intersects(&r));
    assert!(!a.contains(Vector2::new(100000, 100000)));
}
