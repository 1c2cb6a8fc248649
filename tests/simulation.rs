use asteroids::asteroid::{Asteroid, AsteroidSize};
use asteroids::geometry::{Vector2, HALF_TURN, UNITS_PER_PIXEL};
use asteroids::ship::{Bullet, ROTATE_INC, SHIP_SPEED};
use asteroids::simulation::{FrameInput, GameState, Simulation, MAX_ASTEROIDS};

const W: i64 = 800 * UNITS_PER_PIXEL;
const H: i64 = 600 * UNITS_PER_PIXEL;

fn session() -> Simulation {
    Simulation::new(W, H, 40000, 40000, 64000, 64000, 0)
}

fn idle() -> FrameInput {
    FrameInput { has_focus: true, forward: false, rotate_left: false, rotate_right: false, fire: false }
}

fn rock(x: i64, y: i64) -> Asteroid {
    Asteroid::with_speed(Vector2::new(x, y), 0, 64000, 64000, Vector2::new(W, H), 3000)
}

#[test]
fn new_session_starts_at_the_centre() {
    let sim = session();
    assert_eq!(sim.ship.position(), Vector2::new(400000, 300000));
    assert_eq!(sim.ship.get_orientation(), 0);
    assert_eq!(sim.ship.get_lives(), 3);
    assert_eq!(sim.ship.origin, Vector2::new(20000, 20000));
    assert!(sim.bullets.is_empty());
    assert!(sim.asteroids.is_empty());
    assert_eq!(sim.score, 0);
    assert_eq!(sim.state, GameState::Running);
    assert!(!sim.is_over());
}

#[test]
fn ship_damage_is_gated_by_the_cooldown() {
    let mut sim = session();
    sim.asteroids.push(rock(380000, 280000));
    sim.resolve_ship_hit(2000);
    assert_eq!(sim.ship.get_lives(), 2);
    assert_eq!(sim.last_hit_ms, 2000);
    assert_eq!(sim.asteroids[0].position, Vector2::new(-100000, -100000));
    sim.asteroids.push(rock(390000, 290000));
    sim.resolve_ship_hit(2500);
    assert_eq!(sim.ship.get_lives(), 2);
    assert_eq!(sim.last_hit_ms, 2000);
    assert_eq!(sim.asteroids[1].position, Vector2::new(390000, 290000));
    sim.asteroids.push(rock(385000, 285000));
    sim.resolve_ship_hit(4000);
    assert_eq!(sim.ship.get_lives(), 1);
    assert_eq!(sim.last_hit_ms, 4000);
    assert_eq!(sim.asteroids[1].position, Vector2::new(-100000, -100000));
    assert_eq!(sim.asteroids[2].position, Vector2::new(385000, 285000));
}

#[test]
fn no_damage_before_the_first_cooldown_runs_out() {
    let mut sim = session();
    sim.asteroids.push(rock(380000, 280000));
    sim.resolve_ship_hit(1999);
    assert_eq!(sim.ship.get_lives(), 3);
}

#[test]
fn only_the_first_ramming_asteroid_counts() {
    let mut sim = session();
    sim.asteroids.push(rock(0, 0));
    sim.asteroids.push(rock(380000, 280000));
    sim.asteroids.push(rock(390000, 290000));
    sim.resolve_ship_hit(5000);
    assert_eq!(sim.ship.get_lives(), 2);
    assert_eq!(sim.asteroids[0].position, Vector2::new(0, 0));
    assert_eq!(sim.asteroids[1].position, Vector2::new(-100000, -100000));
    assert_eq!(sim.asteroids[2].position, Vector2::new(390000, 290000));
}

#[test]
fn each_asteroid_in_turn_takes_the_bullets_within_it() {
    let mut sim = session();
    sim.asteroids.push(rock(100000, 100000));
    sim.asteroids.push(rock(120000, 120000));
    sim.asteroids.push(rock(500000, 500000));
    sim.bullets.push(Bullet::new(Vector2::new(130000, 130000), 0));
    sim.bullets.push(Bullet::new(Vector2::new(110000, 110000), 0));
    sim.ship.active_shots = 2;
    sim.resolve_bullet_hits();
    // the first asteroid takes both bullets, which are parked before the second looks
    assert_eq!(sim.score, 2);
    assert_eq!(sim.asteroids[0].hit_points, 1);
    assert_eq!(sim.asteroids[1].hit_points, 3);
    assert_eq!(sim.asteroids[2].hit_points, 3);
    assert_eq!(sim.bullets[0].position(), Vector2::new(-100000, -100000));
    assert_eq!(sim.bullets[1].position(), Vector2::new(-100000, -100000));
}

#[test]
fn a_parked_bullet_scores_again_on_an_asteroid_over_the_parking_spot() {
    let mut sim = session();
    sim.asteroids.push(rock(100000, 100000));
    sim.asteroids.push(rock(-130000, -130000));
    sim.bullets.push(Bullet::new(Vector2::new(110000, 110000), 0));
    sim.ship.active_shots = 1;
    sim.resolve_bullet_hits();
    assert_eq!(sim.score, 2);
    assert_eq!(sim.asteroids[0].hit_points, 2);
    assert_eq!(sim.asteroids[1].hit_points, 2);
}

#[test]
fn retain_pass_drops_dead_and_departed_and_returns_shots() {
    let mut sim = session();
    let mut dead = rock(100000, 100000);
    dead.hit_points = 0;
    let mut gone = rock(900000, 100000);
    gone.has_entered = true;
    let approaching = rock(900000, 100000);
    let live = rock(200000, 200000);
    sim.asteroids = vec![dead, gone, approaching, live];
    sim.bullets = vec![Bullet::new(Vector2::new(0, 10), 0), Bullet::new(Vector2::new(10, 10), 0)];
    sim.ship.active_shots = 2;
    sim.retain_live();
    assert_eq!(sim.asteroids, vec![approaching, live]);
    assert_eq!(sim.bullets.len(), 1);
    assert_eq!(sim.ship.active_shots, 1);
}

#[test]
fn destroyed_asteroids_leave_fragments_behind() {
    let mut sim = session();
    let mut a = rock(100000, 100000);
    a.hit_points = 0;
    sim.asteroids = vec![rock(300000, 300000), a];
    sim.split_destroyed();
    assert_eq!(sim.asteroids.len(), 6);
    assert!(sim.asteroids[2..].iter().all(|p| p.size == AsteroidSize::Medium && p.hit_points == 2));
    sim.retain_live();
    assert_eq!(sim.asteroids.len(), 5);
}

#[test]
fn firing_through_frames_is_capped_at_four_bullets() {
    let mut sim = session();
    let fire = FrameInput { fire: true, ..idle() };
    for _ in 0..6 {
        sim.step_with(fire, 0, None);
        assert!(sim.bullets.len() <= 4);
        assert_eq!(sim.ship.active_shots as usize, sim.bullets.len());
    }
    assert_eq!(sim.bullets.len(), 4);
    // the bullets fly up and off the arena; their shots come back
    for _ in 0..40 {
        sim.step_with(idle(), 0, None);
    }
    assert!(sim.bullets.is_empty());
    assert_eq!(sim.ship.active_shots, 0);
    sim.step_with(fire, 0, None);
    assert_eq!(sim.bullets.len(), 1);
}

#[test]
fn a_frame_moves_and_turns_the_ship_with_focus_only() {
    let mut sim = session();
    let input = FrameInput { forward: true, rotate_left: true, ..idle() };
    sim.step_with(input, 0, None);
    assert_eq!(sim.ship.position(), Vector2::new(400000, 300000 - SHIP_SPEED));
    assert_eq!(sim.ship.get_orientation(), 129600 - ROTATE_INC);
    let unfocused = FrameInput { has_focus: false, ..input };
    sim.step_with(unfocused, 0, None);
    assert_eq!(sim.ship.position(), Vector2::new(400000, 300000 - SHIP_SPEED));
}

#[test]
fn spawn_fills_the_population_up_to_the_cap() {
    let mut sim = session();
    for i in 0..12 {
        sim.step_with(idle(), 0, Some(rock(-300000, -300000)));
        assert_eq!(sim.asteroids.len(), std::cmp::min(i + 1, MAX_ASTEROIDS));
    }
    let mut real = session();
    for _ in 0..12 {
        real.step(idle(), 0);
    }
    assert_eq!(real.asteroids.len(), MAX_ASTEROIDS);
}

#[test]
fn the_session_ends_when_the_last_life_is_lost() {
    let mut sim = session();
    sim.ship.life = 1;
    let mut a = rock(380000, 280000);
    a.heading = HALF_TURN;
    a.speed = 0;
    sim.asteroids.push(a);
    sim.step_with(idle(), 2000, None);
    assert_eq!(sim.ship.get_lives(), 0);
    assert_eq!(sim.state, GameState::GameOver);
    assert!(sim.is_over());
    let score = sim.score;
    sim.step_with(FrameInput { fire: true, forward: true, ..idle() }, 9000, Some(rock(0, 0)));
    assert_eq!(sim.score, score);
    assert_eq!(sim.bullets.len(), 0);
    assert_eq!(sim.asteroids.len(), 1);
}

#[test]
fn a_shot_destroys_an_asteroid_over_frames_and_scores() {
    let mut sim = session();
    let mut a = rock(380000, 100000);
    a.speed = 0;
    a.hit_points = 1;
    a.has_entered = true;
    sim.asteroids.push(a);
    let fire = FrameInput { fire: true, ..idle() };
    sim.step_with(fire, 0, None);
    for _ in 0..30 {
        sim.step_with(idle(), 0, None);
    }
    assert_eq!(sim.score, 1);
    // the asteroid dropped to zero and split into four fragments
    assert_eq!(sim.asteroids.len(), 4);
    assert!(sim.asteroids.iter().all(|p| p.size == AsteroidSize::Medium));
}
