//! The player's ship and the bullets it fires.
use vstd::prelude::*;
use crate::geometry::{
    clamp_coord, normalize, normalize_angle, step_along, step_spec, Rect, Vector2,
    max4, max4_exec, min4, min4_exec, turn_point, turn_x, turn_y, ARENA_LIMIT, COORD_LIMIT,
    UNITS_PER_PIXEL,
};

verus! {

/// Distance the ship travels in one frame of forward motion.
pub const SHIP_SPEED: i64 = 6000;

/// Angle the ship turns in one frame of rotation (3 degrees).
pub const ROTATE_INC: i64 = 1080;

/// Distance a bullet travels in one frame.
pub const BULLET_SPEED: i64 = 9000;

/// Most bullets one ship may have in flight.
pub const SHOT_LIMIT: u8 = 4;

/// Lives the ship starts with.
pub const STARTING_LIVES: u8 = 3;

/// Where a destroyed bullet is parked, off the arena, until the next retain pass.
pub const PARKED: i64 = -100 * UNITS_PER_PIXEL;

/// Sense of a rotation.
#[derive(Clone, Copy, Debug, PartialEq, Eq, Structural)]
pub enum Direction {
    CW,
    CCW,
}

/// The player's craft.
///
/// `position` is the point the ship is drawn around; `origin` is that point's
/// offset from the top-left corner of the ship's `width` x `height` image.
#[derive(Clone, Copy, Debug, PartialEq, Eq, Structural)]
pub struct Ship {
    pub position: Vector2,
    pub orientation: i64,
    pub life: u8,
    pub active_shots: u8,
    pub width: i64,
    pub height: i64,
    pub origin: Vector2,
}

/// The orientation after one frame of rotation in `direction`.
pub open spec fn rotated(orientation: int, direction: Direction) -> int {
    match direction {
        Direction::CW => normalize_angle(orientation + ROTATE_INC),
        Direction::CCW => normalize_angle(orientation - ROTATE_INC),
    }
}

/// One coordinate after toroidal wrapping on an axis of length `len`.
pub open spec fn wrapped(v: int, len: int) -> int {
    if v <= 0 {
        v + len
    } else if v >= len {
        v - len
    } else {
        v
    }
}

/// The ship `s` after one frame of forward motion; a ship with no life left stays put.
pub open spec fn moved(s: Ship) -> Ship {
    if s.life > 0 {
        let d = step_spec(s.orientation as int, SHIP_SPEED as int);
        Ship {
            position: Vector2 {
                x: clamp_coord(s.position.x + d.x) as i64,
                y: clamp_coord(s.position.y + d.y) as i64,
            },
            ..s
        }
    } else {
        s
    }
}

/// The ship `s` after one frame of rotation in `direction`.
pub open spec fn turned(s: Ship, direction: Direction) -> Ship {
    Ship { orientation: rotated(s.orientation as int, direction) as i64, ..s }
}

/// The ship `s` wrapped around a `width` x `height` arena.
pub open spec fn wrapped_ship(s: Ship, width: int, height: int) -> Ship {
    Ship {
        position: Vector2 {
            x: wrapped(s.position.x as int, width) as i64,
            y: wrapped(s.position.y as int, height) as i64,
        },
        ..s
    }
}

impl Ship {
    /// Position and origin in range, orientation normalized, counters within limits.
    pub open spec fn wf(&self) -> bool {
        self.position.wf() && 0 <= self.orientation < crate::geometry::FULL_TURN && self.life
            <= STARTING_LIVES && self.active_shots <= SHOT_LIMIT && 0 <= self.width <= ARENA_LIMIT
            && 0 <= self.height <= ARENA_LIMIT && 0 <= self.origin.x <= self.width && 0
            <= self.origin.y <= self.height
    }

    /// The ship's bounds on screen: the smallest axis-aligned rectangle
    /// around its image turned by its orientation about its origin.
    pub open spec fn bounds(&self) -> Rect {
        let a = self.orientation as int;
        let l = -self.origin.x;
        let t = -self.origin.y;
        let r = self.width - self.origin.x;
        let b = self.height - self.origin.y;
        let x0 = min4(turn_x(l, t, a), turn_x(r, t, a), turn_x(l, b, a), turn_x(r, b, a));
        let x1 = max4(turn_x(l, t, a), turn_x(r, t, a), turn_x(l, b, a), turn_x(r, b, a));
        let y0 = min4(turn_y(l, t, a), turn_y(r, t, a), turn_y(l, b, a), turn_y(r, b, a));
        let y1 = max4(turn_y(l, t, a), turn_y(r, t, a), turn_y(l, b, a), turn_y(r, b, a));
        Rect {
            left: (self.position.x + x0) as i64,
            top: (self.position.y + y0) as i64,
            width: (x1 - x0) as i64,
            height: (y1 - y0) as i64,
        }
    }

    /// A ship whose image is `width` x `height`, at the coordinate origin,
    /// pointing up, with full lives and no shot in flight.
    pub fn new(width: i64, height: i64) -> (r: Ship)
        requires
            0 <= width <= ARENA_LIMIT,
            0 <= height <= ARENA_LIMIT,
        ensures
            r.wf(),
            r.position == Vector2::new_spec(0, 0),
            r.orientation == 0,
            r.life == STARTING_LIVES,
            r.active_shots == 0,
            r.width == width,
            r.height == height,
            r.origin == Vector2::new_spec(0, 0),
    {
        let zero = Vector2::new(0, 0);
        Ship {
            position: zero,
            orientation: 0,
            life: STARTING_LIVES,
            active_shots: 0,
            width,
            height,
            origin: zero,
        }
    }

    /// Moves the ship one frame forward along its orientation; a ship with
    /// no life left stays put.
    pub fn move_ship(&mut self)
        requires
            old(self).wf(),
        ensures
            final(self).wf(),
            *final(self) == moved(*old(self)),
    {
        if self.life > 0 {
            let d = step_along(self.orientation, SHIP_SPEED);
            self.position = self.position.translate(d);
        }
    }

    /// Turns the ship by one frame's rotation in `direction`.
    pub fn rotate_ship(&mut self, direction: Direction)
        requires
            old(self).wf(),
        ensures
            final(self).wf(),
            *final(self) == turned(*old(self), direction),
    {
        let theta = match direction {
            Direction::CW => self.orientation + ROTATE_INC,
            Direction::CCW => self.orientation - ROTATE_INC,
        };
        self.orientation = normalize(theta);
    }

    /// Toroidal wraparound: where the ship's position has reached an edge
    /// of the `width` x `height` arena, it is moved by the arena's size on
    /// that axis to reappear at the opposite side.
    pub fn wrap_bounds(&mut self, width: i64, height: i64)
        requires
            old(self).wf(),
            0 < width <= COORD_LIMIT,
            0 < height <= COORD_LIMIT,
        ensures
            final(self).wf(),
            *final(self) == wrapped_ship(*old(self), width as int, height as int),
            strictly_inside(old(self).position, width as int, height as int) ==> *final(self)
                == *old(self),
    {
        let mut x = self.position.x;
        let mut y = self.position.y;
        if x <= 0 {
            x = x + width;
        } else if x >= width {
            x = x - width;
        }
        if y <= 0 {
            y = y + height;
        } else if y >= height {
            y = y - height;
        }
        self.position = Vector2::new(x, y);
    }

    /// The spawn point of a new bullet, if another shot may be in flight:
    /// then the shot is counted. With `SHOT_LIMIT` shots out, nothing.
    pub fn fire(&mut self) -> (r: Option<Vector2>)
        requires
            old(self).wf(),
        ensures
            final(self).wf(),
            old(self).active_shots < SHOT_LIMIT ==> r == Some(old(self).position)
                && final(self).active_shots == old(self).active_shots + 1,
            old(self).active_shots >= SHOT_LIMIT ==> r.is_none() && final(self).active_shots
                == old(self).active_shots,
            final(self).position == old(self).position,
            final(self).orientation == old(self).orientation,
            final(self).life == old(self).life,
            final(self).width == old(self).width,
            final(self).height == old(self).height,
            final(self).origin == old(self).origin,
    {
        if self.active_shots < SHOT_LIMIT {
            self.active_shots = self.active_shots + 1;
            Some(self.position)
        } else {
            None
        }
    }

    /// Releases one shot in flight, when a bullet of this ship is removed.
    pub fn reclaim_shot(&mut self)
        requires
            old(self).wf(),
        ensures
            final(self).wf(),
            final(self).active_shots == if old(self).active_shots > 0 {
                old(self).active_shots - 1
            } else {
                0
            },
            final(self).position == old(self).position,
            final(self).orientation == old(self).orientation,
            final(self).life == old(self).life,
            final(self).width == old(self).width,
            final(self).height == old(self).height,
            final(self).origin == old(self).origin,
    {
        if self.active_shots > 0 {
            self.active_shots = self.active_shots - 1;
        }
    }

    /// Loses one life; with none left, nothing changes.
    pub fn take_damage(&mut self)
        requires
            old(self).wf(),
        ensures
            final(self).wf(),
            final(self).life == if old(self).life > 0 {
                old(self).life - 1
            } else {
                0
            },
            final(self).position == old(self).position,
            final(self).orientation == old(self).orientation,
            final(self).active_shots == old(self).active_shots,
            final(self).width == old(self).width,
            final(self).height == old(self).height,
            final(self).origin == old(self).origin,
    {
        if self.life > 0 {
            self.life = self.life - 1;
        }
    }

    /// The ship's bounds on screen.
    pub fn rect(&self) -> (r: Rect)
        requires
            self.wf(),
        ensures
            r == self.bounds(),
            r.wf(),
    {
        let a = self.orientation;
        let l = -self.origin.x;
        let t = -self.origin.y;
        let r = self.width - self.origin.x;
        let b = self.height - self.origin.y;
        let lt = turn_point(l, t, a);
        let rt = turn_point(r, t, a);
        let lb = turn_point(l, b, a);
        let rb = turn_point(r, b, a);
        let x0 = min4_exec(lt.x, rt.x, lb.x, rb.x);
        let x1 = max4_exec(lt.x, rt.x, lb.x, rb.x);
        let y0 = min4_exec(lt.y, rt.y, lb.y, rb.y);
        let y1 = max4_exec(lt.y, rt.y, lb.y, rb.y);
        Rect {
            left: self.position.x + x0,
            top: self.position.y + y0,
            width: x1 - x0,
            height: y1 - y0,
        }
    }

    /// Whether any life is left.
    pub fn is_alive(&self) -> (r: bool)
        ensures
            r == (self.life > 0),
    {
        self.life > 0
    }

    pub fn position(&self) -> (r: Vector2)
        ensures
            r == self.position,
    {
        self.position
    }

    /// Places the ship at `position` and returns where it now stands.
    pub fn set_position(&mut self, position: Vector2) -> (r: Vector2)
        requires
            old(self).wf(),
            position.wf(),
        ensures
            final(self).wf(),
            r == position,
            *final(self) == (Ship { position, ..*old(self) }),
    {
        self.position = position;
        self.position
    }

    pub fn get_orientation(&self) -> (r: i64)
        ensures
            r == self.orientation,
    {
        self.orientation
    }

    /// Sets the orientation to `angle`, brought into one turn.
    pub fn set_orientation(&mut self, angle: i64)
        requires
            old(self).wf(),
        ensures
            final(self).wf(),
            *final(self) == (Ship { orientation: normalize_angle(angle as int) as i64, ..*old(self) }),
    {
        self.orientation = normalize(angle);
    }

    /// Puts the ship's origin at the centre of its image, so that it is
    /// drawn, rotated and wrapped around its middle.
    pub fn set_origin(&mut self)
        requires
            old(self).wf(),
        ensures
            final(self).wf(),
            *final(self) == (Ship {
                origin: Vector2 { x: (old(self).width / 2) as i64, y: (old(self).height / 2) as i64 },
                ..*old(self)
            }),
    {
        self.origin = Vector2::new(self.width / 2, self.height / 2);
    }

    pub fn get_lives(&self) -> (r: u8)
        ensures
            r == self.life,
    {
        self.life
    }
}

/// Wrapping leaves a ship strictly inside the arena where it is, so
/// wrapping it once or twice gives the same ship.
pub proof fn lemma_wrap_inside_unchanged(s: Ship, width: int, height: int)
    requires
        strictly_inside(s.position, width, height),
    ensures
        wrapped_ship(s, width, height) == s,
        wrapped_ship(wrapped_ship(s, width, height), width, height) == wrapped_ship(s, width, height),
{
}

/// A projectile: it flies along its heading at `BULLET_SPEED`.
#[derive(Clone, Copy, Debug, PartialEq, Eq, Structural)]
pub struct Bullet {
    pub position: Vector2,
    pub heading: i64,
}

/// Whether `p` lies strictly inside the `width` x `height` arena.
pub open spec fn strictly_inside(p: Vector2, width: int, height: int) -> bool {
    0 < p.x < width && 0 < p.y < height
}

/// The bullet `b` after one frame of flight.
pub open spec fn flown(b: Bullet) -> Bullet {
    let d = step_spec(b.heading as int, BULLET_SPEED as int);
    Bullet {
        position: Vector2 {
            x: clamp_coord(b.position.x + d.x) as i64,
            y: clamp_coord(b.position.y + d.y) as i64,
        },
        heading: b.heading,
    }
}

impl Bullet {
    pub open spec fn wf(&self) -> bool {
        self.position.wf()
    }

    /// A bullet at `pos` flying along `angle`.
    pub fn new(pos: Vector2, angle: i64) -> (r: Bullet)
        ensures
            r.position == pos,
            r.heading == angle,
    {
        Bullet { position: pos, heading: angle }
    }

    pub fn position(&self) -> (r: Vector2)
        ensures
            r == self.position,
    {
        self.position
    }

    /// Moves the bullet one frame along its heading.
    pub fn update(&mut self)
        requires
            old(self).wf(),
        ensures
            final(self).wf(),
            *final(self) == flown(*old(self)),
    {
        let d = step_along(self.heading, BULLET_SPEED);
        self.position = self.position.translate(d);
    }

    /// Parks the bullet off the arena, to be removed by the next retain pass.
    pub fn destroy(&mut self)
        ensures
            final(self).wf(),
            final(self).heading == old(self).heading,
            final(self).position == Vector2::new_spec(PARKED, PARKED),
    {
        self.position = Vector2::new(PARKED, PARKED);
    }

    /// Whether the bullet lies strictly inside the `width` x `height` arena.
    pub fn in_bounds(&self, width: i64, height: i64) -> (r: bool)
        ensures
            r == strictly_inside(self.position, width as int, height as int),
    {
        let x = self.position.x;
        let y = self.position.y;
        !(x >= width || x <= 0 || y >= height || y <= 0)
    }
}

} // verus!
