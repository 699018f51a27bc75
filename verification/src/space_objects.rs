use vstd::prelude::*;

use crate::geometry::{rects_overlap, Rect};
use crate::random::{gen_range_i32, MAX_DIM};

verus! {

/// Side length of every falling object's square sprite, in pixels.
pub const OBJECT_SIZE: i32 = 64;

/// Fresh and respawned objects appear in the horizontal band of the screen
/// with `0 <= y < SPAWN_BAND`.
pub const SPAWN_BAND: i32 = 50;

/// Rotations are degrees in `[0, 360)`.
pub const FULL_TURN: i32 = 360;

/// Point values are drawn from `[MIN_OBJECT_POINTS, MAX_OBJECT_POINTS)`.
pub const MIN_OBJECT_POINTS: i32 = 1;

/// Exclusive upper bound of an object's point value.
pub const MAX_OBJECT_POINTS: i32 = 5;

/// The health value that marks an object as hostile.
pub const HOSTILE_HEALTH: i32 = -1;

/// Largest distance an object can fall in one tick: the speed cap of 3500
/// pixels per second over the longest accepted tick of 10 seconds, halved as
/// the fall rule says.
pub const MAX_FALL: i32 = 17500;

/// Largest `y` an object can reach: one full fall step below the largest
/// screen height.
pub const MAX_OBJECT_Y: i32 = MAX_DIM + MAX_FALL;

/// Whether a falling object is collectible scrap or a hostile asteroid.
#[derive(Clone, Copy, PartialEq, Eq, Structural, Debug)]
pub enum ObjectKind {
    Scrap,
    Asteroid,
}

/// A falling object: scrap to be collected or an asteroid to be dodged. The
/// `health` field doubles as the kind tag: `HOSTILE_HEALTH` marks an
/// asteroid, while scrap carries its point value there.
#[derive(Clone, Copy, PartialEq, Eq, Structural, Debug)]
pub struct SpaceObject {
    pub position: Rect,
    pub points: i32,
    pub rotate: i32,
    pub health: i32,
}

/// A fresh or respawned object sits somewhere in the top band with a fixed
/// sprite size, a point value in range, and a rotation in range; its
/// horizontal range `[0, x_limit)` depends on which spawn rule placed it.
pub open spec fn in_spawn_band(o: SpaceObject, x_limit: int) -> bool {
    &&& 0 <= o.position.x < x_limit
    &&& 0 <= o.position.y < SPAWN_BAND
    &&& 0 <= o.rotate < FULL_TURN
}

/// What `SpaceObject::new` promises: position in the top band left of
/// `screen_w - OBJECT_SIZE`, fixed size, a point value in `[1, 5)`, and a
/// health field that tags the kind.
pub open spec fn freshly_spawned(o: SpaceObject, kind: ObjectKind, screen_w: int) -> bool {
    &&& in_spawn_band(o, screen_w - OBJECT_SIZE)
    &&& o.position.w == OBJECT_SIZE
    &&& o.position.h == OBJECT_SIZE
    &&& MIN_OBJECT_POINTS <= o.points < MAX_OBJECT_POINTS
    &&& o.health == (if kind is Asteroid {
        HOSTILE_HEALTH as int
    } else {
        o.points as int
    })
}

/// What `SpaceObject::reset` promises: a fresh spot in the top band, with
/// `x` drawn from the full screen width, and stats kept.
pub open spec fn respawned(o_old: SpaceObject, o_new: SpaceObject, screen_w: int) -> bool {
    &&& in_spawn_band(o_new, screen_w)
    &&& o_new.position.w == o_old.position.w
    &&& o_new.position.h == o_old.position.h
    &&& o_new.points == o_old.points
    &&& o_new.health == o_old.health
}

/// What `SpaceObject::hit` promises: like a reset, but `x` is drawn left of
/// `screen_w` less the object's own width.
pub open spec fn respawned_after_hit(o_old: SpaceObject, o_new: SpaceObject, screen_w: int) -> bool {
    &&& in_spawn_band(o_new, screen_w - o_old.position.w)
    &&& o_new.position.w == o_old.position.w
    &&& o_new.position.h == o_old.position.h
    &&& o_new.points == o_old.points
    &&& o_new.health == o_old.health
}

/// The object after falling `dy` pixels.
pub open spec fn fallen(o: SpaceObject, dy: int) -> SpaceObject {
    SpaceObject { position: Rect { y: (o.position.y + dy) as i32, ..o.position }, ..o }
}

/// One tick of the per-object policy, as a relation between the object
/// before and after. Exactly one branch applies: an object below the bottom
/// of the screen respawns; otherwise an object overlapping the player
/// respawns through the hit rule; otherwise it falls by `dy`.
pub open spec fn object_steps(
    o: SpaceObject,
    o2: SpaceObject,
    player_rect: Rect,
    dy: int,
    screen_w: int,
    screen_h: int,
) -> bool {
    if o.position.y > screen_h {
        respawned(o, o2, screen_w)
    } else if rects_overlap(o.position, player_rect) {
        respawned_after_hit(o, o2, screen_w)
    } else {
        o2 == fallen(o, dy)
    }
}

impl SpaceObject {
    /// Sprite size is fixed, coordinates sit in the screen band the spawn
    /// rules allow, the point value is in range, and the health field is
    /// either the hostile tag or the scrap's own point value.
    pub open spec fn wf(self) -> bool {
        &&& self.position.w == OBJECT_SIZE
        &&& self.position.h == OBJECT_SIZE
        &&& 0 <= self.position.x
        &&& 0 <= self.position.y <= MAX_OBJECT_Y
        &&& MIN_OBJECT_POINTS <= self.points < MAX_OBJECT_POINTS
        &&& 0 <= self.rotate < FULL_TURN
        &&& (self.health == HOSTILE_HEALTH || self.health == self.points)
    }

    /// The kind the health field tags.
    pub open spec fn kind(self) -> ObjectKind {
        if self.health == HOSTILE_HEALTH {
            ObjectKind::Asteroid
        } else {
            ObjectKind::Scrap
        }
    }

    /// Spawns an object of the given kind at a random spot in the top band.
    pub fn new(kind: ObjectKind, screen_w: i32) -> (o: SpaceObject)
        requires
            OBJECT_SIZE < screen_w <= MAX_DIM,
        ensures
            freshly_spawned(o, kind, screen_w as int),
            o.wf(),
            o.kind() == kind,
    {
        let points = gen_range_i32(MIN_OBJECT_POINTS, MAX_OBJECT_POINTS);
        SpaceObject {
            position: Rect {
                x: gen_range_i32(0, screen_w - OBJECT_SIZE),
                y: gen_range_i32(0, SPAWN_BAND),
                w: OBJECT_SIZE,
                h: OBJECT_SIZE,
            },
            points,
            rotate: gen_range_i32(0, FULL_TURN),
            health: if matches!(kind, ObjectKind::Asteroid) {
                HOSTILE_HEALTH
            } else {
                points
            },
        }
    }

    /// Respawns the object at a random spot in the top band, drawing `x`
    /// from the full screen width; stats are kept.
    pub fn reset(&mut self, screen_w: i32)
        requires
            0 < screen_w <= MAX_DIM,
        ensures
            respawned(*old(self), *final(self), screen_w as int),
            old(self).wf() ==> final(self).wf(),
    {
        self.position.x = gen_range_i32(0, screen_w);
        self.position.y = gen_range_i32(0, SPAWN_BAND);
        self.rotate = gen_range_i32(0, FULL_TURN);
    }

    /// Respawns the object after it struck the player, drawing `x` left of
    /// the screen width less the object's own width; stats are kept.
    pub fn hit(&mut self, screen_w: i32)
        requires
            0 <= old(self).position.w < screen_w,
            screen_w <= MAX_DIM,
        ensures
            respawned_after_hit(*old(self), *final(self), screen_w as int),
            old(self).wf() ==> final(self).wf(),
    {
        self.position.x = gen_range_i32(0, screen_w - self.position.w);
        self.position.y = gen_range_i32(0, SPAWN_BAND);
        self.rotate = gen_range_i32(0, FULL_TURN);
    }

    pub fn get_points(&self) -> (p: i32)
        ensures
            p == self.points,
    {
        self.points
    }

    pub fn get_health(&self) -> (h: i32)
        ensures
            h == self.health,
    {
        self.health
    }

    /// Moves the object down by `speed` pixels.
    pub fn move_y(&mut self, speed: i32)
        requires
            i32::MIN <= old(self).position.y + speed <= i32::MAX,
        ensures
            *final(self) == fallen(*old(self), speed as int),
    {
        self.position.y = self.position.y + speed;
    }

    /// One tick of the per-object policy against the player's rectangle.
    /// Returns whether the object struck the player this tick.
    pub fn step(&mut self, player_rect: &Rect, dy: i32, screen_w: i32, screen_h: i32) -> (hit: bool)
        requires
            old(self).wf(),
            OBJECT_SIZE < screen_w <= MAX_DIM,
            0 < screen_h <= MAX_DIM,
            0 <= dy <= MAX_FALL,
        ensures
            object_steps(
                *old(self),
                *final(self),
                *player_rect,
                dy as int,
                screen_w as int,
                screen_h as int,
            ),
            final(self).wf(),
            hit == (old(self).position.y <= screen_h
                && rects_overlap(old(self).position, *player_rect)),
    {
        if self.position.y > screen_h {
            self.reset(screen_w);
            false
        } else if self.position.overlaps(player_rect) {
            self.hit(screen_w);
            true
        } else {
            self.move_y(dy);
            false
        }
    }
}

/// An object whose `y` exceeds the screen height before colliding respawns
/// into the top band: `y` in `[0, SPAWN_BAND)` and `x` in `[0, screen_w)`.
pub proof fn lemma_offscreen_respawns(
    o: SpaceObject,
    o2: SpaceObject,
    player_rect: Rect,
    dy: int,
    screen_w: int,
    screen_h: int,
)
    requires
        object_steps(o, o2, player_rect, dy, screen_w, screen_h),
        o.position.y > screen_h,
    ensures
        0 <= o2.position.y < SPAWN_BAND,
        0 <= o2.position.x < screen_w,
{
}

/// Collision resolution is mutually exclusive per object per tick: an object
/// that overlaps the player while still on screen takes the hit rule — it is
/// respawned into the top band with its stats kept — and never also falls in
/// that tick.
pub proof fn lemma_hit_never_falls(
    o: SpaceObject,
    o2: SpaceObject,
    player_rect: Rect,
    dy: int,
    screen_w: int,
    screen_h: int,
)
    requires
        object_steps(o, o2, player_rect, dy, screen_w, screen_h),
        o.position.y <= screen_h,
        rects_overlap(o.position, player_rect),
    ensures
        respawned_after_hit(o, o2, screen_w),
        o2.position.y < SPAWN_BAND,
{
}

} // verus!
