use vstd::prelude::*;

use crate::geometry::Rect;
use crate::random::MAX_DIM;
use crate::save::{encode_save, parse_save, spec_encode_save, spec_parse_save, SaveData};

verus! {

/// Width of the player sprite in pixels.
pub const PLAYER_WIDTH: i32 = 75;

/// Height of the player sprite in pixels.
pub const PLAYER_HEIGHT: i32 = 125;

/// Health a fresh player starts with.
pub const START_HEALTH: i32 = 5;

/// Horizontal move speed as a function of accumulated points:
/// `2 * points + 250`, capped at 3500.
pub open spec fn speed_for_points(points: int) -> int {
    if 2 * points + 250 > 3500 {
        3500
    } else {
        2 * points + 250
    }
}

/// Computes the player's horizontal speed, in pixels per second, from the
/// accumulated points.
pub fn calculate_speed(points: i32) -> (speed: i32)
    requires
        points >= 0,
    ensures
        speed == speed_for_points(points as int),
{
    if points >= 1625 {
        3500
    } else {
        points * 2 + 250
    }
}

/// The speed curve never decreases as points grow, and never exceeds the
/// 3500 pixels-per-second cap.
pub proof fn lemma_speed_monotonic(p1: int, p2: int)
    requires
        0 <= p1 <= p2,
    ensures
        speed_for_points(p1) <= speed_for_points(p2),
        speed_for_points(p2) <= 3500,
{
}

/// The fresh player for the given screen size: horizontally centered,
/// three quarters of the way down, with starting stats.
pub open spec fn spec_fresh_player(screen_w: int, screen_h: int) -> Player {
    Player {
        position: Rect {
            x: (screen_w / 2) as i32,
            y: (3 * screen_h / 4) as i32,
            w: PLAYER_WIDTH,
            h: PLAYER_HEIGHT,
        },
        health: START_HEALTH,
        points: 0,
        coins: 0,
    }
}

/// The player that save-file bytes restore: position and coins from the
/// file when it parses, health and points at their defaults; bytes that do
/// not parse give the fresh player for the screen size.
pub open spec fn spec_loaded_player(bytes: Seq<u8>, screen_w: int, screen_h: int) -> Player {
    match spec_parse_save(bytes) {
        Some(d) => Player {
            position: Rect { x: d.x, y: d.y, w: PLAYER_WIDTH, h: PLAYER_HEIGHT },
            health: START_HEALTH,
            points: 0,
            coins: d.coins,
        },
        None => spec_fresh_player(screen_w, screen_h),
    }
}

/// The player sprite: its position rectangle and its per-game stats.
#[derive(Clone, Copy, PartialEq, Eq, Structural, Debug)]
pub struct Player {
    pub position: Rect,
    pub health: i32,
    pub points: i32,
    pub coins: i32,
}

impl Player {
    /// The sprite always keeps its fixed size, and points never go negative.
    pub open spec fn wf(self) -> bool {
        &&& self.position.w == PLAYER_WIDTH
        &&& self.position.h == PLAYER_HEIGHT
        &&& self.points >= 0
    }

    /// A fresh player: horizontally centered, three quarters of the way down
    /// the screen, with starting stats.
    pub fn new(screen_w: i32, screen_h: i32) -> (p: Player)
        requires
            0 <= screen_w <= MAX_DIM,
            0 <= screen_h <= MAX_DIM,
        ensures
            p == spec_fresh_player(screen_w as int, screen_h as int),
            p.wf(),
    {
        Player {
            position: Rect { x: screen_w / 2, y: 3 * screen_h / 4, w: PLAYER_WIDTH, h: PLAYER_HEIGHT },
            health: START_HEALTH,
            points: 0,
            coins: 0,
        }
    }

    /// Encodes this player's progress — position and coins — as the JSON
    /// save-file bytes. The caller writes them to the save file.
    pub fn save_player(&self) -> (bytes: Vec<u8>)
        ensures
            bytes@ == spec_encode_save(
                SaveData { x: self.position.x, y: self.position.y, coins: self.coins },
            ),
    {
        encode_save(&SaveData { x: self.get_x(), y: self.get_y(), coins: self.get_coins() })
    }

    /// Restores a player from save-file bytes: position and coins come from
    /// the file, while health and points reset to their defaults. Bytes
    /// that do not parse fall back to a fresh player for the given screen
    /// size.
    pub fn load_player(bytes: &Vec<u8>, screen_w: i32, screen_h: i32) -> (p: Player)
        requires
            0 <= screen_w <= MAX_DIM,
            0 <= screen_h <= MAX_DIM,
        ensures
            p == spec_loaded_player(bytes@, screen_w as int, screen_h as int),
            p.wf(),
    {
        match parse_save(bytes) {
            Some(d) => Player {
                position: Rect { x: d.x, y: d.y, w: PLAYER_WIDTH, h: PLAYER_HEIGHT },
                health: START_HEALTH,
                points: 0,
                coins: d.coins,
            },
            None => Player::new(screen_w, screen_h),
        }
    }

    pub fn get_coins(&self) -> (c: i32)
        ensures
            c == self.coins,
    {
        self.coins
    }

    /// Applies a health effect. Hostile objects carry a negative value, so
    /// this lowers health on an asteroid strike.
    pub fn hurt(&mut self, damage: i32)
        requires
            i32::MIN <= old(self).health + damage <= i32::MAX,
        ensures
            *final(self) == (Player { health: (old(self).health + damage) as i32, ..*old(self) }),
    {
        self.health = self.health + damage;
    }

    /// Adds collected points.
    pub fn collect_point(&mut self, points: i32)
        requires
            i32::MIN <= old(self).points + points <= i32::MAX,
        ensures
            *final(self) == (Player { points: (old(self).points + points) as i32, ..*old(self) }),
    {
        self.points = self.points + points;
    }

    pub fn get_x(&self) -> (x: i32)
        ensures
            x == self.position.x,
    {
        self.position.x
    }

    pub fn get_y(&self) -> (y: i32)
        ensures
            y == self.position.y,
    {
        self.position.y
    }

    pub fn get_width(&self) -> (w: i32)
        ensures
            w == self.position.w,
    {
        self.position.w
    }

    pub fn get_height(&self) -> (h: i32)
        ensures
            h == self.position.h,
    {
        self.position.h
    }

    pub fn get_rect(&self) -> (r: Rect)
        ensures
            r == self.position,
    {
        self.position
    }

    /// Shifts the player horizontally by `speed` pixels.
    pub fn move_x(&mut self, speed: i32)
        requires
            i32::MIN <= old(self).position.x + speed <= i32::MAX,
        ensures
            *final(self) == (Player {
                position: Rect { x: (old(self).position.x + speed) as i32, ..old(self).position },
                ..*old(self)
            }),
    {
        self.position.x = self.position.x + speed;
    }

    /// Shifts the player vertically by `speed` pixels.
    pub fn move_y(&mut self, speed: i32)
        requires
            i32::MIN <= old(self).position.y + speed <= i32::MAX,
        ensures
            *final(self) == (Player {
                position: Rect { y: (old(self).position.y + speed) as i32, ..old(self).position },
                ..*old(self)
            }),
    {
        self.position.y = self.position.y + speed;
    }
}

} // verus!
