use vstd::prelude::*;

use crate::geometry::{add_clamped, clamped, rects_overlap, Rect};
use crate::player::{
    calculate_speed, spec_fresh_player, spec_loaded_player, speed_for_points, Player,
    PLAYER_WIDTH, START_HEALTH,
};
use crate::random::{gen_range_i32, MAX_DIM};
use crate::save::{spec_parse_save, SaveData};
use crate::space_objects::{
    freshly_spawned, object_steps, respawned, ObjectKind, SpaceObject, MAX_FALL, OBJECT_SIZE,
};
use crate::timer::{timer_done, Timer};

verus! {

/// How long each music track plays before the rotation fires, in
/// milliseconds.
pub const MUSIC_PERIOD_MS: u64 = 13000;

/// Smallest number of scraps a fresh game spawns.
pub const MIN_SCRAPS: i32 = 20;

/// Exclusive upper bound on the number of scraps a fresh game spawns.
pub const MAX_SCRAPS: i32 = 30;

/// Smallest number of asteroids a fresh game spawns.
pub const MIN_ASTEROIDS: i32 = 5;

/// Exclusive upper bound on the number of asteroids a fresh game spawns.
pub const MAX_ASTEROIDS: i32 = 10;

/// Longest tick the update accepts, in milliseconds.
pub const MAX_TICK_MS: u32 = 10000;

/// Ratio of points to coins in the shop: ten points buy one coin.
pub const SHOP_RATE: i32 = 10;

/// The screens of the game.
#[derive(Clone, Copy, PartialEq, Eq, Structural, Debug)]
pub enum GameState {
    MainMenu,
    Credits,
    GameTutorial,
    Game,
    Options,
    Shop,
    GameOver,
}

/// A button press on one of the game's screens. A press that does not
/// belong to the current screen changes nothing.
#[derive(Clone, Copy, PartialEq, Eq, Structural, Debug)]
pub enum UiEvent {
    /// "Play" on the main menu.
    Play,
    /// "Credits" on the main menu or the pause menu.
    OpenCredits,
    /// "Options" on the main menu or the pause menu.
    OpenOptions,
    /// "Play Game" on the tutorial screen.
    StartGame,
    /// "Continue" on the pause menu.
    Resume,
    /// "Go to Shop" on the pause menu.
    OpenShop,
    /// "Back" on the credits or options screen.
    Back,
    /// "Convert Points to Coins" in the shop.
    ConvertPoints,
    /// "Back" in the shop.
    CloseShop,
    /// "Play Again" on the game-over screen.
    PlayAgain,
    /// "Quit" on the main menu, the pause menu, or the game-over screen.
    Quit,
}

/// One tick's worth of input, read by the caller and handed in as plain
/// values.
#[derive(Debug)]
pub struct FrameInput {
    /// Clock reading at this tick, in milliseconds.
    pub now_ms: u64,
    /// Length of this tick, in milliseconds.
    pub dt_ms: u32,
    /// The save shortcut was pressed this tick.
    pub save_pressed: bool,
    /// The pause toggle was pressed this tick.
    pub pause_pressed: bool,
    /// The debug toggle was pressed this tick.
    pub debug_pressed: bool,
    /// The move-left key is held down.
    pub left_down: bool,
    /// The move-right key is held down.
    pub right_down: bool,
    /// Horizontal positions of the active touches, in order.
    pub touch_xs: Vec<i32>,
}

/// What one tick asks of the engine; the caller performs the writes and the
/// sounds.
#[derive(PartialEq, Debug)]
pub struct FrameEffects {
    /// Save-file data to write, when the save shortcut was honoured.
    pub save_data: Option<SaveData>,
    /// Music track to start, when the music timer fired.
    pub play_track: Option<usize>,
    /// How many scraps were collected this tick: one pickup sound each.
    pub scrap_hits: usize,
    /// How many asteroids struck this tick: one impact sound each.
    pub asteroid_hits: usize,
}

/// One clamped horizontal move of the player by `dx`, kept within
/// `[0, screen_w - PLAYER_WIDTH]`.
pub open spec fn moved_x(x: int, dx: int, screen_w: int) -> int {
    clamped(x + dx, 0, screen_w - PLAYER_WIDTH)
}

/// The player's x after the held keys are applied: the left key, then the
/// right key, each one clamped step.
pub open spec fn x_after_keys(x: int, left: bool, right: bool, step: int, screen_w: int) -> int {
    let x1 = if left {
        moved_x(x, -step, screen_w)
    } else {
        x
    };
    if right {
        moved_x(x1, step, screen_w)
    } else {
        x1
    }
}

/// The player's x after the touches are applied in order: each touch right
/// of the current x moves one step right, each touch left of it moves one
/// step left, and a touch exactly on it does nothing.
pub open spec fn x_after_touches(x: int, touches: Seq<i32>, step: int, screen_w: int) -> int
    decreases touches.len(),
{
    if touches.len() == 0 {
        x
    } else {
        let x1 = if touches[0] > x {
            moved_x(x, step, screen_w)
        } else if touches[0] < x {
            moved_x(x, -step, screen_w)
        } else {
            x
        };
        x_after_touches(x1, touches.skip(1), step, screen_w)
    }
}

/// Whether an object strikes the player this tick: still on screen and
/// overlapping the player's rectangle.
pub open spec fn hits_player(o: SpaceObject, player_rect: Rect, screen_h: int) -> bool {
    o.position.y <= screen_h && rects_overlap(o.position, player_rect)
}

/// Sum of the point values of the objects among `objs[..k)` that strike the
/// player this tick.
pub open spec fn points_gained(objs: Seq<SpaceObject>, player_rect: Rect, screen_h: int, k: int) -> int
    decreases k,
{
    if k <= 0 {
        0
    } else {
        points_gained(objs, player_rect, screen_h, k - 1) + if hits_player(
            objs[k - 1],
            player_rect,
            screen_h,
        ) {
            objs[k - 1].points as int
        } else {
            0
        }
    }
}

/// Sum of the health effects of the objects among `objs[..k)` that strike
/// the player this tick. Asteroids carry `-1` there, so this is minus the
/// number of strikes.
pub open spec fn health_delta(objs: Seq<SpaceObject>, player_rect: Rect, screen_h: int, k: int) -> int
    decreases k,
{
    if k <= 0 {
        0
    } else {
        health_delta(objs, player_rect, screen_h, k - 1) + if hits_player(
            objs[k - 1],
            player_rect,
            screen_h,
        ) {
            objs[k - 1].health as int
        } else {
            0
        }
    }
}

/// How many of the objects among `objs[..k)` strike the player this tick.
pub open spec fn hit_count(objs: Seq<SpaceObject>, player_rect: Rect, screen_h: int, k: int) -> int
    decreases k,
{
    if k <= 0 {
        0
    } else {
        hit_count(objs, player_rect, screen_h, k - 1) + if hits_player(
            objs[k - 1],
            player_rect,
            screen_h,
        ) {
            1int
        } else {
            0int
        }
    }
}

/// The points gained in one tick from `objs[..k)` sit between zero and
/// four per object, the largest point value an object can carry.
proof fn lemma_points_gained_bound(
    objs: Seq<SpaceObject>,
    player_rect: Rect,
    screen_h: int,
    k: int,
)
    requires
        0 <= k <= objs.len(),
        forall|i: int| 0 <= i < objs.len() ==> (#[trigger] objs[i]).wf(),
    ensures
        0 <= points_gained(objs, player_rect, screen_h, k) <= 4 * k,
    decreases k,
{
    if k > 0 {
        lemma_points_gained_bound(objs, player_rect, screen_h, k - 1);
    }
}

/// The health change in one tick from `objs[..k)` asteroids sits between
/// minus one per object and zero.
proof fn lemma_health_delta_bound(
    objs: Seq<SpaceObject>,
    player_rect: Rect,
    screen_h: int,
    k: int,
)
    requires
        0 <= k <= objs.len(),
        forall|i: int|
            0 <= i < objs.len() ==> (#[trigger] objs[i]).wf() && objs[i].kind() is Asteroid,
    ensures
        -k <= health_delta(objs, player_rect, screen_h, k) <= 0,
    decreases k,
{
    if k > 0 {
        lemma_health_delta_bound(objs, player_rect, screen_h, k - 1);
    }
}

/// At most one strike is counted per object.
proof fn lemma_hit_count_bound(objs: Seq<SpaceObject>, player_rect: Rect, screen_h: int, k: int)
    requires
        0 <= k,
    ensures
        0 <= hit_count(objs, player_rect, screen_h, k) <= k,
    decreases k,
{
    if k > 0 {
        lemma_hit_count_bound(objs, player_rect, screen_h, k - 1);
    }
}

/// The whole game: the player, the falling objects, the screen flow, and
/// the music timer.
pub struct GameStruct {
    pub player: Player,
    pub scraps: Vec<SpaceObject>,
    pub asteroids: Vec<SpaceObject>,
    pub debug: bool,
    pub paused: bool,
    pub state: GameState,
    pub previous_state: GameState,
    pub music_timer: Timer,
}

impl GameStruct {
    /// The invariant every reachable game satisfies: the player and every
    /// object are well formed, the flock sizes stay in their spawn ranges,
    /// scraps and asteroids keep their kinds, and health stays above the
    /// worst one tick of strikes can do — game over is declared before it
    /// can fall further.
    pub open spec fn wf(self) -> bool {
        &&& self.player.wf()
        &&& MIN_SCRAPS <= self.scraps.len() < MAX_SCRAPS
        &&& MIN_ASTEROIDS <= self.asteroids.len() < MAX_ASTEROIDS
        &&& forall|i: int|
            0 <= i < self.scraps.len() ==> (#[trigger] self.scraps[i]).wf() && self.scraps[i].kind()
                is Scrap
        &&& forall|i: int|
            0 <= i < self.asteroids.len() ==> (#[trigger] self.asteroids[i]).wf()
                && self.asteroids[i].kind() is Asteroid
        &&& self.player.health >= -18
        &&& (self.state is GameOver || self.player.health >= -9)
    }

    /// Builds a fresh game: a random flock of scraps and asteroids, the
    /// player restored from the given save bytes when they parse, the
    /// screen flow at the main menu, and the music timer started.
    pub fn new(
        screen_w: i32,
        screen_h: i32,
        save_bytes: Option<&Vec<u8>>,
        now_ms: u64,
    ) -> (g: GameStruct)
        requires
            OBJECT_SIZE < screen_w <= MAX_DIM,
            0 <= screen_h <= MAX_DIM,
        ensures
            g.wf(),
            g.state is MainMenu,
            g.previous_state is MainMenu,
            !g.debug,
            !g.paused,
            g.music_timer == (Timer {
                start_time: now_ms,
                life_time: MUSIC_PERIOD_MS,
                first_time: true,
            }),
            forall|i: int|
                0 <= i < g.scraps.len() ==> freshly_spawned(
                    #[trigger] g.scraps[i],
                    ObjectKind::Scrap,
                    screen_w as int,
                ),
            forall|i: int|
                0 <= i < g.asteroids.len() ==> freshly_spawned(
                    #[trigger] g.asteroids[i],
                    ObjectKind::Asteroid,
                    screen_w as int,
                ),
            g.player == (match save_bytes {
                Some(b) => spec_loaded_player(b@, screen_w as int, screen_h as int),
                None => spec_fresh_player(screen_w as int, screen_h as int),
            }),
    {
        let n_scraps = gen_range_i32(MIN_SCRAPS, MAX_SCRAPS);
        let mut scraps: Vec<SpaceObject> = Vec::new();
        let mut i: i32 = 0;
        while i < n_scraps
            invariant
                0 <= i <= n_scraps,
                MIN_SCRAPS <= n_scraps < MAX_SCRAPS,
                OBJECT_SIZE < screen_w <= MAX_DIM,
                scraps.len() == i,
                forall|k: int|
                    0 <= k < scraps.len() ==> freshly_spawned(
                        #[trigger] scraps[k],
                        ObjectKind::Scrap,
                        screen_w as int,
                    ) && scraps[k].wf() && scraps[k].kind() is Scrap,
            decreases n_scraps - i,
        {
            scraps.push(SpaceObject::new(ObjectKind::Scrap, screen_w));
            i = i + 1;
        }
        let n_asteroids = gen_range_i32(MIN_ASTEROIDS, MAX_ASTEROIDS);
        let mut asteroids: Vec<SpaceObject> = Vec::new();
        let mut j: i32 = 0;
        while j < n_asteroids
            invariant
                0 <= j <= n_asteroids,
                MIN_ASTEROIDS <= n_asteroids < MAX_ASTEROIDS,
                OBJECT_SIZE < screen_w <= MAX_DIM,
                asteroids.len() == j,
                forall|k: int|
                    0 <= k < asteroids.len() ==> freshly_spawned(
                        #[trigger] asteroids[k],
                        ObjectKind::Asteroid,
                        screen_w as int,
                    ) && asteroids[k].wf() && asteroids[k].kind() is Asteroid,
            decreases n_asteroids - j,
        {
            asteroids.push(SpaceObject::new(ObjectKind::Asteroid, screen_w));
            j = j + 1;
        }
        let player = match save_bytes {
            Some(bytes) => Player::load_player(bytes, screen_w, screen_h),
            None => Player::new(screen_w, screen_h),
        };
        GameStruct {
            player,
            scraps,
            asteroids,
            debug: false,
            paused: false,
            state: GameState::MainMenu,
            previous_state: GameState::MainMenu,
            music_timer: Timer::new(now_ms, MUSIC_PERIOD_MS, true),
        }
    }

    /// One unpaused tick of the running game: the debug toggle, the
    /// game-over check, the speed curve applied to keys and touches, and
    /// one step of every falling object with its collision settled against
    /// the player. Returns how many scraps were collected and how many
    /// asteroids struck.
    #[verifier::loop_isolation(false)]
    #[verifier::rlimit(100)]
    fn run_game_tick(&mut self, input: &FrameInput, screen_w: i32, screen_h: i32) -> (hits: (
        usize,
        usize,
    ))
        requires
            old(self).wf(),
            old(self).state is Game,
            !old(self).paused,
            PLAYER_WIDTH <= screen_w <= MAX_DIM,
            0 < screen_h <= MAX_DIM,
            input.dt_ms <= MAX_TICK_MS,
            old(self).player.points <= i32::MAX - 120,
        ensures
            final(self).wf(),
            final(self).paused == old(self).paused,
            final(self).previous_state == old(self).previous_state,
            final(self).music_timer == old(self).music_timer,
            ({
                let speed = speed_for_points(old(self).player.points as int);
                let step = speed * input.dt_ms / 1000;
                let dy = speed * input.dt_ms / 2000;
                let px = x_after_touches(
                    x_after_keys(
                        old(self).player.position.x as int,
                        input.left_down,
                        input.right_down,
                        step,
                        screen_w as int,
                    ),
                    input.touch_xs@,
                    step,
                    screen_w as int,
                );
                let prect = Rect {
                    x: px as i32,
                    y: old(self).player.position.y,
                    w: old(self).player.position.w,
                    h: old(self).player.position.h,
                };
                &&& final(self).debug == (if input.debug_pressed {
                    !old(self).debug
                } else {
                    old(self).debug
                })
                &&& final(self).state == (if old(self).player.health <= 0 {
                    GameState::GameOver
                } else {
                    GameState::Game
                })
                &&& final(self).player.position == prect
                &&& final(self).player.points == old(self).player.points + points_gained(
                    old(self).scraps@,
                    prect,
                    screen_h as int,
                    old(self).scraps.len() as int,
                )
                &&& final(self).player.health == old(self).player.health + health_delta(
                    old(self).asteroids@,
                    prect,
                    screen_h as int,
                    old(self).asteroids.len() as int,
                )
                &&& final(self).player.coins == old(self).player.coins
                &&& final(self).scraps.len() == old(self).scraps.len()
                &&& forall|i: int|
                    0 <= i < old(self).scraps.len() ==> object_steps(
                        #[trigger] old(self).scraps[i],
                        final(self).scraps[i],
                        prect,
                        dy,
                        screen_w as int,
                        screen_h as int,
                    )
                &&& final(self).asteroids.len() == old(self).asteroids.len()
                &&& forall|i: int|
                    0 <= i < old(self).asteroids.len() ==> object_steps(
                        #[trigger] old(self).asteroids[i],
                        final(self).asteroids[i],
                        prect,
                        dy,
                        screen_w as int,
                        screen_h as int,
                    )
                &&& hits.0 == hit_count(
                    old(self).scraps@,
                    prect,
                    screen_h as int,
                    old(self).scraps.len() as int,
                )
                &&& hits.1 == hit_count(
                    old(self).asteroids@,
                    prect,
                    screen_h as int,
                    old(self).asteroids.len() as int,
                )
            }),
    {
        let mut scrap_hits: usize = 0;
        let mut asteroid_hits: usize = 0;
        let health_at_start = self.player.health;
        if input.debug_pressed {
            self.debug = !self.debug;
        }
        if health_at_start <= 0 {
            self.state = GameState::GameOver;
        }
        let speed = calculate_speed(self.player.points);
        proof {
            assert(0 <= speed as int * input.dt_ms as int <= 35000000)
                by (nonlinear_arith)
                requires
                    0 <= speed <= 3500,
                    0 <= input.dt_ms <= 10000,
            ;
        }
        let product: i64 = (speed as i64) * (input.dt_ms as i64);
        let step = (product / 1000) as i32;
        let dy = (product / 2000) as i32;
        proof {
            assert(0 <= step <= 35000);
            assert(0 <= dy <= MAX_FALL);
            assert(step as int == speed_for_points(old(self).player.points as int)
                * input.dt_ms / 1000);
            assert(dy as int == speed_for_points(old(self).player.points as int)
                * input.dt_ms / 2000);
        }
        if input.left_down {
            let nx = add_clamped(
                self.player.get_x(),
                -step,
                0,
                screen_w - PLAYER_WIDTH,
            );
            self.player.position.x = nx;
        }
        if input.right_down {
            let nx = add_clamped(self.player.get_x(), step, 0, screen_w - PLAYER_WIDTH);
            self.player.position.x = nx;
        }
        let ghost x_keys = self.player.position.x as int;
        let ghost step_g = step as int;
        proof {
            assert(x_keys == x_after_keys(
                old(self).player.position.x as int,
                input.left_down,
                input.right_down,
                step as int,
                screen_w as int,
            ));
            assert(input.touch_xs@.skip(0) =~= input.touch_xs@);
        }
        let mut ti: usize = 0;
        while ti < input.touch_xs.len()
            invariant
                ti <= input.touch_xs.len(),
                x_after_touches(
                    x_keys,
                    input.touch_xs@,
                    step_g,
                    screen_w as int,
                ) == x_after_touches(
                    self.player.position.x as int,
                    input.touch_xs@.skip(ti as int),
                    step_g,
                    screen_w as int,
                ),
                self.player.position.y == old(self).player.position.y,
                self.player.position.w == old(self).player.position.w,
                self.player.position.h == old(self).player.position.h,
                self.player.health == old(self).player.health,
                self.player.points == old(self).player.points,
                self.player.coins == old(self).player.coins,
                self.scraps == old(self).scraps,
                self.asteroids == old(self).asteroids,
                self.debug == (if input.debug_pressed {
                    !old(self).debug
                } else {
                    old(self).debug
                }),
                self.state == (if old(self).player.health <= 0 {
                    GameState::GameOver
                } else {
                    GameState::Game
                }),
                self.paused == false,
                self.previous_state == old(self).previous_state,
                self.music_timer == old(self).music_timer,
            decreases input.touch_xs.len() - ti,
        {
            let t = input.touch_xs[ti];
            let x = self.player.get_x();
            proof {
                assert(input.touch_xs@.skip(ti as int)[0] == input.touch_xs@[
                    ti as int]);
            }
            if t > x {
                let nx = add_clamped(x, step, 0, screen_w - PLAYER_WIDTH);
                self.player.position.x = nx;
            } else if t < x {
                let nx = add_clamped(x, -step, 0, screen_w - PLAYER_WIDTH);
                self.player.position.x = nx;
            }
            proof {
                assert(input.touch_xs@.skip(ti as int).skip(1) =~= input.touch_xs@.skip(
                    ti as int + 1,
                ));
            }
            ti = ti + 1;
        }
        proof {
            assert(input.touch_xs@.skip(input.touch_xs@.len() as int).len() == 0);
            assert(self.player.position.x as int == x_after_touches(
                x_keys,
                input.touch_xs@,
                step as int,
                screen_w as int,
            ));
        }
        let prect = self.player.get_rect();
        let ghost player_moved = self.player;
        let mut si: usize = 0;
        while si < self.scraps.len()
            invariant
                si <= self.scraps.len(),
                self.scraps.len() == old(self).scraps.len(),
                forall|k: int|
                    0 <= k < si ==> object_steps(
                        #[trigger] old(self).scraps[k],
                        self.scraps[k],
                        prect,
                        dy as int,
                        screen_w as int,
                        screen_h as int,
                    ) && self.scraps[k].wf(),
                forall|k: int|
                    si <= k < self.scraps.len() ==> self.scraps[k] == old(
                        self,
                    ).scraps[k],
                self.player == (Player {
                    points: (player_moved.points + points_gained(
                        old(self).scraps@,
                        prect,
                        screen_h as int,
                        si as int,
                    )) as i32,
                    ..player_moved
                }),
                scrap_hits == hit_count(
                    old(self).scraps@,
                    prect,
                    screen_h as int,
                    si as int,
                ),
                self.asteroids == old(self).asteroids,
                self.debug == (if input.debug_pressed {
                    !old(self).debug
                } else {
                    old(self).debug
                }),
                self.state == (if old(self).player.health <= 0 {
                    GameState::GameOver
                } else {
                    GameState::Game
                }),
                self.paused == false,
                self.previous_state == old(self).previous_state,
                self.music_timer == old(self).music_timer,
                asteroid_hits == 0,
            decreases self.scraps.len() - si,
        {
            proof {
                lemma_points_gained_bound(
                    old(self).scraps@,
                    prect,
                    screen_h as int,
                    si as int,
                );
                lemma_hit_count_bound(
                    old(self).scraps@,
                    prect,
                    screen_h as int,
                    si as int,
                );
            }
            let mut o = self.scraps[si];
            let hit = o.step(&prect, dy, screen_w, screen_h);
            self.scraps.set(si, o);
            if hit {
                self.player.collect_point(o.get_points());
                scrap_hits = scrap_hits + 1;
            }
            proof {
                assert(object_steps(
                    old(self).scraps[si as int],
                    self.scraps[si as int],
                    prect,
                    dy as int,
                    screen_w as int,
                    screen_h as int,
                ));
            }
            si = si + 1;
        }
        proof {
            lemma_points_gained_bound(
                old(self).scraps@,
                prect,
                screen_h as int,
                old(self).scraps.len() as int,
            );
        }
        let ghost player_collected = self.player;
        let mut ai: usize = 0;
        while ai < self.asteroids.len()
            invariant
                ai <= self.asteroids.len(),
                self.asteroids.len() == old(self).asteroids.len(),
                forall|k: int|
                    0 <= k < ai ==> object_steps(
                        #[trigger] old(self).asteroids[k],
                        self.asteroids[k],
                        prect,
                        dy as int,
                        screen_w as int,
                        screen_h as int,
                    ) && self.asteroids[k].wf(),
                forall|k: int|
                    ai <= k < self.asteroids.len() ==> self.asteroids[k] == old(
                        self,
                    ).asteroids[k],
                self.player == (Player {
                    health: (player_collected.health + health_delta(
                        old(self).asteroids@,
                        prect,
                        screen_h as int,
                        ai as int,
                    )) as i32,
                    ..player_collected
                }),
                asteroid_hits == hit_count(
                    old(self).asteroids@,
                    prect,
                    screen_h as int,
                    ai as int,
                ),
                self.scraps.len() == old(self).scraps.len(),
                forall|k: int|
                    0 <= k < self.scraps.len() ==> object_steps(
                        #[trigger] old(self).scraps[k],
                        self.scraps[k],
                        prect,
                        dy as int,
                        screen_w as int,
                        screen_h as int,
                    ) && self.scraps[k].wf(),
                self.debug == (if input.debug_pressed {
                    !old(self).debug
                } else {
                    old(self).debug
                }),
                self.state == (if old(self).player.health <= 0 {
                    GameState::GameOver
                } else {
                    GameState::Game
                }),
                self.paused == false,
                self.previous_state == old(self).previous_state,
                self.music_timer == old(self).music_timer,
                scrap_hits == hit_count(
                    old(self).scraps@,
                    prect,
                    screen_h as int,
                    old(self).scraps.len() as int,
                ),
            decreases self.asteroids.len() - ai,
        {
            proof {
                lemma_health_delta_bound(
                    old(self).asteroids@,
                    prect,
                    screen_h as int,
                    ai as int,
                );
                lemma_hit_count_bound(
                    old(self).asteroids@,
                    prect,
                    screen_h as int,
                    ai as int,
                );
            }
            let mut o = self.asteroids[ai];
            let hit = o.step(&prect, dy, screen_w, screen_h);
            self.asteroids.set(ai, o);
            if hit {
                self.player.hurt(o.get_health());
                asteroid_hits = asteroid_hits + 1;
            }
            proof {
                assert(self.asteroids[ai as int] == o);
                assert(object_steps(
                    old(self).asteroids[ai as int],
                    o,
                    prect,
                    dy as int,
                    screen_w as int,
                    screen_h as int,
                ));
            }
            ai = ai + 1;
        }
        proof {
            lemma_health_delta_bound(
                old(self).asteroids@,
                prect,
                screen_h as int,
                old(self).asteroids.len() as int,
            );
            assert forall|k: int| 0 <= k < self.scraps.len() implies (
            #[trigger] self.scraps[k]).wf() && self.scraps[k].kind() is Scrap by {
                assert(old(self).scraps[k].wf());
                assert(object_steps(
                    old(self).scraps[k],
                    self.scraps[k],
                    prect,
                    dy as int,
                    screen_w as int,
                    screen_h as int,
                ));
            }
            assert forall|k: int| 0 <= k < self.asteroids.len() implies (
            #[trigger] self.asteroids[k]).wf() && self.asteroids[k].kind()
                is Asteroid by {
                assert(old(self).asteroids[k].wf());
                assert(object_steps(
                    old(self).asteroids[k],
                    self.asteroids[k],
                    prect,
                    dy as int,
                    screen_w as int,
                    screen_h as int,
                ));
            }
        }
        (scrap_hits, asteroid_hits)
    }

    /// One tick of the world. On the main menu it rotates the music when
    /// the timer fires. In the running game it honours the save shortcut,
    /// the pause and debug toggles, declares game over once health is gone,
    /// moves the player by the speed curve, and steps every falling object:
    /// respawn when it left the screen, collect or strike when it overlaps
    /// the player, fall otherwise. Returns the effects the engine performs.
    #[verifier::loop_isolation(false)]
    #[verifier::rlimit(100)]
    pub fn update(&mut self, input: &FrameInput, screen_w: i32, screen_h: i32) -> (fx: FrameEffects)
        requires
            old(self).wf(),
            PLAYER_WIDTH <= screen_w <= MAX_DIM,
            0 < screen_h <= MAX_DIM,
            input.dt_ms <= MAX_TICK_MS,
            old(self).player.points <= i32::MAX - 120,
        ensures
            final(self).wf(),
            !(old(self).state is MainMenu) && !(old(self).state is Game) ==> *final(self) == *old(
                self,
            ) && fx == (FrameEffects {
                save_data: None,
                play_track: None,
                scrap_hits: 0,
                asteroid_hits: 0,
            }),
            old(self).state is MainMenu ==> {
                &&& final(self).player == old(self).player
                &&& final(self).scraps == old(self).scraps
                &&& final(self).asteroids == old(self).asteroids
                &&& final(self).debug == old(self).debug
                &&& final(self).paused == old(self).paused
                &&& final(self).state == old(self).state
                &&& final(self).previous_state == old(self).previous_state
                &&& fx.save_data is None
                &&& fx.scrap_hits == 0
                &&& fx.asteroid_hits == 0
                &&& timer_done(old(self).music_timer, input.now_ms) ==> final(self).music_timer
                    == (Timer {
                    start_time: input.now_ms,
                    life_time: MUSIC_PERIOD_MS,
                    first_time: false,
                }) && fx.play_track == Some(0usize)
                &&& !timer_done(old(self).music_timer, input.now_ms) ==> final(self).music_timer
                    == old(self).music_timer && fx.play_track is None
            },
            old(self).state is Game ==> ({
                let paused2 = if input.pause_pressed {
                    !old(self).paused
                } else {
                    old(self).paused
                };
                &&& final(self).paused == paused2
                &&& fx.save_data == (if input.save_pressed {
                    Some(
                        SaveData {
                            x: old(self).player.position.x,
                            y: old(self).player.position.y,
                            coins: old(self).player.coins,
                        },
                    )
                } else {
                    None
                })
                &&& fx.play_track is None
                &&& final(self).music_timer == old(self).music_timer
                &&& final(self).previous_state == old(self).previous_state
                &&& paused2 ==> final(self).player == old(self).player && final(self).scraps == old(
                    self,
                ).scraps && final(self).asteroids == old(self).asteroids && final(self).debug
                    == old(self).debug && final(self).state == old(self).state && fx.scrap_hits
                    == 0 && fx.asteroid_hits == 0
                &&& !paused2 ==> ({
                    let speed = speed_for_points(old(self).player.points as int);
                    let step = speed * input.dt_ms / 1000;
                    let dy = speed * input.dt_ms / 2000;
                    let px = x_after_touches(
                        x_after_keys(
                            old(self).player.position.x as int,
                            input.left_down,
                            input.right_down,
                            step,
                            screen_w as int,
                        ),
                        input.touch_xs@,
                        step,
                        screen_w as int,
                    );
                    let prect = Rect {
                        x: px as i32,
                        y: old(self).player.position.y,
                        w: old(self).player.position.w,
                        h: old(self).player.position.h,
                    };
                    &&& final(self).debug == (if input.debug_pressed {
                        !old(self).debug
                    } else {
                        old(self).debug
                    })
                    &&& final(self).state == (if old(self).player.health <= 0 {
                        GameState::GameOver
                    } else {
                        GameState::Game
                    })
                    &&& final(self).player.position == prect
                    &&& final(self).player.points == old(self).player.points + points_gained(
                        old(self).scraps@,
                        prect,
                        screen_h as int,
                        old(self).scraps.len() as int,
                    )
                    &&& final(self).player.health == old(self).player.health + health_delta(
                        old(self).asteroids@,
                        prect,
                        screen_h as int,
                        old(self).asteroids.len() as int,
                    )
                    &&& final(self).player.coins == old(self).player.coins
                    &&& final(self).scraps.len() == old(self).scraps.len()
                    &&& forall|i: int|
                        0 <= i < old(self).scraps.len() ==> object_steps(
                            #[trigger] old(self).scraps[i],
                            final(self).scraps[i],
                            prect,
                            dy,
                            screen_w as int,
                            screen_h as int,
                        )
                    &&& final(self).asteroids.len() == old(self).asteroids.len()
                    &&& forall|i: int|
                        0 <= i < old(self).asteroids.len() ==> object_steps(
                            #[trigger] old(self).asteroids[i],
                            final(self).asteroids[i],
                            prect,
                            dy,
                            screen_w as int,
                            screen_h as int,
                        )
                    &&& fx.scrap_hits == hit_count(
                        old(self).scraps@,
                        prect,
                        screen_h as int,
                        old(self).scraps.len() as int,
                    )
                    &&& fx.asteroid_hits == hit_count(
                        old(self).asteroids@,
                        prect,
                        screen_h as int,
                        old(self).asteroids.len() as int,
                    )
                })
            }),
    {
        let mut fx = FrameEffects {
            save_data: None,
            play_track: None,
            scrap_hits: 0,
            asteroid_hits: 0,
        };
        match self.state {
            GameState::MainMenu => {
                if self.music_timer.is_timer_done(input.now_ms) {
                    let song_choice = gen_range_i32(0, 1);
                    fx.play_track = Some(song_choice as usize);
                    self.music_timer = Timer::new(input.now_ms, MUSIC_PERIOD_MS, false);
                }
            },
            GameState::Game => {
                if input.save_pressed {
                    fx.save_data = Some(
                        SaveData {
                            x: self.player.get_x(),
                            y: self.player.get_y(),
                            coins: self.player.get_coins(),
                        },
                    );
                }
                if input.pause_pressed {
                    self.paused = !self.paused;
                }
                if !self.paused {
                    let hits = self.run_game_tick(input, screen_w, screen_h);
                    fx.scrap_hits = hits.0;
                    fx.asteroid_hits = hits.1;
                }
            },
            GameState::Credits => {},
            GameState::Options => {},
            GameState::GameTutorial => {},
            GameState::Shop => {},
            GameState::GameOver => {},
        }
        fx
    }

    /// Applies one button press to the screen flow. Returns whether the
    /// game should quit. A press that does not belong to the current screen
    /// changes nothing.
    pub fn handle_event(&mut self, event: UiEvent, screen_w: i32) -> (quit: bool)
        requires
            old(self).wf(),
            0 < screen_w <= MAX_DIM,
            event is ConvertPoints ==> old(self).player.coins + old(self).player.points / SHOP_RATE
                <= i32::MAX,
        ensures
            final(self).wf(),
            event is Play ==> !quit && *final(self) == (GameStruct {
                state: if old(self).state is MainMenu {
                    GameState::GameTutorial
                } else {
                    old(self).state
                },
                ..*old(self)
            }),
            event is OpenCredits ==> !quit && *final(self) == (if old(self).state is MainMenu || (
            old(self).state is Game && old(self).paused) {
                GameStruct {
                    state: GameState::Credits,
                    previous_state: old(self).state,
                    ..*old(self)
                }
            } else {
                *old(self)
            }),
            event is OpenOptions ==> !quit && *final(self) == (if old(self).state is MainMenu || (
            old(self).state is Game && old(self).paused) {
                GameStruct {
                    state: GameState::Options,
                    previous_state: old(self).state,
                    ..*old(self)
                }
            } else {
                *old(self)
            }),
            event is StartGame ==> !quit && *final(self) == (GameStruct {
                state: if old(self).state is GameTutorial {
                    GameState::Game
                } else {
                    old(self).state
                },
                ..*old(self)
            }),
            event is Resume ==> !quit && *final(self) == (if old(self).state is Game && old(
                self,
            ).paused {
                GameStruct { paused: false, ..*old(self) }
            } else {
                *old(self)
            }),
            event is OpenShop ==> !quit && *final(self) == (GameStruct {
                state: if old(self).state is Game && old(self).paused {
                    GameState::Shop
                } else {
                    old(self).state
                },
                ..*old(self)
            }),
            event is Back ==> !quit && *final(self) == (GameStruct {
                state: if old(self).state is Credits || old(self).state is Options {
                    old(self).previous_state
                } else {
                    old(self).state
                },
                ..*old(self)
            }),
            event is ConvertPoints ==> !quit && *final(self) == (if old(self).state is Shop {
                GameStruct {
                    player: Player {
                        coins: (old(self).player.coins + old(self).player.points
                            / SHOP_RATE) as i32,
                        points: (old(self).player.points - old(self).player.points
                            / SHOP_RATE) as i32,
                        ..old(self).player
                    },
                    ..*old(self)
                }
            } else {
                *old(self)
            }),
            event is CloseShop ==> !quit && *final(self) == (GameStruct {
                state: if old(self).state is Shop {
                    GameState::Game
                } else {
                    old(self).state
                },
                ..*old(self)
            }),
            event is PlayAgain && !(old(self).state is GameOver) ==> !quit && *final(self) == *old(
                self,
            ),
            event is PlayAgain && old(self).state is GameOver ==> !quit && {
                &&& final(self).player == (Player {
                    points: 0,
                    health: START_HEALTH,
                    ..old(self).player
                })
                &&& final(self).state is Game
                &&& final(self).scraps.len() == old(self).scraps.len()
                &&& forall|i: int|
                    0 <= i < old(self).scraps.len() ==> respawned(
                        #[trigger] old(self).scraps[i],
                        final(self).scraps[i],
                        screen_w as int,
                    )
                &&& final(self).asteroids.len() == old(self).asteroids.len()
                &&& forall|i: int|
                    0 <= i < old(self).asteroids.len() ==> respawned(
                        #[trigger] old(self).asteroids[i],
                        final(self).asteroids[i],
                        screen_w as int,
                    )
                &&& final(self).debug == old(self).debug
                &&& final(self).paused == old(self).paused
                &&& final(self).previous_state == old(self).previous_state
                &&& final(self).music_timer == old(self).music_timer
            },
            event is Quit ==> *final(self) == *old(self) && quit == (old(self).state is MainMenu
                || (old(self).state is Game && old(self).paused) || old(self).state is GameOver),
    {
        match event {
            UiEvent::Play => {
                if matches!(self.state, GameState::MainMenu) {
                    self.state = GameState::GameTutorial;
                }
                false
            },
            UiEvent::OpenCredits => {
                if matches!(self.state, GameState::MainMenu) || (matches!(
                    self.state,
                    GameState::Game,
                ) && self.paused) {
                    self.previous_state = self.state;
                    self.state = GameState::Credits;
                }
                false
            },
            UiEvent::OpenOptions => {
                if matches!(self.state, GameState::MainMenu) || (matches!(
                    self.state,
                    GameState::Game,
                ) && self.paused) {
                    self.previous_state = self.state;
                    self.state = GameState::Options;
                }
                false
            },
            UiEvent::StartGame => {
                if matches!(self.state, GameState::GameTutorial) {
                    self.state = GameState::Game;
                }
                false
            },
            UiEvent::Resume => {
                if matches!(self.state, GameState::Game) && self.paused {
                    self.paused = false;
                }
                false
            },
            UiEvent::OpenShop => {
                if matches!(self.state, GameState::Game) && self.paused {
                    self.state = GameState::Shop;
                }
                false
            },
            UiEvent::Back => {
                if matches!(self.state, GameState::Credits) || matches!(
                    self.state,
                    GameState::Options,
                ) {
                    self.state = self.previous_state;
                }
                false
            },
            UiEvent::ConvertPoints => {
                if matches!(self.state, GameState::Shop) {
                    let new_coins = self.player.points / SHOP_RATE;
                    self.player.coins = self.player.coins + new_coins;
                    self.player.points = self.player.points - new_coins;
                }
                false
            },
            UiEvent::CloseShop => {
                if matches!(self.state, GameState::Shop) {
                    self.state = GameState::Game;
                }
                false
            },
            UiEvent::PlayAgain => {
                if matches!(self.state, GameState::GameOver) {
                    self.player.points = 0;
                    self.player.health = START_HEALTH;
                    let mut i: usize = 0;
                    while i < self.scraps.len()
                        invariant
                            i <= self.scraps.len(),
                            self.scraps.len() == old(self).scraps.len(),
                            0 < screen_w <= MAX_DIM,
                            forall|k: int|
                                0 <= k < i ==> respawned(
                                    #[trigger] old(self).scraps[k],
                                    self.scraps[k],
                                    screen_w as int,
                                ) && (old(self).scraps[k].wf() ==> self.scraps[k].wf()),
                            forall|k: int|
                                i <= k < self.scraps.len() ==> self.scraps[k] == old(
                                    self,
                                ).scraps[k],
                            self.player == (Player {
                                points: 0,
                                health: START_HEALTH,
                                ..old(self).player
                            }),
                            self.asteroids == old(self).asteroids,
                            self.debug == old(self).debug,
                            self.paused == old(self).paused,
                            self.state == old(self).state,
                            self.previous_state == old(self).previous_state,
                            self.music_timer == old(self).music_timer,
                        decreases self.scraps.len() - i,
                    {
                        let mut o = self.scraps[i];
                        o.reset(screen_w);
                        self.scraps.set(i, o);
                        i = i + 1;
                    }
                    let mut j: usize = 0;
                    while j < self.asteroids.len()
                        invariant
                            j <= self.asteroids.len(),
                            self.asteroids.len() == old(self).asteroids.len(),
                            0 < screen_w <= MAX_DIM,
                            forall|k: int|
                                0 <= k < j ==> respawned(
                                    #[trigger] old(self).asteroids[k],
                                    self.asteroids[k],
                                    screen_w as int,
                                ) && (old(self).asteroids[k].wf() ==> self.asteroids[k].wf()),
                            forall|k: int|
                                j <= k < self.asteroids.len() ==> self.asteroids[k] == old(
                                    self,
                                ).asteroids[k],
                            self.scraps.len() == old(self).scraps.len(),
                            forall|k: int|
                                0 <= k < self.scraps.len() ==> respawned(
                                    #[trigger] old(self).scraps[k],
                                    self.scraps[k],
                                    screen_w as int,
                                ) && (old(self).scraps[k].wf() ==> self.scraps[k].wf()),
                            self.player == (Player {
                                points: 0,
                                health: START_HEALTH,
                                ..old(self).player
                            }),
                            self.debug == old(self).debug,
                            self.paused == old(self).paused,
                            self.state == old(self).state,
                            self.previous_state == old(self).previous_state,
                            self.music_timer == old(self).music_timer,
                        decreases self.asteroids.len() - j,
                    {
                        let mut o = self.asteroids[j];
                        o.reset(screen_w);
                        self.asteroids.set(j, o);
                        j = j + 1;
                    }
                    proof {
                        assert forall|k: int| 0 <= k < self.scraps.len() implies (
                        #[trigger] self.scraps[k]).wf() && self.scraps[k].kind() is Scrap by {
                            assert(old(self).scraps[k].wf());
                            assert(respawned(old(self).scraps[k], self.scraps[k], screen_w as int));
                        }
                        assert forall|k: int| 0 <= k < self.asteroids.len() implies (
                        #[trigger] self.asteroids[k]).wf() && self.asteroids[k].kind()
                            is Asteroid by {
                            assert(old(self).asteroids[k].wf());
                            assert(respawned(
                                old(self).asteroids[k],
                                self.asteroids[k],
                                screen_w as int,
                            ));
                        }
                    }
                    self.state = GameState::Game;
                }
                false
            },
            UiEvent::Quit => {
                matches!(self.state, GameState::MainMenu) || (matches!(self.state, GameState::Game)
                    && self.paused) || matches!(self.state, GameState::GameOver)
            },
        }
    }
}

} // verus!
