use space_cleanup::game::{FrameInput, GameState, GameStruct, UiEvent};
use space_cleanup::geometry::Rect;
use space_cleanup::player::{calculate_speed, Player};
use space_cleanup::space_objects::{ObjectKind, SpaceObject};
use space_cleanup::timer::Timer;

const SCREEN_W: i32 = 1280;
const SCREEN_H: i32 = 720;

fn quiet_input(now_ms: u64, dt_ms: u32) -> FrameInput {
    FrameInput {
        now_ms,
        dt_ms,
        save_pressed: false,
        pause_pressed: false,
        debug_pressed: false,
        left_down: false,
        right_down: false,
        touch_xs: Vec::new(),
    }
}

fn running_game() -> GameStruct {
    let mut g = GameStruct::new(SCREEN_W, SCREEN_H, None, 0);
    g.state = GameState::Game;
    g
}

#[test]
fn speed_curve_formula() {
    assert_eq!(calculate_speed(0), 250);
    assert_eq!(calculate_speed(100), 450);
    assert_eq!(calculate_speed(1624), 3498);
    assert_eq!(calculate_speed(1625), 3500);
    assert_eq!(calculate_speed(5000), 3500);
    assert_eq!(calculate_speed(i32::MAX), 3500);
}

#[test]
fn speed_curve_monotonic_samples() {
    let mut last = 0;
    for p in [0, 1, 10, 500, 1624, 1625, 1626, 100000] {
        let s = calculate_speed(p);
        assert!(s >= last);
        assert!(s <= 3500);
        last = s;
    }
}

#[test]
fn timer_done_at_and_after_duration() {
    let t = Timer::new(1000, 13000, true);
    assert!(t.first_time);
    assert!(!t.is_timer_done(1000));
    assert!(!t.is_timer_done(13999));
    assert!(t.is_timer_done(14000));
    assert!(t.is_timer_done(20000));
}

#[test]
fn spawn_ranges_hold() {
    let mut seen_xs = Vec::new();
    for _ in 0..50 {
        let s = SpaceObject::new(ObjectKind::Scrap, SCREEN_W);
        assert!(0 <= s.position.x && s.position.x < SCREEN_W - 64);
        assert!(0 <= s.position.y && s.position.y < 50);
        assert!(1 <= s.points && s.points < 5);
        assert!(0 <= s.rotate && s.rotate < 360);
        assert_eq!(s.position.w, 64);
        assert_eq!(s.position.h, 64);
        assert_eq!(s.health, s.points);
        let a = SpaceObject::new(ObjectKind::Asteroid, SCREEN_W);
        assert_eq!(a.health, -1);
        seen_xs.push(s.position.x);
    }
    // the spots are drawn, not fixed: fifty spawns do not all land on one x
    let first = seen_xs[0];
    assert!(seen_xs.iter().any(|x| *x != first));
}

#[test]
fn offscreen_object_respawns_in_band() {
    let player_rect = Rect { x: 0, y: 600, w: 75, h: 125 };
    for _ in 0..20 {
        let mut o = SpaceObject::new(ObjectKind::Scrap, SCREEN_W);
        o.position.y = SCREEN_H + 1;
        let hit = o.step(&player_rect, 10, SCREEN_W, SCREEN_H);
        assert!(!hit);
        assert!(0 <= o.position.y && o.position.y <= 50);
        assert!(0 <= o.position.x && o.position.x < SCREEN_W);
    }
}

#[test]
fn overlapping_object_respawns_and_never_falls() {
    let player_rect = Rect { x: 600, y: 500, w: 75, h: 125 };
    for _ in 0..20 {
        let mut o = SpaceObject::new(ObjectKind::Asteroid, SCREEN_W);
        o.position.x = 610;
        o.position.y = 520;
        let old_points = o.points;
        let hit = o.step(&player_rect, 400, SCREEN_W, SCREEN_H);
        assert!(hit);
        // respawned into the top band, not moved down by the fall step
        assert!(0 <= o.position.y && o.position.y < 50);
        assert!(0 <= o.position.x && o.position.x < SCREEN_W - 64);
        assert_eq!(o.points, old_points);
        assert_eq!(o.health, -1);
    }
}

#[test]
fn clear_object_falls_by_step() {
    let player_rect = Rect { x: 0, y: 600, w: 75, h: 125 };
    let mut o = SpaceObject::new(ObjectKind::Scrap, SCREEN_W);
    o.position.x = 500;
    o.position.y = 100;
    let y0 = o.position.y;
    let hit = o.step(&player_rect, 37, SCREEN_W, SCREEN_H);
    assert!(!hit);
    assert_eq!(o.position.y, y0 + 37);
}

#[test]
fn player_starts_centered() {
    let p = Player::new(SCREEN_W, SCREEN_H);
    assert_eq!(p.get_x(), 640);
    assert_eq!(p.get_y(), 540);
    assert_eq!(p.get_width(), 75);
    assert_eq!(p.get_height(), 125);
    assert_eq!(p.health, 5);
    assert_eq!(p.points, 0);
    assert_eq!(p.get_coins(), 0);
    assert_eq!(p.get_rect(), Rect { x: 640, y: 540, w: 75, h: 125 });
}

#[test]
fn hurt_and_collect_point() {
    let mut p = Player::new(SCREEN_W, SCREEN_H);
    p.hurt(-1);
    assert_eq!(p.health, 4);
    p.collect_point(3);
    assert_eq!(p.points, 3);
    p.move_x(-40);
    assert_eq!(p.get_x(), 600);
    p.move_y(10);
    assert_eq!(p.get_y(), 550);
}

#[test]
fn shop_converts_points_to_coins() {
    let mut g = running_game();
    g.state = GameState::Shop;
    g.player.points = 23;
    g.player.coins = 0;
    let quit = g.handle_event(UiEvent::ConvertPoints, SCREEN_W);
    assert!(!quit);
    assert_eq!(g.player.coins, 2);
    assert_eq!(g.player.points, 21);
    // converting again moves the remaining tens
    g.handle_event(UiEvent::ConvertPoints, SCREEN_W);
    assert_eq!(g.player.coins, 4);
    assert_eq!(g.player.points, 19);
}

#[test]
fn play_again_resets_the_world() {
    let mut g = running_game();
    g.state = GameState::GameOver;
    g.player.points = 99;
    g.player.health = -2;
    for o in g.scraps.iter_mut() {
        o.position.y = 5000;
    }
    let quit = g.handle_event(UiEvent::PlayAgain, SCREEN_W);
    assert!(!quit);
    assert_eq!(g.state, GameState::Game);
    assert_eq!(g.player.points, 0);
    assert_eq!(g.player.health, 5);
    for o in g.scraps.iter().chain(g.asteroids.iter()) {
        assert!(0 <= o.position.y && o.position.y < 50);
        assert!(0 <= o.position.x && o.position.x < SCREEN_W);
    }
}

#[test]
fn menu_flow_transitions() {
    let mut g = GameStruct::new(SCREEN_W, SCREEN_H, None, 0);
    assert_eq!(g.state, GameState::MainMenu);
    g.handle_event(UiEvent::OpenCredits, SCREEN_W);
    assert_eq!(g.state, GameState::Credits);
    g.handle_event(UiEvent::Back, SCREEN_W);
    assert_eq!(g.state, GameState::MainMenu);
    g.handle_event(UiEvent::Play, SCREEN_W);
    assert_eq!(g.state, GameState::GameTutorial);
    g.handle_event(UiEvent::StartGame, SCREEN_W);
    assert_eq!(g.state, GameState::Game);
}

#[test]
fn pause_menu_flow() {
    let mut g = running_game();
    g.paused = true;
    g.handle_event(UiEvent::OpenOptions, SCREEN_W);
    assert_eq!(g.state, GameState::Options);
    assert_eq!(g.previous_state, GameState::Game);
    g.handle_event(UiEvent::Back, SCREEN_W);
    assert_eq!(g.state, GameState::Game);
    // still paused after coming back
    assert!(g.paused);
    g.handle_event(UiEvent::OpenShop, SCREEN_W);
    assert_eq!(g.state, GameState::Shop);
    g.handle_event(UiEvent::CloseShop, SCREEN_W);
    assert_eq!(g.state, GameState::Game);
    g.handle_event(UiEvent::Resume, SCREEN_W);
    assert!(!g.paused);
}

#[test]
fn events_in_wrong_state_do_nothing() {
    let mut g = GameStruct::new(SCREEN_W, SCREEN_H, None, 0);
    let state0 = g.state;
    let coins0 = g.player.coins;
    g.handle_event(UiEvent::ConvertPoints, SCREEN_W);
    g.handle_event(UiEvent::PlayAgain, SCREEN_W);
    g.handle_event(UiEvent::StartGame, SCREEN_W);
    g.handle_event(UiEvent::Resume, SCREEN_W);
    assert_eq!(g.state, state0);
    assert_eq!(g.player.coins, coins0);
}

#[test]
fn quit_only_from_quittable_screens() {
    let mut g = GameStruct::new(SCREEN_W, SCREEN_H, None, 0);
    assert!(g.handle_event(UiEvent::Quit, SCREEN_W));
    g.state = GameState::Credits;
    assert!(!g.handle_event(UiEvent::Quit, SCREEN_W));
    g.state = GameState::Game;
    g.paused = false;
    assert!(!g.handle_event(UiEvent::Quit, SCREEN_W));
    g.paused = true;
    assert!(g.handle_event(UiEvent::Quit, SCREEN_W));
    g.state = GameState::GameOver;
    assert!(g.handle_event(UiEvent::Quit, SCREEN_W));
}

#[test]
fn music_timer_fires_on_menu() {
    let mut g = GameStruct::new(SCREEN_W, SCREEN_H, None, 1000);
    let fx = g.update(&quiet_input(2000, 16), SCREEN_W, SCREEN_H);
    assert_eq!(fx.play_track, None);
    let fx = g.update(&quiet_input(14000, 16), SCREEN_W, SCREEN_H);
    assert_eq!(fx.play_track, Some(0));
    assert_eq!(g.music_timer.start_time, 14000);
    assert_eq!(g.music_timer.life_time, 13000);
    assert!(!g.music_timer.first_time);
}

#[test]
fn update_honours_save_shortcut() {
    let mut g = running_game();
    g.player.coins = 6;
    let mut input = quiet_input(0, 16);
    input.save_pressed = true;
    let fx = g.update(&input, SCREEN_W, SCREEN_H);
    let d = fx.save_data.unwrap();
    assert_eq!(d.x, 640);
    assert_eq!(d.y, 540);
    assert_eq!(d.coins, 6);
}

#[test]
fn update_moves_player_left_and_clamps() {
    let mut g = running_game();
    // park the objects far from the player so no collision interferes
    for o in g.scraps.iter_mut().chain(g.asteroids.iter_mut()) {
        o.position.x = SCREEN_W - 64;
        o.position.y = 0;
    }
    let mut input = quiet_input(0, 1000);
    input.left_down = true;
    // points 0: speed 250, one second: one step of 250 pixels
    let fx = g.update(&input, SCREEN_W, SCREEN_H);
    assert_eq!(g.player.get_x(), 390);
    assert_eq!(fx.scrap_hits + fx.asteroid_hits, 0);
    g.update(&input, SCREEN_W, SCREEN_H);
    assert_eq!(g.player.get_x(), 140);
    // clamped at the left edge
    g.update(&input, SCREEN_W, SCREEN_H);
    assert_eq!(g.player.get_x(), 0);
    g.update(&input, SCREEN_W, SCREEN_H);
    assert_eq!(g.player.get_x(), 0);
}

#[test]
fn update_moves_player_toward_touch() {
    let mut g = running_game();
    for o in g.scraps.iter_mut().chain(g.asteroids.iter_mut()) {
        o.position.x = SCREEN_W - 64;
        o.position.y = 0;
    }
    let mut input = quiet_input(0, 100);
    input.touch_xs = vec![0];
    // speed 250 over 0.1 s: 25 pixels toward the touch
    g.update(&input, SCREEN_W, SCREEN_H);
    assert_eq!(g.player.get_x(), 615);
    input.touch_xs = vec![SCREEN_W, SCREEN_W];
    g.update(&input, SCREEN_W, SCREEN_H);
    assert_eq!(g.player.get_x(), 665);
}

#[test]
fn update_collects_overlapping_scrap() {
    let mut g = running_game();
    for o in g.scraps.iter_mut().chain(g.asteroids.iter_mut()) {
        o.position.x = SCREEN_W - 64;
        o.position.y = 0;
    }
    // drop the first scrap onto the player
    g.scraps[0].position.x = g.player.get_x();
    g.scraps[0].position.y = g.player.get_y();
    let worth = g.scraps[0].points;
    let fx = g.update(&quiet_input(0, 16), SCREEN_W, SCREEN_H);
    assert_eq!(fx.scrap_hits, 1);
    assert_eq!(fx.asteroid_hits, 0);
    assert_eq!(g.player.points, worth);
    // the collected scrap respawned into the top band
    assert!(g.scraps[0].position.y < 50);
}

#[test]
fn update_asteroid_strike_costs_health() {
    let mut g = running_game();
    for o in g.scraps.iter_mut().chain(g.asteroids.iter_mut()) {
        o.position.x = SCREEN_W - 64;
        o.position.y = 0;
    }
    g.asteroids[0].position.x = g.player.get_x();
    g.asteroids[0].position.y = g.player.get_y();
    let fx = g.update(&quiet_input(0, 16), SCREEN_W, SCREEN_H);
    assert_eq!(fx.asteroid_hits, 1);
    assert_eq!(g.player.health, 4);
}

#[test]
fn update_objects_fall_each_tick() {
    let mut g = running_game();
    for o in g.scraps.iter_mut().chain(g.asteroids.iter_mut()) {
        o.position.x = SCREEN_W - 64;
        o.position.y = 10;
    }
    // speed 250 over 1 s, halved: every clear object falls 125 pixels
    g.update(&quiet_input(0, 1000), SCREEN_W, SCREEN_H);
    for o in g.scraps.iter().chain(g.asteroids.iter()) {
        assert_eq!(o.position.y, 135);
    }
}

#[test]
fn update_declares_game_over() {
    let mut g = running_game();
    for o in g.scraps.iter_mut().chain(g.asteroids.iter_mut()) {
        o.position.x = SCREEN_W - 64;
        o.position.y = 0;
    }
    g.player.health = 0;
    g.update(&quiet_input(0, 16), SCREEN_W, SCREEN_H);
    assert_eq!(g.state, GameState::GameOver);
    // a game-over tick changes nothing further
    let h = g.player.health;
    g.update(&quiet_input(16, 16), SCREEN_W, SCREEN_H);
    assert_eq!(g.state, GameState::GameOver);
    assert_eq!(g.player.health, h);
}

#[test]
fn update_while_paused_freezes_world() {
    let mut g = running_game();
    let mut input = quiet_input(0, 1000);
    input.pause_pressed = true;
    input.left_down = true;
    let fx = g.update(&input, SCREEN_W, SCREEN_H);
    assert!(g.paused);
    assert_eq!(g.player.get_x(), 640);
    assert_eq!(fx.scrap_hits, 0);
    // toggling again resumes movement in the same tick
    let fx = g.update(&input, SCREEN_W, SCREEN_H);
    assert!(!g.paused);
    assert_eq!(g.player.get_x(), 390);
    let _ = fx;
}

#[test]
fn new_game_restores_saved_player() {
    let mut p = Player::new(SCREEN_W, SCREEN_H);
    p.position.x = 100;
    p.position.y = 200;
    p.coins = 8;
    let bytes = p.save_player();
    let g = GameStruct::new(SCREEN_W, SCREEN_H, Some(&bytes), 0);
    assert_eq!(g.player.position.x, 100);
    assert_eq!(g.player.position.y, 200);
    assert_eq!(g.player.coins, 8);
    assert_eq!(g.player.health, 5);
    assert_eq!(g.player.points, 0);
    assert_eq!(g.state, GameState::MainMenu);
    assert!(20 <= g.scraps.len() && g.scraps.len() < 30);
    assert!(5 <= g.asteroids.len() && g.asteroids.len() < 10);
}
