//! The state machine: menu flow, scheme selection, pause, restart after a
//! loss, and level progression after a win.

use asteroids::entities::{ColorPalette, Rgba};
use asteroids::game::{frame, new_game, new_session, Game, GameState, Round};
use asteroids::input::{ControlMode, FrameInput};
use asteroids::geom::Vec2;

const W: i64 = 800_000;
const H: i64 = 600_000;

fn idle() -> FrameInput {
    FrameInput {
        left_held: false,
        right_held: false,
        thrust_held: false,
        fire_held: false,
        pause_pressed: false,
        confirm_pressed: false,
        touch_started: false,
        touches: Vec::new(),
    }
}

fn confirm() -> FrameInput {
    FrameInput { confirm_pressed: true, ..idle() }
}

fn tapping() -> FrameInput {
    FrameInput {
        touch_started: true,
        touches: vec![Vec2 { x: 100_000, y: 100_000 }],
        ..idle()
    }
}

fn in_state(state: GameState, mode: ControlMode, level: u32, score: u64) -> Game {
    let palette = ColorPalette {
        background: Rgba { red: 0, green: 0, blue: 0, alpha: 255 },
        ship: Rgba { red: 255, green: 255, blue: 255, alpha: 255 },
        asteroid_colors: vec![Rgba { red: 200, green: 100, blue: 50, alpha: 255 }],
    };
    let round = new_game(level, 1_000, W, H, &palette);
    Game { state, mode, level, palette_index: 0, palette, score, round }
}

#[test]
fn a_new_session_waits_at_the_start_menu() {
    let g = new_session(0, W, H);
    assert_eq!(g.state, GameState::StartMenu);
    assert_eq!(g.mode, ControlMode::Keyboard);
    assert_eq!(g.level, 1);
    assert_eq!(g.score, 0);
    assert_eq!(g.palette_index, 0);
    assert_eq!(g.round.asteroids.len(), 12);
}

#[test]
fn the_confirm_key_selects_the_keyboard_scheme() {
    let mut g = new_session(0, W, H);
    frame(&mut g, &confirm(), 10, W, H);
    assert_eq!(g.state, GameState::InfoScreen);
    assert_eq!(g.mode, ControlMode::Keyboard);
}

#[test]
fn the_first_touch_selects_the_touch_scheme() {
    let mut g = new_session(0, W, H);
    frame(&mut g, &tapping(), 10, W, H);
    assert_eq!(g.state, GameState::InfoScreen);
    assert_eq!(g.mode, ControlMode::Touch);
}

#[test]
fn the_start_menu_ignores_an_idle_frame() {
    let mut g = new_session(0, W, H);
    frame(&mut g, &idle(), 10, W, H);
    assert_eq!(g.state, GameState::StartMenu);
    assert_eq!(g.mode, ControlMode::Keyboard);
}

#[test]
fn the_info_screen_starts_play_on_a_matching_confirm() {
    let mut g = in_state(GameState::InfoScreen, ControlMode::Keyboard, 1, 0);
    frame(&mut g, &confirm(), 2_000, W, H);
    assert_eq!(g.state, GameState::Playing);
    assert_eq!(g.score, 0);
    assert_eq!(g.level, 1);
    assert_eq!(g.round.asteroids.len(), 12);
    assert_eq!(g.round.last_shot, 2_000);
    assert_eq!(g.palette_index, 0);
}

#[test]
fn the_info_screen_under_touch_ignores_the_keyboard_confirm() {
    let mut g = in_state(GameState::InfoScreen, ControlMode::Touch, 1, 0);
    frame(&mut g, &confirm(), 2_000, W, H);
    assert_eq!(g.state, GameState::InfoScreen);
    frame(&mut g, &tapping(), 2_000, W, H);
    assert_eq!(g.state, GameState::Playing);
}

#[test]
fn pausing_freezes_the_round_until_a_confirm() {
    let mut g = in_state(GameState::Playing, ControlMode::Keyboard, 1, 40);
    let pause = FrameInput { pause_pressed: true, ..idle() };
    frame(&mut g, &pause, 1_001, W, H);
    assert_eq!(g.state, GameState::Paused);
    let asteroids_before: Vec<_> = g.round.asteroids.iter().map(|a| a.pos).collect();
    frame(&mut g, &idle(), 1_002, W, H);
    assert_eq!(g.state, GameState::Paused);
    let asteroids_after: Vec<_> = g.round.asteroids.iter().map(|a| a.pos).collect();
    assert_eq!(asteroids_before, asteroids_after);
    assert_eq!(g.score, 40);
    frame(&mut g, &confirm(), 1_003, W, H);
    assert_eq!(g.state, GameState::Playing);
}

#[test]
fn game_over_restart_resets_the_session() {
    let mut g = in_state(GameState::GameOver, ControlMode::Keyboard, 4, 335);
    frame(&mut g, &idle(), 2_000, W, H);
    assert_eq!(g.state, GameState::GameOver);
    assert_eq!(g.score, 335);
    frame(&mut g, &confirm(), 2_001, W, H);
    assert_eq!(g.state, GameState::StartMenu);
    assert_eq!(g.level, 1);
    assert_eq!(g.score, 0);
    assert_eq!(g.palette_index, 0);
    assert_eq!(g.round.asteroids.len(), 12);
}

#[test]
fn a_touch_also_restarts_after_game_over() {
    let mut g = in_state(GameState::GameOver, ControlMode::Touch, 2, 85);
    let touch_only = FrameInput {
        touches: vec![Vec2 { x: 1, y: 1 }],
        ..idle()
    };
    frame(&mut g, &touch_only, 2_000, W, H);
    assert_eq!(g.state, GameState::StartMenu);
    assert_eq!(g.score, 0);
    assert_eq!(g.level, 1);
}

#[test]
fn winning_carries_the_score_into_the_next_level() {
    let mut g = in_state(GameState::Win, ControlMode::Keyboard, 1, 230);
    frame(&mut g, &confirm(), 3_000, W, H);
    assert_eq!(g.state, GameState::Playing);
    assert_eq!(g.level, 2);
    assert_eq!(g.score, 230);
    // The next level's field is larger: 10 + 2 * 2 asteroids.
    assert_eq!(g.round.asteroids.len(), 14);
    assert_eq!(g.round.last_shot, 3_000);
}

#[test]
fn the_win_screen_waits_without_a_confirm() {
    let mut g = in_state(GameState::Win, ControlMode::Keyboard, 3, 500);
    frame(&mut g, &idle(), 3_000, W, H);
    assert_eq!(g.state, GameState::Win);
    assert_eq!(g.level, 3);
    assert_eq!(g.score, 500);
}

#[test]
fn quit_is_terminal() {
    let mut g = in_state(GameState::Quit, ControlMode::Keyboard, 1, 10);
    frame(&mut g, &confirm(), 5_000, W, H);
    assert_eq!(g.state, GameState::Quit);
    assert_eq!(g.score, 10);
}
