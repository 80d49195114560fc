//! The game state machine and the per-frame orchestrator: StartMenu,
//! InfoScreen, Playing, Paused, GameOver, Win and Quit, with the session
//! state (level, score, control scheme, palette) and the live round.
//!
//! One call to `frame` advances the whole game by one frame; what each
//! state does to the game is pinned by a relation per state.

use vstd::prelude::*;

verus! {

use crate::collision::{any_ship_hit, bullet_live, expire_bullets, matches_template, resolve_all,
    resolve_bullets, sat_add_u64, ship_collided};
use crate::entities::{asteroid_wf, bullet_wf, pos_in_field, ship_wf, Asteroid, Bullet,
    ColorPalette, Ship};
use crate::geom::{div_trunc, div_tz, Vec2};
use crate::input::{commands_spec, input_wf, resolve_input, Commands, ControlMode, FrameInput};
use crate::level::{asteroid_count_spec, pick_palette_for_level, sample_palettes, spawn_asteroids};
use crate::physics::{apply_rotation, drag_accel, integrate_ship, integrated_ship, moved_bullet,
    step_asteroids, step_bullets, stepped_asteroid, thrust_accel};
use crate::trig::{cos_milli, sin_milli, heading};
use crate::{BULLET_SPEED, FIRE_COOLDOWN, MAX_EXTENT, MAX_LEVEL, MAX_TIME, SHIP_MAX_SPEED};
use vstd::arithmetic::div_mod::{lemma_div_is_ordered, lemma_div_multiples_vanish,
    lemma_div_pos_is_pos};

/// The top-level states of a session.
#[derive(Clone, Copy, PartialEq, Eq, Structural, Debug)]
pub enum GameState {
    StartMenu,
    InfoScreen,
    Playing,
    Paused,
    GameOver,
    Win,
    Quit,
}

/// One play-through of a level: the live entities and the fire timer.
pub struct Round {
    pub ship: Ship,
    pub bullets: Vec<Bullet>,
    pub asteroids: Vec<Asteroid>,
    pub last_shot: u64,
    pub clock: u64,
}

/// The whole game: the active state, the session (scheme, level, palette,
/// score) and the live round.
pub struct Game {
    pub state: GameState,
    pub mode: ControlMode,
    pub level: u32,
    pub palette_index: usize,
    pub palette: ColorPalette,
    pub score: u64,
    pub round: Round,
}

/// Well-formed round: every entity well-formed, no asteroid consumed, and
/// the timestamps consistent with the round's clock.
pub open spec fn round_wf(r: Round, level: int) -> bool {
    &&& ship_wf(r.ship)
    &&& forall|i: int| 0 <= i < r.bullets@.len() ==> bullet_wf(#[trigger] r.bullets@[i])
    &&& forall|i: int| 0 <= i < r.bullets@.len() ==> (#[trigger] r.bullets@[i]).shot_at <= r.clock
    &&& forall|i: int|
        0 <= i < r.asteroids@.len() ==> asteroid_wf(#[trigger] r.asteroids@[i], level)
    &&& forall|i: int| 0 <= i < r.asteroids@.len() ==> !(#[trigger] r.asteroids@[i]).collided
    &&& r.last_shot <= r.clock
    &&& r.clock <= MAX_TIME
}

/// Well-formed game: level in range, round well-formed, a usable palette,
/// and a zero score while still in the menus.
pub open spec fn game_wf(g: Game) -> bool {
    &&& 1 <= g.level <= MAX_LEVEL
    &&& round_wf(g.round, g.level as int)
    &&& 1 <= g.palette.asteroid_colors@.len() <= 0xFFFF_FFFF
    &&& g.palette_index < 10
    &&& (g.state == GameState::StartMenu || g.state == GameState::InfoScreen) ==> g.score == 0
}

/// A confirm under the active scheme: the confirm key for the keyboard
/// scheme, a began touch for the touch scheme.
pub open spec fn confirm_for(mode: ControlMode, inp: FrameInput) -> bool {
    match mode {
        ControlMode::Keyboard => inp.confirm_pressed,
        ControlMode::Touch => inp.touch_started,
    }
}

/// A fresh round: the ship still and centered, no bullets, a full asteroid
/// field for the level, and the fire timer set to now.
pub open spec fn fresh_round_rel(r: Round, level: int, now: int, w: int, h: int) -> bool {
    &&& r.ship == (Ship {
        pos: Vec2 { x: (w / 2) as i64, y: (h / 2) as i64 },
        rot: 0,
        vel: Vec2 { x: 0, y: 0 },
    })
    &&& r.bullets@.len() == 0
    &&& r.asteroids@.len() == asteroid_count_spec(level)
    &&& forall|i: int|
        0 <= i < r.asteroids@.len() ==> asteroid_wf(#[trigger] r.asteroids@[i], level)
    &&& r.last_shot == now
    &&& r.clock == now
}

/// Build the fresh round a level starts with.
pub fn new_game(level: u32, now: u64, w: i64, h: i64, palette: &ColorPalette) -> (r: Round)
    requires
        1 <= level <= MAX_LEVEL,
        0 < w <= MAX_EXTENT,
        0 < h <= MAX_EXTENT,
        now <= MAX_TIME,
        1 <= palette.asteroid_colors@.len() <= 0xFFFF_FFFF,
    ensures
        fresh_round_rel(r, level as int, now as int, w as int, h as int),
        round_wf(r, level as int),
{
    proof {
        lemma_div_pos_is_pos(w as int, 2);
        lemma_div_pos_is_pos(h as int, 2);
        lemma_div_is_ordered(w as int, MAX_EXTENT as int, 2);
        lemma_div_is_ordered(h as int, MAX_EXTENT as int, 2);
    }
    let ship = Ship {
        pos: Vec2 { x: div_trunc(w, 2), y: div_trunc(h, 2) },
        rot: 0,
        vel: Vec2 { x: 0, y: 0 },
    };
    let asteroids = spawn_asteroids(level, w, h, palette);
    Round { ship, bullets: Vec::new(), asteroids, last_shot: now, clock: now }
}

/// Pick the level's palette from the fixed table: the baseline for level 1,
/// a random one after.
fn reroll_palette(level: u32) -> (r: (usize, ColorPalette))
    requires
        1 <= level,
    ensures
        r.0 < 10,
        level == 1 ==> r.0 == 0,
        r.1.asteroid_colors@.len() == 6,
{
    let mut ps = sample_palettes();
    let idx = pick_palette_for_level(level, ps.len());
    let palette = ps.remove(idx);
    (idx, palette)
}

/// A new session at the start menu: level 1, the baseline palette, a zero
/// score, the keyboard scheme until an input decides, and a prepared round.
pub fn new_session(now: u64, w: i64, h: i64) -> (g: Game)
    requires
        0 < w <= MAX_EXTENT,
        0 < h <= MAX_EXTENT,
        now <= MAX_TIME,
    ensures
        game_wf(g),
        g.state == GameState::StartMenu,
        g.mode == ControlMode::Keyboard,
        g.level == 1,
        g.score == 0,
        g.palette_index == 0,
        fresh_round_rel(g.round, 1, now as int, w as int, h as int),
{
    let (idx, palette) = reroll_palette(1);
    let round = new_game(1, now, w, h, &palette);
    Game {
        state: GameState::StartMenu,
        mode: ControlMode::Keyboard,
        level: 1,
        palette_index: idx,
        palette,
        score: 0,
        round,
    }
}

/// The bullet a fire command creates: it starts half the ship's height
/// ahead of the ship's center along its heading and flies at the fixed
/// bullet speed along that heading.
pub open spec fn new_bullet_spec(s: Ship, now: int) -> Bullet {
    Bullet {
        pos: Vec2 {
            x: (s.pos.x + div_tz(sin_milli(s.rot as int) * 12_500, 1000)) as i64,
            y: (s.pos.y + div_tz(-cos_milli(s.rot as int) * 12_500, 1000)) as i64,
        },
        vel: Vec2 {
            x: (sin_milli(s.rot as int) * 7) as i64,
            y: (-cos_milli(s.rot as int) * 7) as i64,
        },
        shot_at: now as u64,
        collided: false,
    }
}

/// Create the bullet a fire command shoots this frame.
fn make_bullet(ship: &Ship, now: u64) -> (b: Bullet)
    requires
        ship.rot < 360,
        pos_in_field(ship.pos),
        now <= MAX_TIME,
    ensures
        b == new_bullet_spec(*ship, now as int),
        -BULLET_SPEED <= b.vel.x <= BULLET_SPEED,
        -BULLET_SPEED <= b.vel.y <= BULLET_SPEED,
        -100_000 <= b.pos.x <= MAX_EXTENT + 100_000,
        -100_000 <= b.pos.y <= MAX_EXTENT + 100_000,
        b.shot_at == now,
        !b.collided,
{
    let dir = heading(ship.rot);
    proof {
        assert(-12_500_000 <= dir.x * 12_500 <= 12_500_000 && -12_500_000 <= dir.y * 12_500
            <= 12_500_000) by (nonlinear_arith)
            requires
                -1000 <= dir.x <= 1000,
                -1000 <= dir.y <= 1000,
        ;
        lemma_div_multiples_vanish(12_500, 1000);
        lemma_div_is_ordered(dir.x as int * 12_500, 1000int * 12_500, 1000);
        lemma_div_is_ordered(-(dir.x as int * 12_500), 1000int * 12_500, 1000);
        lemma_div_is_ordered(dir.y as int * 12_500, 1000int * 12_500, 1000);
        lemma_div_is_ordered(-(dir.y as int * 12_500), 1000int * 12_500, 1000);
    }
    let offx = div_trunc(dir.x * 12_500, 1000);
    let offy = div_trunc(dir.y * 12_500, 1000);
    Bullet {
        pos: Vec2 { x: ship.pos.x + offx, y: ship.pos.y + offy },
        vel: Vec2 { x: dir.x * 7, y: dir.y * 7 },
        shot_at: now,
        collided: false,
    }
}

/// The acceleration a frame applies to the ship: thrust along the heading
/// while commanded, else the drag of a hundredth of the velocity.
pub open spec fn frame_accel_spec(s: Ship, c: Commands) -> Vec2 {
    if c.thrust {
        Vec2 {
            x: div_tz(sin_milli(s.rot as int) * c.thrust_mag, 1000) as i64,
            y: div_tz(-cos_milli(s.rot as int) * c.thrust_mag, 1000) as i64,
        }
    } else {
        Vec2 {
            x: (-div_tz(s.vel.x as int, 100)) as i64,
            y: (-div_tz(s.vel.y as int, 100)) as i64,
        }
    }
}

/// How one Playing frame transforms the game: commands are resolved under
/// the active scheme; the ship turns; a fire command past the cooldown adds
/// a bullet; physics moves, clamps and wraps everything; expired bullets
/// leave; then, with the ship-collision check taking priority, either the
/// frame ends in GameOver with nothing scored, or the bullet pass resolves
/// and the frame ends in Win exactly when no asteroid is left, else in
/// Paused on a pause command, else stays in Playing.
pub open spec fn playing_frame_rel(
    g0: Game,
    g1: Game,
    inp: FrameInput,
    now: int,
    w: int,
    h: int,
) -> bool {
    let c = commands_spec(g0.mode, inp, w, h);
    let s1 = Ship {
        rot: ((g0.round.ship.rot + c.rot_delta) % 360) as u32,
        ..g0.round.ship
    };
    let fired = c.fire && now - g0.round.last_shot > FIRE_COOLDOWN;
    let bs1 = if fired {
        g0.round.bullets@.push(new_bullet_spec(s1, now))
    } else {
        g0.round.bullets@
    };
    let s2 = integrated_ship(s1, frame_accel_spec(s1, c), w, h);
    let bs2 = bs1.map_values(|b: Bullet| moved_bullet(b, w, h));
    let as1 = g0.round.asteroids@.map_values(
        |a: Asteroid| stepped_asteroid(a, g0.level as int, w, h),
    );
    let bs3 = bs2.filter(|b: Bullet| bullet_live(b, now));
    let hit = any_ship_hit(s2, as1);
    let r = resolve_all(as1, bs3, g0.level as int);
    &&& g1.level == g0.level
    &&& g1.mode == g0.mode
    &&& g1.palette_index == g0.palette_index
    &&& g1.palette == g0.palette
    &&& g1.round.ship == s2
    &&& g1.round.clock == now
    &&& g1.round.last_shot == if fired {
        now as u64
    } else {
        g0.round.last_shot
    }
    &&& g1.state == (if hit {
        GameState::GameOver
    } else if r.survivors.len() + r.children.len() == 0 {
        GameState::Win
    } else if c.pause {
        GameState::Paused
    } else {
        GameState::Playing
    })
    &&& (hit ==> g1.round.asteroids@ == as1 && g1.round.bullets@ == bs3 && g1.score == g0.score)
    &&& (!hit ==> {
        &&& g1.round.bullets@ == r.bullets
        &&& g1.score as int == sat_add_u64(g0.score as int, r.gained)
        &&& g1.round.asteroids@.len() == r.survivors.len() + r.children.len()
        &&& forall|i: int|
            0 <= i < r.survivors.len() ==> #[trigger] g1.round.asteroids@[i] == r.survivors[i]
        &&& forall|i: int|
            r.survivors.len() <= i < g1.round.asteroids@.len() ==> matches_template(
                #[trigger] g1.round.asteroids@[i],
                r.children[i - r.survivors.len()],
            )
    })
}

/// The session state a frame never touches: scheme, level, palette, score
/// and round all stay.
pub open spec fn unchanged_session(g0: Game, g1: Game) -> bool {
    &&& g1.mode == g0.mode
    &&& g1.level == g0.level
    &&& g1.palette_index == g0.palette_index
    &&& g1.palette == g0.palette
    &&& g1.score == g0.score
    &&& g1.round == g0.round
}

/// The start menu: the first confirm key selects the keyboard scheme, the
/// first touch the touch scheme; either shows the info screen. Anything
/// else changes nothing.
pub open spec fn start_menu_rel(g0: Game, g1: Game, inp: FrameInput) -> bool {
    &&& g1.level == g0.level
    &&& g1.palette_index == g0.palette_index
    &&& g1.palette == g0.palette
    &&& g1.score == g0.score
    &&& g1.round == g0.round
    &&& if inp.touches@.len() > 0 {
        g1.mode == ControlMode::Touch && g1.state == GameState::InfoScreen
    } else if inp.confirm_pressed {
        g1.mode == ControlMode::Keyboard && g1.state == GameState::InfoScreen
    } else {
        g1.mode == g0.mode && g1.state == g0.state
    }
}

/// The info screen: a confirm matching the selected scheme re-picks the
/// level's palette, creates a fresh round with a zero score and starts
/// playing; anything else changes nothing.
pub open spec fn info_screen_rel(g0: Game, g1: Game, inp: FrameInput, now: int, w: int, h: int) -> bool {
    &&& g1.level == g0.level
    &&& g1.mode == g0.mode
    &&& if confirm_for(g0.mode, inp) {
        &&& g1.state == GameState::Playing
        &&& g1.score == 0
        &&& fresh_round_rel(g1.round, g0.level as int, now, w, h)
        &&& (g0.level == 1 ==> g1.palette_index == 0)
        &&& g1.palette_index < 10
    } else {
        &&& g1.state == g0.state
        &&& g1.score == g0.score
        &&& g1.round == g0.round
        &&& g1.palette_index == g0.palette_index
        &&& g1.palette == g0.palette
    }
}

/// Paused: frame processing is suspended; a confirm under the active
/// scheme resumes play, nothing else changes.
pub open spec fn paused_rel(g0: Game, g1: Game, inp: FrameInput) -> bool {
    &&& g1.mode == g0.mode
    &&& g1.level == g0.level
    &&& g1.palette_index == g0.palette_index
    &&& g1.palette == g0.palette
    &&& g1.score == g0.score
    &&& g1.round == g0.round
    &&& g1.state == (if confirm_for(g0.mode, inp) {
        GameState::Playing
    } else {
        GameState::Paused
    })
}

/// Game over: a confirm key or any touch resets the session — level back
/// to 1, score to 0, the baseline palette, a fresh round — and returns to
/// the start menu; anything else changes nothing.
pub open spec fn game_over_rel(g0: Game, g1: Game, inp: FrameInput, now: int, w: int, h: int) -> bool {
    &&& g1.mode == g0.mode
    &&& if inp.confirm_pressed || inp.touches@.len() > 0 {
        &&& g1.state == GameState::StartMenu
        &&& g1.level == 1
        &&& g1.score == 0
        &&& g1.palette_index == 0
        &&& fresh_round_rel(g1.round, 1, now, w, h)
    } else {
        &&& g1.state == g0.state
        &&& g1.level == g0.level
        &&& g1.score == g0.score
        &&& g1.palette_index == g0.palette_index
        &&& g1.palette == g0.palette
        &&& g1.round == g0.round
    }
}

/// Win: a confirm key or a began touch moves to the next level — the score
/// carries over, the palette is re-picked, a fresh round at the new level's
/// parameters begins; anything else changes nothing. The level saturates
/// at the engine's largest level, a machine limit.
pub open spec fn win_rel(g0: Game, g1: Game, inp: FrameInput, now: int, w: int, h: int) -> bool {
    &&& g1.mode == g0.mode
    &&& g1.score == g0.score
    &&& if inp.confirm_pressed || inp.touch_started {
        &&& g1.level == (if g0.level < MAX_LEVEL {
            (g0.level + 1) as u32
        } else {
            g0.level
        })
        &&& g1.state == GameState::Playing
        &&& fresh_round_rel(g1.round, g1.level as int, now, w, h)
        &&& g1.palette_index < 10
    } else {
        &&& g1.state == g0.state
        &&& g1.level == g0.level
        &&& g1.palette_index == g0.palette_index
        &&& g1.palette == g0.palette
        &&& g1.round == g0.round
    }
}

/// One frame while Playing.
fn frame_playing(game: &mut Game, inp: &FrameInput, now: u64, w: i64, h: i64)
    requires
        game_wf(*old(game)),
        old(game).state == GameState::Playing,
        input_wf(*inp),
        old(game).round.clock <= now <= MAX_TIME,
        0 < w <= MAX_EXTENT,
        0 < h <= MAX_EXTENT,
    ensures
        game_wf(*final(game)),
        playing_frame_rel(*old(game), *final(game), *inp, now as int, w as int, h as int),
        final(game).score >= old(game).score,
{
    let c = resolve_input(game.mode, inp, w, h);
    let mut ship = game.round.ship;
    ship.rot = apply_rotation(ship.rot, c.rot_delta);
    if c.fire && now - game.round.last_shot > FIRE_COOLDOWN {
        let b = make_bullet(&ship, now);
        game.round.bullets.push(b);
        game.round.last_shot = now;
    }
    proof {
        crate::entities::lemma_norm2_component_bound(ship.vel, SHIP_MAX_SPEED as int);
    }
    let acc = if c.thrust {
        thrust_accel(ship.rot, c.thrust_mag)
    } else {
        drag_accel(ship.vel)
    };
    integrate_ship(&mut ship, acc, w, h);
    game.round.ship = ship;
    step_bullets(&mut game.round.bullets, w, h);
    step_asteroids(&mut game.round.asteroids, game.level, w, h);
    expire_bullets(&mut game.round.bullets, now);
    game.round.clock = now;
    if ship_collided(&game.round.ship, &game.round.asteroids, game.level) {
        game.state = GameState::GameOver;
    } else {
        resolve_bullets(
            &mut game.round.asteroids,
            &mut game.round.bullets,
            &mut game.score,
            game.level,
            &game.palette,
        );
        if game.round.asteroids.len() == 0 {
            game.state = GameState::Win;
        } else if c.pause {
            game.state = GameState::Paused;
        }
    }
}

/// Advance the whole game by one frame: dispatch on the active state. The
/// score can only drop on the game-over restart, where it resets to zero;
/// within a round it never decreases.
pub fn frame(game: &mut Game, inp: &FrameInput, now: u64, w: i64, h: i64)
    requires
        game_wf(*old(game)),
        input_wf(*inp),
        old(game).round.clock <= now <= MAX_TIME,
        0 < w <= MAX_EXTENT,
        0 < h <= MAX_EXTENT,
    ensures
        game_wf(*final(game)),
        old(game).state == GameState::StartMenu ==> start_menu_rel(*old(game), *final(game), *inp),
        old(game).state == GameState::InfoScreen ==> info_screen_rel(
            *old(game),
            *final(game),
            *inp,
            now as int,
            w as int,
            h as int,
        ),
        old(game).state == GameState::Playing ==> playing_frame_rel(
            *old(game),
            *final(game),
            *inp,
            now as int,
            w as int,
            h as int,
        ),
        old(game).state == GameState::Paused ==> paused_rel(*old(game), *final(game), *inp),
        old(game).state == GameState::GameOver ==> game_over_rel(
            *old(game),
            *final(game),
            *inp,
            now as int,
            w as int,
            h as int,
        ),
        old(game).state == GameState::Win ==> win_rel(
            *old(game),
            *final(game),
            *inp,
            now as int,
            w as int,
            h as int,
        ),
        old(game).state == GameState::Quit ==> unchanged_session(*old(game), *final(game))
            && final(game).state == GameState::Quit,
        final(game).score < old(game).score ==> old(game).state == GameState::GameOver
            && final(game).state == GameState::StartMenu && final(game).score == 0,
{
    match game.state {
        GameState::StartMenu => {
            if inp.confirm_pressed {
                game.mode = ControlMode::Keyboard;
                game.state = GameState::InfoScreen;
            }
            if inp.touches.len() > 0 {
                game.mode = ControlMode::Touch;
                game.state = GameState::InfoScreen;
            }
        },
        GameState::InfoScreen => {
            let confirmed = match game.mode {
                ControlMode::Keyboard => inp.confirm_pressed,
                ControlMode::Touch => inp.touch_started,
            };
            if confirmed {
                let (idx, palette) = reroll_palette(game.level);
                let round = new_game(game.level, now, w, h, &palette);
                game.palette_index = idx;
                game.palette = palette;
                game.round = round;
                game.score = 0;
                game.state = GameState::Playing;
            }
        },
        GameState::Playing => {
            frame_playing(game, inp, now, w, h);
        },
        GameState::Paused => {
            let confirmed = match game.mode {
                ControlMode::Keyboard => inp.confirm_pressed,
                ControlMode::Touch => inp.touch_started,
            };
            if confirmed {
                game.state = GameState::Playing;
            }
        },
        GameState::GameOver => {
            if inp.confirm_pressed || inp.touches.len() > 0 {
                let (idx, palette) = reroll_palette(1);
                let round = new_game(1, now, w, h, &palette);
                game.level = 1;
                game.score = 0;
                game.palette_index = idx;
                game.palette = palette;
                game.round = round;
                game.state = GameState::StartMenu;
            }
        },
        GameState::Win => {
            if inp.confirm_pressed || inp.touch_started {
                let next = if game.level < MAX_LEVEL {
                    game.level + 1
                } else {
                    game.level
                };
                let (idx, palette) = reroll_palette(next);
                let round = new_game(next, now, w, h, &palette);
                game.level = next;
                game.palette_index = idx;
                game.palette = palette;
                game.round = round;
                game.state = GameState::Playing;
            }
        },
        GameState::Quit => {
        },
    }
}

} // verus!
