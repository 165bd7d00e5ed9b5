//! The decisions of the input task: from the buttons, the joystick and the clock
//! to the next state of the device.
//!
//! The task itself (reading the pins and the joystick, sleeping 50 ms between
//! rounds, publishing states, rebooting) runs outside this library; each round
//! it hands an `Event` to `InputController::tick` and carries out the
//! `InputAction` that comes back.

use vstd::prelude::*;
use vstd::arithmetic::div_mod::{lemma_mod_multiples_vanish, lemma_small_mod};
use crate::clock::{millis_between, millis_since, secs_between, secs_since};
use crate::flappy::game::{lemma_wf_kept as flappy_wf_kept, lemma_wf_step_defined as lemma_flappy_step_defined, FlappyGame, FlappyModel};
use crate::snake::game::{dir_after_input, lemma_initial_wf, lemma_stepped_wf, lemma_wf_step_defined as lemma_snake_step_defined, SnakeGame};
use crate::state::{lemma_same_state_is_equality, AppState, MAX_ARTS, MAX_GAMES, MAX_SONGS};

verus! {

/// A joystick reading at or under this moves a carousel back.
pub const JOY_LOW: u16 = 1000;

/// A joystick reading at or over this moves a carousel forward.
pub const JOY_HIGH: u16 = 3000;

/// Milliseconds between two joystick moves in the menus.
pub const JOY_COOLDOWN_MS: u64 = 300;

/// Milliseconds within which a press of A counts towards the same series.
pub const CLICK_WINDOW_MS: u64 = 500;

/// Milliseconds that the heart animation runs before the menu comes back.
pub const EASTER_EGG_MS: u64 = 1500;

/// Seconds that A alone, or all three buttons, must be held.
pub const HOLD_SECS: u64 = 2;

/// One round of readings: the three buttons (true when down), the clock in
/// ticks, and the two joystick axes.
#[derive(Clone, Copy, Debug)]
pub struct Event {
    pub a: bool,
    pub b: bool,
    pub joy: bool,
    pub now: u64,
    pub joy_x: u16,
    pub joy_y: u16,
}

/// What the input task does after a round: nothing, publish a new state, or
/// reboot into the USB boot loader.
#[derive(Clone, Copy, Debug)]
pub enum InputAction {
    Idle,
    Publish(AppState),
    RebootToUsb,
}

/// Everything the input task remembers between rounds.
///
/// Started by `new` on a state whose menu positions are in range, fed only such
/// states by `observe`, and advanced by `tick`, the controller holds and
/// publishes only states whose menu positions are in range (see the `ensures`
/// of `new` and `tick`, and `lemma_tick_keeps_ids_in_range`).
#[derive(Clone, Copy, Debug)]
pub struct InputController {
    pub current: AppState,
    pub a_was_pressed: bool,
    pub b_was_pressed: bool,
    pub last_joy_move: u64,
    pub last_game_move: u64,
    pub a_hold_start: Option<u64>,
    pub a_click_count: i32,
    pub last_a_click: u64,
    pub easter_egg_start: Option<u64>,
    pub reset_hold_start: Option<u64>,
    pub last_tick: u64,
}

/// A carousel position moved by a joystick reading: back (wrapping) at or under
/// `JOY_LOW`, forward (wrapping) at or over `JOY_HIGH`; the flag says whether it moved.
pub open spec fn carousel(current: u8, max: u8, joy: u16) -> (u8, bool) {
    if joy <= JOY_LOW {
        (((current + max - 1) % (max as int)) as u8, true)
    } else if joy >= JOY_HIGH {
        (((current + 1) % (max as int)) as u8, true)
    } else {
        (current, false)
    }
}

/// Whether moving a carousel overflows a byte.
pub open spec fn carousel_overflows(current: u8, max: u8, joy: u16) -> bool {
    ||| (joy <= JOY_LOW && current + max > u8::MAX)
    ||| (joy >= JOY_HIGH && current == u8::MAX)
}

/// Whether moving a carousel overflows a byte (see `carousel_overflows`).
fn moves_past_byte(current: u8, max: u8, joy: u16) -> (r: bool)
    ensures
        r == carousel_overflows(current, max, joy),
{
    (joy <= JOY_LOW && current as u16 + max as u16 > 255) || (joy >= JOY_HIGH && current == 255)
}

/// Moves a carousel position (see `carousel`).
pub fn update_carousel(current_id: u8, max_id: u8, joy_val: u16) -> (r: (u8, bool))
    requires
        max_id > 0,
        !carousel_overflows(current_id, max_id, joy_val),
    ensures
        r == carousel(current_id, max_id, joy_val),
{
    if joy_val <= JOY_LOW {
        ((current_id + max_id - 1) % max_id, true)
    } else if joy_val >= JOY_HIGH {
        ((current_id + 1) % max_id, true)
    } else {
        (current_id, false)
    }
}

/// Where holding A for two seconds leads: from the music menus to the games menu
/// (first game, music on), from the games menu back to the music menu, from a
/// game to the games menu on that game with its music setting.
pub open spec fn long_press_target(s: AppState) -> AppState {
    match s {
        AppState::Menu { .. } => AppState::GamesMenu { game_id: 0, with_music: true },
        AppState::Playing { .. } => AppState::GamesMenu { game_id: 0, with_music: true },
        AppState::GamesMenu { .. } => AppState::Menu { song_id: 0, art_id: 0 },
        AppState::Snake(_, m) => AppState::GamesMenu { game_id: 0, with_music: m },
        AppState::FlappyBird(_, m) => AppState::GamesMenu { game_id: 1, with_music: m },
        AppState::EasterEgg => s,
    }
}

/// Whether a state shows the heart picture (picture 0 in the music menus).
pub open spec fn shows_heart(s: AppState) -> bool {
    match s {
        AppState::Menu { art_id, .. } => art_id == 0,
        AppState::Playing { art_id, .. } => art_id == 0,
        _ => false,
    }
}

/// The snake game after one round: steered by the joystick, then stepped when
/// it moves and is idle or its delay has passed.
pub open spec fn snake_round(g: SnakeGame, ev: Event, elapsed: u32) -> (SnakeGame, bool) {
    let was_idle = g.dir == 4;
    let g1 = SnakeGame { dir: dir_after_input(g.dir, ev.joy_x, ev.joy_y), ..g };
    if g1.dir != 4 && (was_idle || elapsed > g1.speed_ms) {
        (g1.stepped(ev.now), true)
    } else {
        (g1, false)
    }
}

/// The flappy-bird game after one round: fed the fresh button presses, then
/// stepped when its delay has passed.
pub open spec fn flappy_round(g: FlappyModel, ev: Event, a_just: bool, b_just: bool, elapsed: u32) -> (FlappyModel, bool) {
    let g1 = g.with_input(a_just, b_just, ev.joy);
    if elapsed > g1.speed_ms {
        (g1.stepped(), true)
    } else {
        (g1, false)
    }
}

impl InputController {
    /// The controller at start-up: nothing pressed, every timer started at `now`.
    pub open spec fn initial(state: AppState, now: u64) -> InputController {
        InputController {
            current: state,
            a_was_pressed: false,
            b_was_pressed: false,
            last_joy_move: now,
            last_game_move: now,
            a_hold_start: None,
            a_click_count: 0,
            last_a_click: now,
            easter_egg_start: None,
            reset_hold_start: None,
            last_tick: now,
        }
    }

    /// Every remembered time is at or before the last round.
    pub open spec fn clock_ok(self) -> bool {
        &&& self.last_joy_move <= self.last_tick
        &&& self.last_game_move <= self.last_tick
        &&& self.last_a_click <= self.last_tick
        &&& (self.a_hold_start matches Some(t) ==> t <= self.last_tick)
        &&& (self.easter_egg_start matches Some(t) ==> t <= self.last_tick)
        &&& (self.reset_hold_start matches Some(t) ==> t <= self.last_tick)
    }

    /// Whether the three buttons have been held long enough to reboot.
    pub open spec fn reboots(self, ev: Event) -> bool {
        ev.a && ev.b && ev.joy && secs_since(ev.now, hold_from(self.reset_hold_start, ev.now)) >= HOLD_SECS
    }

    /// Whether A alone is down.
    pub open spec fn only_a(ev: Event) -> bool {
        ev.a && !ev.b && !ev.joy
    }

    /// Whether A alone has been held long enough for the long press.
    pub open spec fn long_press(self, ev: Event) -> bool {
        Self::only_a(ev) && secs_since(ev.now, hold_from(self.a_hold_start, ev.now)) >= HOLD_SECS
    }

    /// Whether A went down in this round.
    pub open spec fn a_just(self, ev: Event) -> bool {
        ev.a && !self.a_was_pressed
    }

    /// Whether B went down in this round.
    pub open spec fn b_just(self, ev: Event) -> bool {
        ev.b && !self.b_was_pressed
    }

    /// The count of quick presses of A after this round: a press within the
    /// window adds one, a later press starts a new series at one, and A up past
    /// the window clears it.
    pub open spec fn clicks_after(self, ev: Event) -> int {
        let since = millis_since(ev.now, self.last_a_click);
        if self.a_just(ev) {
            if since < CLICK_WINDOW_MS { self.a_click_count + 1 } else { 1 }
        } else if !ev.a && since > CLICK_WINDOW_MS {
            0
        } else {
            self.a_click_count as int
        }
    }

    /// Whether this round starts the heart animation: three quick presses of A
    /// while the heart picture shows.
    pub open spec fn starts_heart(self, ev: Event) -> bool {
        shows_heart(self.current) && self.clicks_after(ev) == 3
    }

    /// Whether the joystick may move a menu in this round.
    pub open spec fn cooldown_ok(self, ev: Event) -> bool {
        millis_since(ev.now, self.last_joy_move) > JOY_COOLDOWN_MS
    }

    /// Milliseconds since the last game step, cut to 32 bits.
    pub open spec fn game_elapsed(self, ev: Event) -> u32 {
        millis_since(ev.now, self.last_game_move) as u32
    }

    /// The next state in the normal course of a round, with the new times of
    /// the last joystick move and of the last game step.
    pub open spec fn transition(self, ev: Event) -> (AppState, u64, u64) {
        let a_just = self.a_just(ev);
        let b_just = self.b_just(ev);
        let cool = self.cooldown_ok(ev);
        let now = ev.now;
        match self.current {
            AppState::Menu { song_id, art_id } => {
                let (s, sm) = if cool { carousel(song_id, MAX_SONGS, ev.joy_x) } else { (song_id, false) };
                let (a, am) = if cool { carousel(art_id, MAX_ARTS, ev.joy_y) } else { (art_id, false) };
                let joy = if sm || am { now } else { self.last_joy_move };
                if b_just {
                    (AppState::Playing { song_id: s, art_id: a, paused: false }, joy, self.last_game_move)
                } else {
                    (AppState::Menu { song_id: s, art_id: a }, joy, self.last_game_move)
                }
            },
            AppState::Playing { song_id, art_id, paused } => {
                let (a, am) = if cool { carousel(art_id, MAX_ARTS, ev.joy_y) } else { (art_id, false) };
                let joy = if am { now } else { self.last_joy_move };
                if b_just {
                    (AppState::Playing { song_id, art_id: a, paused: !paused }, joy, self.last_game_move)
                } else if a_just {
                    (AppState::Menu { song_id, art_id: a }, joy, self.last_game_move)
                } else {
                    (AppState::Playing { song_id, art_id: a, paused }, joy, self.last_game_move)
                }
            },
            AppState::GamesMenu { game_id, with_music } => {
                let (g, gm) = if cool { carousel(game_id, MAX_GAMES, ev.joy_x) } else { (game_id, false) };
                let joy = if gm { now } else { self.last_joy_move };
                let next = if b_just {
                    if g == 0 {
                        AppState::Snake(SnakeGame::initial(now), with_music)
                    } else if g == 1 {
                        AppState::FlappyBird(FlappyGame::from_model(FlappyModel::initial(now)), with_music)
                    } else {
                        AppState::GamesMenu { game_id: g, with_music }
                    }
                } else if a_just {
                    AppState::GamesMenu { game_id: g, with_music: !with_music }
                } else {
                    AppState::GamesMenu { game_id: g, with_music }
                };
                (next, joy, self.last_game_move)
            },
            AppState::Snake(game, m) => {
                if game.game_over {
                    if a_just {
                        (AppState::GamesMenu { game_id: 0, with_music: m }, self.last_joy_move, self.last_game_move)
                    } else if b_just {
                        (AppState::Snake(SnakeGame::initial(now), m), self.last_joy_move, self.last_game_move)
                    } else {
                        (self.current, self.last_joy_move, self.last_game_move)
                    }
                } else {
                    let (g, stepped) = snake_round(game, ev, self.game_elapsed(ev));
                    (AppState::Snake(g, m), self.last_joy_move, if stepped { now } else { self.last_game_move })
                }
            },
            AppState::FlappyBird(game, m) => {
                if game@.game_over {
                    if a_just {
                        (AppState::GamesMenu { game_id: 1, with_music: m }, self.last_joy_move, self.last_game_move)
                    } else if b_just {
                        (AppState::FlappyBird(FlappyGame::from_model(FlappyModel::initial(now)), m), self.last_joy_move, self.last_game_move)
                    } else {
                        (self.current, self.last_joy_move, self.last_game_move)
                    }
                } else {
                    let (g, stepped) = flappy_round(game@, ev, a_just, b_just, self.game_elapsed(ev));
                    (AppState::FlappyBird(FlappyGame::from_model(g), m), self.last_joy_move, if stepped { now } else { self.last_game_move })
                }
            },
            AppState::EasterEgg => (self.current, self.last_joy_move, self.last_game_move),
        }
    }

    /// Whether the normal course of a round overflows: a carousel moving past a
    /// byte, or a game step overflowing.
    pub open spec fn transition_overflows(self, ev: Event) -> bool {
        let cool = self.cooldown_ok(ev);
        match self.current {
            AppState::Menu { song_id, art_id } => cool && (carousel_overflows(song_id, MAX_SONGS, ev.joy_x)
                || carousel_overflows(art_id, MAX_ARTS, ev.joy_y)),
            AppState::Playing { art_id, .. } => cool && carousel_overflows(art_id, MAX_ARTS, ev.joy_y),
            AppState::GamesMenu { game_id, .. } => cool && carousel_overflows(game_id, MAX_GAMES, ev.joy_x),
            AppState::Snake(game, _) => {
                let g1 = SnakeGame { dir: dir_after_input(game.dir, ev.joy_x, ev.joy_y), ..game };
                !game.game_over && g1.dir != 4 && (game.dir == 4 || self.game_elapsed(ev) > g1.speed_ms)
                    && g1.step_overflows()
            },
            AppState::FlappyBird(game, _) => {
                let g1 = game@.with_input(self.a_just(ev), self.b_just(ev), ev.joy);
                !game@.game_over && self.game_elapsed(ev) > g1.speed_ms && g1.step_overflows()
            },
            AppState::EasterEgg => false,
        }
    }

    /// Whether a round overflows: the count of quick presses passing the
    /// largest `i32`, or the normal course of the round overflowing.
    pub open spec fn tick_overflows(self, ev: Event) -> bool {
        &&& self.easter_egg_start is None
        &&& !self.reboots(ev)
        &&& {
            ||| (self.a_just(ev) && millis_since(ev.now, self.last_a_click) < CLICK_WINDOW_MS
                && self.a_click_count == i32::MAX)
            ||| (!self.starts_heart(ev) && !self.long_press(ev) && self.transition_overflows(ev))
        }
    }

    /// The controller and the action after one round.
    ///
    /// While the heart animation runs nothing but the clock counts; 1.5 s after
    /// it started the menu comes back with the first song and picture. Otherwise
    /// three buttons held 2 s reboot; A alone held 2 s jumps per
    /// `long_press_target`; three quick presses of A on the heart picture start
    /// the animation; else the state follows `transition`. A state that differs
    /// from the current one is published.
    pub open spec fn after_tick(self, ev: Event) -> (InputController, InputAction) {
        let now = ev.now;
        let c0 = InputController { last_tick: now, ..self };
        let menu = AppState::Menu { song_id: 0, art_id: 0 };
        match self.easter_egg_start {
            Some(start) => if millis_since(now, start) > EASTER_EGG_MS {
                (InputController { easter_egg_start: None, current: menu, ..c0 }, InputAction::Publish(menu))
            } else {
                (c0, InputAction::Idle)
            },
            None => {
                let all = ev.a && ev.b && ev.joy;
                let rstart = hold_from(self.reset_hold_start, now);
                let c1 = InputController { reset_hold_start: if all { Some(rstart) } else { None }, ..c0 };
                if self.reboots(ev) {
                    (c1, InputAction::RebootToUsb)
                } else {
                    let long = self.long_press(ev);
                    let astart = hold_from(self.a_hold_start, now);
                    let a_just = self.a_just(ev);
                    let c2 = InputController {
                        a_hold_start: if Self::only_a(ev) && !long { Some(astart) } else { None },
                        a_was_pressed: ev.a,
                        b_was_pressed: ev.b,
                        a_click_count: self.clicks_after(ev) as i32,
                        last_a_click: if a_just { now } else { self.last_a_click },
                        ..c1
                    };
                    if self.starts_heart(ev) {
                        (
                            InputController {
                                a_click_count: 0,
                                easter_egg_start: Some(now),
                                current: AppState::EasterEgg,
                                ..c2
                            },
                            InputAction::Publish(AppState::EasterEgg),
                        )
                    } else {
                        let (next, joy, game) = if long {
                            (long_press_target(self.current), self.last_joy_move, self.last_game_move)
                        } else {
                            self.transition(ev)
                        };
                        let c3 = InputController { last_joy_move: joy, last_game_move: game, ..c2 };
                        if next != self.current {
                            (InputController { current: next, ..c3 }, InputAction::Publish(next))
                        } else {
                            (c3, InputAction::Idle)
                        }
                    }
                }
            },
        }
    }
}

/// Whether a state shows the heart picture (see `shows_heart`).
fn is_heart(s: &AppState) -> (r: bool)
    ensures
        r == shows_heart(*s),
{
    match s {
        AppState::Menu { art_id, .. } => *art_id == 0,
        AppState::Playing { art_id, .. } => *art_id == 0,
        _ => false,
    }
}

/// Where holding A for two seconds leads (see `long_press_target`).
fn long_press_state(s: &AppState) -> (r: AppState)
    ensures
        r == long_press_target(*s),
{
    match s {
        AppState::Menu { .. } | AppState::Playing { .. } => AppState::GamesMenu { game_id: 0, with_music: true },
        AppState::GamesMenu { .. } => AppState::Menu { song_id: 0, art_id: 0 },
        AppState::Snake(_, m) => AppState::GamesMenu { game_id: 0, with_music: *m },
        AppState::FlappyBird(_, m) => AppState::GamesMenu { game_id: 1, with_music: *m },
        AppState::EasterEgg => AppState::EasterEgg,
    }
}

/// A new flappy-bird game, as a game value.
fn fresh_flappy(now: u64) -> (g: FlappyGame)
    ensures
        g == FlappyGame::from_model(FlappyModel::initial(now)),
{
    let g = FlappyGame::new(now);
    proof {
        FlappyGame::lemma_model_roundtrip(g, g@);
    }
    g
}

impl InputController {
    /// The controller at start-up (see `initial`).
    pub fn new(state: AppState, now: u64) -> (c: Self)
        ensures
            c == Self::initial(state, now),
            c.clock_ok(),
            state.ids_in_range() ==> c.current.ids_in_range(),
            state.wf() ==> c.current.wf(),
    {
        InputController {
            current: state,
            a_was_pressed: false,
            b_was_pressed: false,
            last_joy_move: now,
            last_game_move: now,
            a_hold_start: None,
            a_click_count: 0,
            last_a_click: now,
            easter_egg_start: None,
            reset_hold_start: None,
            last_tick: now,
        }
    }

    /// Takes a state that another task published as the current one.
    pub fn observe(&mut self, state: AppState)
        ensures
            *final(self) == (InputController { current: state, ..*old(self) }),
    {
        self.current = state;
    }

    /// The normal course of a round (see `transition`).
    fn round_transition(&self, ev: &Event) -> (r: (AppState, u64, u64))
        requires
            self.clock_ok(),
            self.last_tick <= ev.now,
            !self.transition_overflows(*ev),
        ensures
            r == self.transition(*ev),
    {
        let now = ev.now;
        let a_just = ev.a && !self.a_was_pressed;
        let b_just = ev.b && !self.b_was_pressed;
        let cool = millis_between(now, self.last_joy_move) > JOY_COOLDOWN_MS;
        match self.current {
            AppState::Menu { song_id, art_id } => {
                let (s, sm) = if cool { update_carousel(song_id, MAX_SONGS, ev.joy_x) } else { (song_id, false) };
                let (a, am) = if cool { update_carousel(art_id, MAX_ARTS, ev.joy_y) } else { (art_id, false) };
                let joy = if sm || am { now } else { self.last_joy_move };
                if b_just {
                    (AppState::Playing { song_id: s, art_id: a, paused: false }, joy, self.last_game_move)
                } else {
                    (AppState::Menu { song_id: s, art_id: a }, joy, self.last_game_move)
                }
            },
            AppState::Playing { song_id, art_id, paused } => {
                let (a, am) = if cool { update_carousel(art_id, MAX_ARTS, ev.joy_y) } else { (art_id, false) };
                let joy = if am { now } else { self.last_joy_move };
                if b_just {
                    (AppState::Playing { song_id, art_id: a, paused: !paused }, joy, self.last_game_move)
                } else if a_just {
                    (AppState::Menu { song_id, art_id: a }, joy, self.last_game_move)
                } else {
                    (AppState::Playing { song_id, art_id: a, paused }, joy, self.last_game_move)
                }
            },
            AppState::GamesMenu { game_id, with_music } => {
                let (g, gm) = if cool { update_carousel(game_id, MAX_GAMES, ev.joy_x) } else { (game_id, false) };
                let joy = if gm { now } else { self.last_joy_move };
                let next = if b_just {
                    if g == 0 {
                        AppState::Snake(SnakeGame::new(now), with_music)
                    } else if g == 1 {
                        AppState::FlappyBird(fresh_flappy(now), with_music)
                    } else {
                        AppState::GamesMenu { game_id: g, with_music }
                    }
                } else if a_just {
                    AppState::GamesMenu { game_id: g, with_music: !with_music }
                } else {
                    AppState::GamesMenu { game_id: g, with_music }
                };
                (next, joy, self.last_game_move)
            },
            AppState::Snake(game, m) => {
                if game.game_over {
                    if a_just {
                        (AppState::GamesMenu { game_id: 0, with_music: m }, self.last_joy_move, self.last_game_move)
                    } else if b_just {
                        (AppState::Snake(SnakeGame::new(now), m), self.last_joy_move, self.last_game_move)
                    } else {
                        (self.current, self.last_joy_move, self.last_game_move)
                    }
                } else {
                    let mut game = game;
                    let was_idle = game.dir == 4;
                    let elapsed = millis_between(now, self.last_game_move) as u32;
                    game.handle_input(ev.joy_x, ev.joy_y);
                    if game.dir != 4 && (was_idle || elapsed > game.speed_ms) {
                        game.step(now);
                        (AppState::Snake(game, m), self.last_joy_move, now)
                    } else {
                        (AppState::Snake(game, m), self.last_joy_move, self.last_game_move)
                    }
                }
            },
            AppState::FlappyBird(game, m) => {
                if game.model().game_over {
                    if a_just {
                        (AppState::GamesMenu { game_id: 1, with_music: m }, self.last_joy_move, self.last_game_move)
                    } else if b_just {
                        (AppState::FlappyBird(fresh_flappy(now), m), self.last_joy_move, self.last_game_move)
                    } else {
                        (self.current, self.last_joy_move, self.last_game_move)
                    }
                } else {
                    let mut game = game;
                    game.input(a_just, b_just, ev.joy);
                    let elapsed = millis_between(now, self.last_game_move) as u32;
                    if elapsed > game.model().speed_ms {
                        game.step(now);
                        proof {
                            FlappyGame::lemma_model_roundtrip(game, game@);
                        }
                        (AppState::FlappyBird(game, m), self.last_joy_move, now)
                    } else {
                        proof {
                            FlappyGame::lemma_model_roundtrip(game, game@);
                        }
                        (AppState::FlappyBird(game, m), self.last_joy_move, self.last_game_move)
                    }
                }
            },
            AppState::EasterEgg => (self.current, self.last_joy_move, self.last_game_move),
        }
    }

    /// Whether every remembered time is at or before the last round (see `clock_ok`).
    pub fn clock_consistent(&self) -> (r: bool)
        ensures
            r == self.clock_ok(),
    {
        let t = self.last_tick;
        self.last_joy_move <= t && self.last_game_move <= t && self.last_a_click <= t && match self.a_hold_start {
            Some(s) => s <= t,
            None => true,
        } && match self.easter_egg_start {
            Some(s) => s <= t,
            None => true,
        } && match self.reset_hold_start {
            Some(s) => s <= t,
            None => true,
        }
    }

    /// Whether `tick` may run on an event: the clock has not gone back and the
    /// round does not overflow (see `tick_overflows`).
    pub fn can_tick(&self, ev: &Event) -> (r: bool)
        ensures
            r == (self.clock_ok() && self.last_tick <= ev.now && !self.tick_overflows(*ev)),
    {
        if !self.clock_consistent() || ev.now < self.last_tick {
            return false;
        }
        if self.easter_egg_start.is_some() {
            return true;
        }
        let now = ev.now;
        if ev.a && ev.b && ev.joy {
            let start = match self.reset_hold_start {
                Some(t) => t,
                None => now,
            };
            if secs_between(now, start) >= HOLD_SECS {
                return true;
            }
        }
        let a_just = ev.a && !self.a_was_pressed;
        let b_just = ev.b && !self.b_was_pressed;
        let since_click = millis_between(now, self.last_a_click);
        if a_just && since_click < CLICK_WINDOW_MS && self.a_click_count == i32::MAX {
            return false;
        }
        let clicks: i32 = if a_just {
            if since_click < CLICK_WINDOW_MS { self.a_click_count + 1 } else { 1 }
        } else if !ev.a && since_click > CLICK_WINDOW_MS {
            0
        } else {
            self.a_click_count
        };
        if is_heart(&self.current) && clicks == 3 {
            return true;
        }
        if ev.a && !ev.b && !ev.joy {
            let start = match self.a_hold_start {
                Some(t) => t,
                None => now,
            };
            if secs_between(now, start) >= HOLD_SECS {
                return true;
            }
        }
        let cool = millis_between(now, self.last_joy_move) > JOY_COOLDOWN_MS;
        let elapsed = millis_between(now, self.last_game_move) as u32;
        let overflows = match self.current {
            AppState::Menu { song_id, art_id } => cool && (moves_past_byte(song_id, MAX_SONGS, ev.joy_x)
                || moves_past_byte(art_id, MAX_ARTS, ev.joy_y)),
            AppState::Playing { art_id, .. } => cool && moves_past_byte(art_id, MAX_ARTS, ev.joy_y),
            AppState::GamesMenu { game_id, .. } => cool && moves_past_byte(game_id, MAX_GAMES, ev.joy_x),
            AppState::Snake(game, _) => {
                let mut g1 = game;
                g1.handle_input(ev.joy_x, ev.joy_y);
                !game.game_over && g1.dir != 4 && (game.dir == 4 || elapsed > g1.speed_ms)
                    && g1.would_step_overflow()
            },
            AppState::FlappyBird(game, _) => {
                let mut g1 = game;
                g1.input(a_just, b_just, ev.joy);
                !game.model().game_over && elapsed > g1.model().speed_ms && g1.would_step_overflow()
            },
            AppState::EasterEgg => false,
        };
        !overflows
    }

    /// One round of the input task (see `after_tick`).
    pub fn tick(&mut self, ev: &Event) -> (action: InputAction)
        requires
            old(self).clock_ok(),
            old(self).last_tick <= ev.now,
            !old(self).tick_overflows(*ev),
        ensures
            (*final(self), action) == old(self).after_tick(*ev),
            final(self).clock_ok(),
            action matches InputAction::Publish(s) ==> s == final(self).current,
            old(self).current.ids_in_range() ==> final(self).current.ids_in_range(),
            old(self).current.wf() ==> final(self).current.wf(),
    {
        proof {
            lemma_tick_publishes_changes(*old(self), *ev);
            if old(self).current.ids_in_range() {
                lemma_tick_keeps_ids_in_range(*old(self), *ev);
            }
            if old(self).current.wf() {
                lemma_tick_keeps_wf(*old(self), *ev);
            }
        }
        let before = *self;
        let now = ev.now;
        self.last_tick = now;
        if let Some(start) = self.easter_egg_start {
            if millis_between(now, start) > EASTER_EGG_MS {
                self.easter_egg_start = None;
                let next = AppState::Menu { song_id: 0, art_id: 0 };
                self.current = next;
                return InputAction::Publish(next);
            }
            return InputAction::Idle;
        }
        if ev.a && ev.b && ev.joy {
            let start = match self.reset_hold_start {
                Some(t) => t,
                None => now,
            };
            self.reset_hold_start = Some(start);
            if secs_between(now, start) >= HOLD_SECS {
                return InputAction::RebootToUsb;
            }
        } else {
            self.reset_hold_start = None;
        }
        let mut held: Option<AppState> = None;
        if ev.a && !ev.b && !ev.joy {
            let start = match self.a_hold_start {
                Some(t) => t,
                None => now,
            };
            self.a_hold_start = Some(start);
            if secs_between(now, start) >= HOLD_SECS {
                held = Some(long_press_state(&self.current));
                self.a_hold_start = None;
            }
        } else {
            self.a_hold_start = None;
        }
        let a_just = ev.a && !self.a_was_pressed;
        self.a_was_pressed = ev.a;
        self.b_was_pressed = ev.b;
        let since_click = millis_between(now, self.last_a_click);
        if a_just {
            self.a_click_count = if since_click < CLICK_WINDOW_MS { self.a_click_count + 1 } else { 1 };
            self.last_a_click = now;
        } else if !ev.a && since_click > CLICK_WINDOW_MS {
            self.a_click_count = 0;
        }
        if is_heart(&self.current) && self.a_click_count == 3 {
            self.a_click_count = 0;
            self.easter_egg_start = Some(now);
            let next = AppState::EasterEgg;
            self.current = next;
            return InputAction::Publish(next);
        }
        let (next, joy, game) = match held {
            Some(s) => (s, self.last_joy_move, self.last_game_move),
            None => before.round_transition(ev),
        };
        self.last_joy_move = joy;
        self.last_game_move = game;
        proof {
            lemma_same_state_is_equality(next, self.current);
        }
        if next != self.current {
            self.current = next;
            InputAction::Publish(next)
        } else {
            InputAction::Idle
        }
    }
}

/// The normal course of a round keeps the device state well-formed.
proof fn lemma_transition_wf(c: InputController, ev: Event)
    requires
        c.current.wf(),
        !c.transition_overflows(ev),
    ensures
        c.transition(ev).0.wf(),
{
    match c.current {
        AppState::Menu { song_id, art_id } => {
            lemma_carousel_in_range(song_id, MAX_SONGS, ev.joy_x);
            lemma_carousel_in_range(art_id, MAX_ARTS, ev.joy_y);
        },
        AppState::Playing { art_id, .. } => {
            lemma_carousel_in_range(art_id, MAX_ARTS, ev.joy_y);
        },
        AppState::GamesMenu { game_id, .. } => {
            lemma_carousel_in_range(game_id, MAX_GAMES, ev.joy_x);
            lemma_initial_wf(ev.now);
            flappy_wf_kept(FlappyModel::initial(ev.now), ev.now, false, false, false);
            FlappyGame::lemma_model_roundtrip(
                FlappyGame::from_model(FlappyModel::initial(ev.now)),
                FlappyModel::initial(ev.now),
            );
        },
        AppState::Snake(g, _) => {
            lemma_initial_wf(ev.now);
            let g1 = SnakeGame { dir: dir_after_input(g.dir, ev.joy_x, ev.joy_y), ..g };
            if !g.game_over && g1.dir != 4 && (g.dir == 4 || c.game_elapsed(ev) > g1.speed_ms) {
                lemma_stepped_wf(g1, ev.now);
            }
        },
        AppState::FlappyBird(g, _) => {
            let g1 = g@.with_input(c.a_just(ev), c.b_just(ev), ev.joy);
            flappy_wf_kept(g@, ev.now, c.a_just(ev), c.b_just(ev), ev.joy);
            flappy_wf_kept(g1, ev.now, c.a_just(ev), c.b_just(ev), ev.joy);
            FlappyGame::lemma_model_roundtrip(g, FlappyModel::initial(ev.now));
            FlappyGame::lemma_model_roundtrip(g, g1);
            FlappyGame::lemma_model_roundtrip(g, g1.stepped());
        },
        AppState::EasterEgg => {},
    }
}

/// A round keeps the device state well-formed and the remembered times at or
/// before the round.
pub proof fn lemma_tick_keeps_wf(c: InputController, ev: Event)
    requires
        c.current.wf(),
        c.clock_ok(),
        c.last_tick <= ev.now,
        !c.tick_overflows(ev),
    ensures
        c.after_tick(ev).0.current.wf(),
        c.after_tick(ev).0.clock_ok(),
{
    if c.easter_egg_start is None && !c.reboots(ev) && !c.starts_heart(ev) && !c.long_press(ev) {
        lemma_transition_wf(c, ev);
    }
}

/// After a lost snake game: pressing A leads to the games menu on the snake
/// game, keeping the music setting; pressing B alone starts a new snake game
/// with the same music setting. The new state is published.
pub proof fn lemma_lost_snake_buttons(c: InputController, ev: Event, g: SnakeGame, m: bool)
    requires
        c.current == AppState::Snake(g, m),
        g.game_over,
        c.easter_egg_start is None,
        !(ev.a && ev.b && ev.joy),
    ensures
        ev.a && !c.a_was_pressed ==> {
            &&& c.after_tick(ev).0.current == (AppState::GamesMenu { game_id: 0, with_music: m })
            &&& c.after_tick(ev).1 == InputAction::Publish(AppState::GamesMenu { game_id: 0, with_music: m })
        },
        !(ev.a && !c.a_was_pressed) && ev.b && !c.b_was_pressed ==> {
            &&& c.after_tick(ev).0.current == AppState::Snake(SnakeGame::initial(ev.now), m)
            &&& c.after_tick(ev).1 == InputAction::Publish(AppState::Snake(SnakeGame::initial(ev.now), m))
        },
        !SnakeGame::initial(ev.now).game_over,
        SnakeGame::initial(ev.now).score == 0,
{
}

/// After a lost flappy-bird game: pressing A leads to the games menu on that
/// game, keeping the music setting; pressing B alone starts a new flappy-bird
/// game with the same music setting. The new state is published.
pub proof fn lemma_lost_flappy_buttons(c: InputController, ev: Event, g: FlappyGame, m: bool)
    requires
        c.current == AppState::FlappyBird(g, m),
        g.game_over,
        c.easter_egg_start is None,
        !(ev.a && ev.b && ev.joy),
    ensures
        ev.a && !c.a_was_pressed ==> {
            &&& c.after_tick(ev).0.current == (AppState::GamesMenu { game_id: 1, with_music: m })
            &&& c.after_tick(ev).1 == InputAction::Publish(AppState::GamesMenu { game_id: 1, with_music: m })
        },
        !(ev.a && !c.a_was_pressed) && ev.b && !c.b_was_pressed ==> {
            &&& c.after_tick(ev).0.current == AppState::FlappyBird(FlappyGame::from_model(FlappyModel::initial(ev.now)), m)
            &&& c.after_tick(ev).1 == InputAction::Publish(
                AppState::FlappyBird(FlappyGame::from_model(FlappyModel::initial(ev.now)), m),
            )
        },
        !FlappyGame::from_model(FlappyModel::initial(ev.now)).game_over,
        FlappyGame::from_model(FlappyModel::initial(ev.now)).score == 0,
{
}

/// Whether the joystick rests near its centre on both axes.
pub open spec fn joystick_centred(ev: Event) -> bool {
    1000 < ev.joy_x < 3000 && 1000 < ev.joy_y < 3000
}

/// The buttons in the music menus, with the joystick at rest, no hold running
/// and the joystick button up: in the music menu B starts the chosen song
/// unpaused; while a song plays B pauses or resumes it, and A (without B)
/// returns to the music menu on the same song and picture. Each new state is
/// published. (Presses of A on the heart picture are left out: they count
/// towards the heart animation.)
pub proof fn lemma_music_menu_buttons(c: InputController, ev: Event, song_id: u8, art_id: u8, paused: bool)
    requires
        c.easter_egg_start is None,
        !ev.joy,
        joystick_centred(ev),
        c.a_hold_start is None,
        art_id != 0,
    ensures
        c.current == (AppState::Menu { song_id, art_id }) && ev.b && !c.b_was_pressed ==> {
            &&& c.after_tick(ev).0.current == (AppState::Playing { song_id, art_id, paused: false })
            &&& c.after_tick(ev).1 == InputAction::Publish(AppState::Playing { song_id, art_id, paused: false })
        },
        c.current == (AppState::Playing { song_id, art_id, paused }) && ev.b && !c.b_was_pressed ==> {
            &&& c.after_tick(ev).0.current == (AppState::Playing { song_id, art_id, paused: !paused })
            &&& c.after_tick(ev).1 == InputAction::Publish(AppState::Playing { song_id, art_id, paused: !paused })
        },
        c.current == (AppState::Playing { song_id, art_id, paused }) && ev.a && !c.a_was_pressed
            && !(ev.b && !c.b_was_pressed) ==> {
            &&& c.after_tick(ev).0.current == (AppState::Menu { song_id, art_id })
            &&& c.after_tick(ev).1 == InputAction::Publish(AppState::Menu { song_id, art_id })
        },
{
    assert(carousel(song_id, MAX_SONGS, ev.joy_x) == (song_id, false));
    assert(carousel(art_id, MAX_ARTS, ev.joy_y) == (art_id, false));
}

/// The buttons in the games menu, with the joystick at rest, no hold running
/// and the joystick button up: B starts the chosen game (a new snake game for
/// game 0, a new flappy-bird game for game 1) with the menu's music setting;
/// A (without B) switches the music setting. Each new state is published.
pub proof fn lemma_games_menu_buttons(c: InputController, ev: Event, game_id: u8, with_music: bool)
    requires
        c.current == (AppState::GamesMenu { game_id, with_music }),
        c.easter_egg_start is None,
        !ev.joy,
        joystick_centred(ev),
        c.a_hold_start is None,
    ensures
        ev.b && !c.b_was_pressed && game_id == 0 ==> {
            &&& c.after_tick(ev).0.current == AppState::Snake(SnakeGame::initial(ev.now), with_music)
            &&& c.after_tick(ev).1 == InputAction::Publish(AppState::Snake(SnakeGame::initial(ev.now), with_music))
        },
        ev.b && !c.b_was_pressed && game_id == 1 ==> {
            &&& c.after_tick(ev).0.current == AppState::FlappyBird(
                FlappyGame::from_model(FlappyModel::initial(ev.now)),
                with_music,
            )
            &&& c.after_tick(ev).1 == InputAction::Publish(
                AppState::FlappyBird(FlappyGame::from_model(FlappyModel::initial(ev.now)), with_music),
            )
        },
        ev.a && !c.a_was_pressed && !(ev.b && !c.b_was_pressed) ==> {
            &&& c.after_tick(ev).0.current == (AppState::GamesMenu { game_id, with_music: !with_music })
            &&& c.after_tick(ev).1 == InputAction::Publish(AppState::GamesMenu { game_id, with_music: !with_music })
        },
{
    assert(carousel(game_id, MAX_GAMES, ev.joy_x) == (game_id, false));
}

/// Holding A alone for two seconds (A already down in the round before):
/// from the music menus to the games menu on the first game with music on,
/// from the games menu back to the first song and picture, and from a game to
/// the games menu on that game, keeping its music setting.
pub proof fn lemma_long_press(c: InputController, ev: Event, start: u64)
    requires
        c.easter_egg_start is None,
        ev.a && !ev.b && !ev.joy,
        c.a_was_pressed,
        c.a_click_count != 3,
        c.a_hold_start == Some(start),
        start <= ev.now,
        (ev.now - start) / 1000000 >= 2,
    ensures
        c.after_tick(ev).0.current == (match c.current {
            AppState::Menu { .. } => AppState::GamesMenu { game_id: 0, with_music: true },
            AppState::Playing { .. } => AppState::GamesMenu { game_id: 0, with_music: true },
            AppState::GamesMenu { .. } => AppState::Menu { song_id: 0, art_id: 0 },
            AppState::Snake(_, m) => AppState::GamesMenu { game_id: 0, with_music: m },
            AppState::FlappyBird(_, m) => AppState::GamesMenu { game_id: 1, with_music: m },
            AppState::EasterEgg => AppState::EasterEgg,
        }),
        c.after_tick(ev).0.a_hold_start is None,
{
}

/// The third quick press of A (within 500 ms of the one before) while the heart
/// picture shows starts the heart animation, which is published; 1.5 s after it
/// started, the first song and picture come back, whatever the buttons.
pub proof fn lemma_heart(c: InputController, ev: Event)
    ensures
        c.easter_egg_start is None && !(ev.a && ev.b && ev.joy) && ev.a && !c.a_was_pressed
            && c.last_a_click <= ev.now && (ev.now - c.last_a_click) / 1000 < 500 && c.a_click_count == 2
            && c.current == (AppState::Menu { song_id: c.current->Menu_song_id, art_id: 0 }) ==> {
            &&& c.after_tick(ev).0.current == AppState::EasterEgg
            &&& c.after_tick(ev).1 == InputAction::Publish(AppState::EasterEgg)
            &&& c.after_tick(ev).0.easter_egg_start == Some(ev.now)
        },
        c.easter_egg_start matches Some(t) && t <= ev.now && (ev.now - t) / 1000 > 1500 ==> {
            &&& c.after_tick(ev).0.current == (AppState::Menu { song_id: 0, art_id: 0 })
            &&& c.after_tick(ev).1 == InputAction::Publish(AppState::Menu { song_id: 0, art_id: 0 })
        },
        c.easter_egg_start matches Some(t) && t <= ev.now && (ev.now - t) / 1000 <= 1500 ==> {
            &&& c.after_tick(ev).0.current == c.current
            &&& c.after_tick(ev).1 == InputAction::Idle
        },
{
}

/// All three buttons held for two seconds reboot into the USB boot loader.
pub proof fn lemma_reboot(c: InputController, ev: Event, start: u64)
    requires
        c.easter_egg_start is None,
        ev.a && ev.b && ev.joy,
        c.reset_hold_start == Some(start),
        start <= ev.now,
        (ev.now - start) / 1000000 >= 2,
    ensures
        c.after_tick(ev).1 == InputAction::RebootToUsb,
{
}

/// A round keeps every menu position within its list, whatever the games hold.
pub proof fn lemma_tick_keeps_ids_in_range(c: InputController, ev: Event)
    requires
        c.current.ids_in_range(),
    ensures
        c.after_tick(ev).0.current.ids_in_range(),
        c.after_tick(ev).1 matches InputAction::Publish(s) ==> s.ids_in_range(),
{
    match c.current {
        AppState::Menu { song_id, art_id } => {
            lemma_carousel_in_range(song_id, MAX_SONGS, ev.joy_x);
            lemma_carousel_in_range(art_id, MAX_ARTS, ev.joy_y);
        },
        AppState::Playing { art_id, .. } => {
            lemma_carousel_in_range(art_id, MAX_ARTS, ev.joy_y);
        },
        AppState::GamesMenu { game_id, .. } => {
            lemma_carousel_in_range(game_id, MAX_GAMES, ev.joy_x);
        },
        _ => {},
    }
}

/// Every change of the device state is published, a published state becomes
/// the current one, and only the three buttons held together reboot.
pub proof fn lemma_tick_publishes_changes(c: InputController, ev: Event)
    ensures
        c.after_tick(ev).1 matches InputAction::Publish(s) ==> c.after_tick(ev).0.current == s,
        c.after_tick(ev).1 !is RebootToUsb && c.after_tick(ev).0.current != c.current
            ==> c.after_tick(ev).1 == InputAction::Publish(c.after_tick(ev).0.current),
        c.after_tick(ev).1 is RebootToUsb ==> ev.a && ev.b && ev.joy,
{
}

/// A round on a well-formed state cannot overflow while the count of quick
/// presses and the game scores are below their largest values.
pub proof fn lemma_wf_tick_defined(c: InputController, ev: Event)
    requires
        c.current.wf(),
        c.a_click_count < i32::MAX,
        c.current matches AppState::Snake(g, _) ==> g.score < u32::MAX,
        c.current matches AppState::FlappyBird(g, _) ==> g@.score < u32::MAX,
    ensures
        !c.tick_overflows(ev),
{
    match c.current {
        AppState::Snake(g, _) => {
            let g1 = SnakeGame { dir: dir_after_input(g.dir, ev.joy_x, ev.joy_y), ..g };
            lemma_snake_step_defined(g1);
        },
        AppState::FlappyBird(g, _) => {
            let g1 = g@.with_input(c.a_just(ev), c.b_just(ev), ev.joy);
            flappy_wf_kept(g@, ev.now, c.a_just(ev), c.b_just(ev), ev.joy);
            lemma_flappy_step_defined(g1);
        },
        _ => {},
    }
}

/// `x % m` for `0 <= x < 2m`.
proof fn lemma_wrap_once(x: int, m: int)
    requires
        0 < m,
        0 <= x < 2 * m,
    ensures
        x % m == (if x < m { x } else { x - m }),
{
    if x < m {
        lemma_small_mod(x as nat, m as nat);
    } else {
        lemma_mod_multiples_vanish(1, x - m, m);
        lemma_small_mod((x - m) as nat, m as nat);
    }
}

/// A carousel position stays below the length of its list.
pub proof fn lemma_carousel_in_range(current: u8, max: u8, joy: u16)
    requires
        current < max,
    ensures
        carousel(current, max, joy).0 < max,
        carousel(current, max, joy).0 == (if joy <= JOY_LOW {
            if current == 0 { max - 1 } else { current - 1 }
        } else if joy >= JOY_HIGH {
            if current + 1 == max { 0 } else { current + 1 }
        } else {
            current as int
        }),
{
    lemma_wrap_once(current + max - 1, max as int);
    lemma_wrap_once(current + 1, max as int);
}

/// Moving a carousel back and then forward returns to where it was, and the
/// other way round.
pub proof fn lemma_carousel_round_trip(current: u8, max: u8, low: u16, high: u16)
    requires
        current < max,
        low <= JOY_LOW,
        high >= JOY_HIGH,
    ensures
        carousel(current, max, low).0 < max,
        carousel(current, max, high).0 < max,
        carousel(carousel(current, max, low).0, max, high).0 == current,
        carousel(carousel(current, max, high).0, max, low).0 == current,
{
    lemma_carousel_in_range(current, max, low);
    lemma_carousel_in_range(current, max, high);
    lemma_carousel_in_range(carousel(current, max, low).0, max, high);
    lemma_carousel_in_range(carousel(current, max, high).0, max, low);
}

/// The start of a hold: the time already kept, or now.
pub open spec fn hold_from(start: Option<u64>, now: u64) -> u64 {
    match start {
        Some(t) => t,
        None => now,
    }
}

} // verus!
