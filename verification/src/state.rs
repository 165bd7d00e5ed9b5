//! The state of the whole device, shared by the input, display, LED and audio tasks.

use vstd::prelude::*;
use vstd::std_specs::cmp::PartialEqSpecImpl;
use crate::flappy::game::FlappyGame;
use crate::snake::game::{lemma_same_fields_is_equality, SnakeGame};

verus! {

/// Number of songs that the menu offers.
pub const MAX_SONGS: u8 = 10;

/// Number of pictures that the LED matrix can show.
pub const MAX_ARTS: u8 = 11;

/// Number of games that the games menu offers.
pub const MAX_GAMES: u8 = 2;

#[derive(Clone, Copy, Debug)]
pub enum AppState {
    Menu { song_id: u8, art_id: u8 },
    Playing { song_id: u8, art_id: u8, paused: bool },
    GamesMenu { game_id: u8, with_music: bool },
    Snake(SnakeGame, bool),
    FlappyBird(FlappyGame, bool),
    EasterEgg,
}

impl AppState {
    /// Variant-by-variant, field-by-field equality, as `==` computes it.
    pub open spec fn same_state(self, other: AppState) -> bool {
        match (self, other) {
            (AppState::Menu { song_id: s1, art_id: a1 }, AppState::Menu { song_id: s2, art_id: a2 }) =>
                s1 == s2 && a1 == a2,
            (
                AppState::Playing { song_id: s1, art_id: a1, paused: p1 },
                AppState::Playing { song_id: s2, art_id: a2, paused: p2 },
            ) => s1 == s2 && a1 == a2 && p1 == p2,
            (
                AppState::GamesMenu { game_id: g1, with_music: m1 },
                AppState::GamesMenu { game_id: g2, with_music: m2 },
            ) => g1 == g2 && m1 == m2,
            (AppState::Snake(g1, m1), AppState::Snake(g2, m2)) => g1.same_fields(g2) && m1 == m2,
            (AppState::FlappyBird(g1, m1), AppState::FlappyBird(g2, m2)) => g1 == g2 && m1 == m2,
            (AppState::EasterEgg, AppState::EasterEgg) => true,
            _ => false,
        }
    }

    /// Whether every menu position lies within its list: song below
    /// `MAX_SONGS` and picture below `MAX_ARTS` in the music menus, game below
    /// `MAX_GAMES` in the games menu.
    pub open spec fn ids_in_range(self) -> bool {
        match self {
            AppState::Menu { song_id, art_id } => song_id < MAX_SONGS && art_id < MAX_ARTS,
            AppState::Playing { song_id, art_id, .. } => song_id < MAX_SONGS && art_id < MAX_ARTS,
            AppState::GamesMenu { game_id, .. } => game_id < MAX_GAMES,
            _ => true,
        }
    }

    /// Well-formed state: every menu position within its list and every game
    /// well-formed.
    pub open spec fn wf(self) -> bool {
        match self {
            AppState::Menu { song_id, art_id } => song_id < MAX_SONGS && art_id < MAX_ARTS,
            AppState::Playing { song_id, art_id, .. } => song_id < MAX_SONGS && art_id < MAX_ARTS,
            AppState::GamesMenu { game_id, .. } => game_id < MAX_GAMES,
            AppState::Snake(g, _) => g.wf(),
            AppState::FlappyBird(g, _) => g@.wf(),
            AppState::EasterEgg => true,
        }
    }
}

impl PartialEq for AppState {
    fn eq(&self, other: &Self) -> (r: bool) {
        match (self, other) {
            (AppState::Menu { song_id: s1, art_id: a1 }, AppState::Menu { song_id: s2, art_id: a2 }) =>
                *s1 == *s2 && *a1 == *a2,
            (
                AppState::Playing { song_id: s1, art_id: a1, paused: p1 },
                AppState::Playing { song_id: s2, art_id: a2, paused: p2 },
            ) => *s1 == *s2 && *a1 == *a2 && *p1 == *p2,
            (
                AppState::GamesMenu { game_id: g1, with_music: m1 },
                AppState::GamesMenu { game_id: g2, with_music: m2 },
            ) => *g1 == *g2 && *m1 == *m2,
            (AppState::Snake(g1, m1), AppState::Snake(g2, m2)) => g1 == g2 && *m1 == *m2,
            (AppState::FlappyBird(g1, m1), AppState::FlappyBird(g2, m2)) => g1 == g2 && *m1 == *m2,
            (AppState::EasterEgg, AppState::EasterEgg) => true,
            _ => false,
        }
    }
}

impl Eq for AppState {
}

impl PartialEqSpecImpl for AppState {
    open spec fn obeys_eq_spec() -> bool {
        true
    }

    open spec fn eq_spec(&self, other: &AppState) -> bool {
        self.same_state(*other)
    }
}

/// `==` on states holds exactly when the states are the same.
pub proof fn lemma_same_state_is_equality(s: AppState, t: AppState)
    ensures
        s.same_state(t) <==> s == t,
{
    match (s, t) {
        (AppState::Snake(g1, _), AppState::Snake(g2, _)) => {
            lemma_same_fields_is_equality(g1, g2);
        },
        _ => {},
    }
}

} // verus!
