//! The decisions of the audio loop: what the two buzzers play for a device
//! state, and which state changes leave the sound alone.
//!
//! Playing the tracks and waiting for the next state happen outside this
//! library.

use vstd::prelude::*;
use crate::state::AppState;

verus! {

/// Number of songs that have tracks.
pub const TRACK_COUNT: u8 = 11;

/// The song that plays, looped, during the snake game when its music is on.
pub const SNAKE_THEME: u8 = 4;

/// What the buzzers do for a state: stay silent; play song `track` once and then
/// publish `finished`; or play song `track` over and over.
#[derive(Clone, Copy, Debug)]
pub enum AudioPlan {
    Mute,
    PlayOnce { track: u8, finished: AppState },
    Loop { track: u8 },
}

/// The track of a song: the song's own for ids up to 10, the first otherwise.
pub open spec fn track_of(song_id: u8) -> u8 {
    if song_id < TRACK_COUNT { song_id } else { 0 }
}

/// The plan for a state: a song that plays unpaused plays once and then goes back
/// to the menu on the same song and picture; the snake game loops its theme when
/// its music is on; everything else is silent.
pub open spec fn plan_for(state: AppState) -> AudioPlan {
    match state {
        AppState::Playing { song_id, art_id, paused } => if paused {
            AudioPlan::Mute
        } else {
            AudioPlan::PlayOnce { track: track_of(song_id), finished: AppState::Menu { song_id, art_id } }
        },
        AppState::Snake(_, with_music) => if with_music {
            AudioPlan::Loop { track: SNAKE_THEME }
        } else {
            AudioPlan::Mute
        },
        _ => AudioPlan::Mute,
    }
}

/// Whether a new state leaves running sound alone: a song goes on while the
/// song and its pause flag stay (the picture may change), the snake music while
/// the snake game runs, the silence of the heart animation while it runs; any
/// other change starts over.
pub open spec fn keeps_sound(playing: AppState, new_state: AppState) -> bool {
    match (playing, new_state) {
        (AppState::Playing { song_id: s1, paused: p1, .. }, AppState::Playing { song_id: s2, paused: p2, .. }) =>
            s1 == s2 && p1 == p2,
        (AppState::Snake(..), AppState::Snake(..)) => true,
        (AppState::EasterEgg, AppState::EasterEgg) => true,
        _ => false,
    }
}

/// The track of a song (see `track_of`).
pub fn song_track(song_id: u8) -> (track: u8)
    ensures
        track == track_of(song_id),
{
    if song_id < TRACK_COUNT { song_id } else { 0 }
}

/// The plan for a state (see `plan_for`).
pub fn audio_plan(state: &AppState) -> (plan: AudioPlan)
    ensures
        plan == plan_for(*state),
{
    match state {
        AppState::Playing { song_id, art_id, paused } => {
            if *paused {
                AudioPlan::Mute
            } else {
                AudioPlan::PlayOnce {
                    track: song_track(*song_id),
                    finished: AppState::Menu { song_id: *song_id, art_id: *art_id },
                }
            }
        },
        AppState::Snake(_, with_music) => {
            if *with_music {
                AudioPlan::Loop { track: SNAKE_THEME }
            } else {
                AudioPlan::Mute
            }
        },
        _ => AudioPlan::Mute,
    }
}

/// Whether a new state leaves running sound alone (see `keeps_sound`).
pub fn sound_continues(playing: &AppState, new_state: &AppState) -> (r: bool)
    ensures
        r == keeps_sound(*playing, *new_state),
{
    match (playing, new_state) {
        (AppState::Playing { song_id: s1, paused: p1, .. }, AppState::Playing { song_id: s2, paused: p2, .. }) =>
            *s1 == *s2 && *p1 == *p2,
        (AppState::Snake(..), AppState::Snake(..)) => true,
        (AppState::EasterEgg, AppState::EasterEgg) => true,
        _ => false,
    }
}

/// A playing song that a state change leaves alone is the song that the new
/// state asks for.
pub proof fn lemma_kept_sound_same_track(playing: AppState, new_state: AppState)
    requires
        keeps_sound(playing, new_state),
    ensures
        plan_for(playing) matches AudioPlan::PlayOnce { track: t1, .. } ==>
            plan_for(new_state) matches AudioPlan::PlayOnce { track: t2, .. } && t1 == t2,
{
}

/// Every plan plays a song that has a track.
pub proof fn lemma_plan_track_exists(state: AppState)
    ensures
        plan_for(state) matches AudioPlan::PlayOnce { track, .. } ==> track < TRACK_COUNT,
        plan_for(state) matches AudioPlan::Loop { track } ==> track < TRACK_COUNT,
{
}

} // verus!
