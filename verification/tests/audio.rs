use mikap3::audio::{audio_plan, song_track, sound_continues, AudioPlan, SNAKE_THEME};
use mikap3::buzzer::{note_tone, playback_steps, Note, PlayStep, Tone};
use mikap3::snake::game::SnakeGame;
use mikap3::state::AppState;

#[test]
fn plans() {
    match audio_plan(&AppState::Playing { song_id: 3, art_id: 5, paused: false }) {
        AudioPlan::PlayOnce { track, finished } => {
            assert_eq!(track, 3);
            assert!(finished == AppState::Menu { song_id: 3, art_id: 5 });
        }
        other => panic!("unexpected {:?}", other),
    }
    assert!(matches!(audio_plan(&AppState::Playing { song_id: 3, art_id: 5, paused: true }), AudioPlan::Mute));
    assert!(matches!(audio_plan(&AppState::Menu { song_id: 3, art_id: 5 }), AudioPlan::Mute));
    let g = SnakeGame::new(0);
    assert!(matches!(audio_plan(&AppState::Snake(g, true)), AudioPlan::Loop { track } if track == SNAKE_THEME));
    assert!(matches!(audio_plan(&AppState::Snake(g, false)), AudioPlan::Mute));
    assert!(matches!(audio_plan(&AppState::EasterEgg), AudioPlan::Mute));
}

#[test]
fn tracks() {
    assert_eq!(song_track(10), 10);
    assert_eq!(song_track(11), 0);
    assert_eq!(song_track(200), 0);
}

#[test]
fn what_interrupts_a_song() {
    let playing = AppState::Playing { song_id: 2, art_id: 1, paused: false };
    assert!(sound_continues(&playing, &AppState::Playing { song_id: 2, art_id: 7, paused: false }));
    assert!(!sound_continues(&playing, &AppState::Playing { song_id: 2, art_id: 1, paused: true }));
    assert!(!sound_continues(&playing, &AppState::Playing { song_id: 3, art_id: 1, paused: false }));
    assert!(!sound_continues(&playing, &AppState::Menu { song_id: 2, art_id: 1 }));
    let g = SnakeGame::new(0);
    assert!(sound_continues(&AppState::Snake(g, true), &AppState::Snake(SnakeGame::new(5), true)));
    assert!(!sound_continues(&AppState::Snake(g, true), &AppState::GamesMenu { game_id: 0, with_music: true }));
    assert!(sound_continues(&AppState::EasterEgg, &AppState::EasterEgg));
    assert!(!sound_continues(&AppState::Menu { song_id: 0, art_id: 0 }, &AppState::Menu { song_id: 0, art_id: 0 }));
}

#[test]
fn tones() {
    assert_eq!(note_tone(&Note { freq: 440, vol: 127, duration_ms: 100 }), Tone::Square { top: 2272, compare: 284 });
    assert_eq!(note_tone(&Note { freq: 440, vol: 1, duration_ms: 100 }), Tone::Square { top: 2272, compare: 2 });
    assert_eq!(note_tone(&Note { freq: 10000, vol: 1, duration_ms: 1 }), Tone::Square { top: 100, compare: 1 });
    assert_eq!(note_tone(&Note { freq: 10, vol: 8, duration_ms: 1 }), Tone::Square { top: 34464, compare: 271 });
    assert_eq!(note_tone(&Note { freq: 0, vol: 100, duration_ms: 1 }), Tone::Silence);
    assert_eq!(note_tone(&Note { freq: 300, vol: 0, duration_ms: 1 }), Tone::Silence);
}

#[test]
fn track_steps_end_in_silence() {
    let track = [
        Note { freq: 440, vol: 127, duration_ms: 250 },
        Note { freq: 0, vol: 0, duration_ms: 100 },
        Note { freq: 10000, vol: 1, duration_ms: 5 },
    ];
    let steps = playback_steps(&track);
    assert_eq!(
        steps,
        vec![
            PlayStep { tone: Tone::Square { top: 2272, compare: 284 }, hold_ms: 250 },
            PlayStep { tone: Tone::Silence, hold_ms: 100 },
            PlayStep { tone: Tone::Square { top: 100, compare: 1 }, hold_ms: 5 },
            PlayStep { tone: Tone::Silence, hold_ms: 0 },
        ]
    );
    assert_eq!(playback_steps(&[]), vec![PlayStep { tone: Tone::Silence, hold_ms: 0 }]);
}
