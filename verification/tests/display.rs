use mikap3::display::{screen_for, DisplayMemory, Font};
use mikap3::snake::game::SnakeGame;
use mikap3::state::AppState;

fn texts(state: &AppState, mem: &mut DisplayMemory) -> Option<Vec<(String, i32, Font)>> {
    screen_for(state, mem).map(|v| v.into_iter().map(|l| (l.text, l.y, l.font)).collect())
}

#[test]
fn menu_screen() {
    let mut mem = DisplayMemory::new();
    let lines = texts(&AppState::Menu { song_id: 0, art_id: 0 }, &mut mem).unwrap();
    assert_eq!(lines[0], ("== MikaP3 ==".to_string(), 10, Font::Small));
    assert_eq!(lines[1], ("Married Life".to_string(), 30, Font::Large));
    assert_eq!(lines[2], ("Arte: CORAÇÃO".to_string(), 45, Font::Small));
    assert_eq!(lines[3], ("B: Tocar".to_string(), 60, Font::Small));
    assert_eq!(mem.last_state_type, 0);
}

#[test]
fn playing_screen() {
    let mut mem = DisplayMemory::new();
    let lines = texts(&AppState::Playing { song_id: 10, art_id: 9, paused: true }, &mut mem).unwrap();
    assert_eq!(lines[0].0, "[ PAUSADO ]");
    assert_eq!(lines[1].0, "Tetris");
    assert_eq!(lines[2].0, "Arte: NOTA MUSICAL");
    assert_eq!(lines[3].0, "A: Voltar   B: Pausar");
    let lines = texts(&AppState::Playing { song_id: 3, art_id: 3, paused: false }, &mut mem).unwrap();
    assert_eq!(lines[0].0, "TOCANDO...");
    assert_eq!(lines[1].0, "Game of Thrones");
    assert_eq!(lines[2].0, "Arte: SUPER MARIO");
    assert_eq!(mem.last_state_type, 1);
}

#[test]
fn snake_screen_redrawn_on_change_only() {
    let mut mem = DisplayMemory::new();
    let mut g = SnakeGame::new(1);
    g.score = 42;
    let lines = texts(&AppState::Snake(g, true), &mut mem).unwrap();
    assert_eq!(lines, vec![("PONTOS: 42".to_string(), 35, Font::Large)]);
    assert!(texts(&AppState::Snake(g, true), &mut mem).is_none());
    g.game_over = true;
    let lines = texts(&AppState::Snake(g, true), &mut mem).unwrap();
    assert_eq!(lines[1], ("GAME OVER".to_string(), 55, Font::Small));
    g.score = 0;
    g.game_over = false;
    let lines = texts(&AppState::Snake(g, true), &mut mem).unwrap();
    assert_eq!(lines[0].0, "PONTOS: 0");
    g.score = 4294967295;
    let lines = texts(&AppState::Snake(g, true), &mut mem).unwrap();
    assert_eq!(lines[0].0, "PONTOS: 4294967295");
}

#[test]
fn other_states_leave_screen() {
    let mut mem = DisplayMemory::new();
    assert!(texts(&AppState::EasterEgg, &mut mem).is_none());
    assert!(texts(&AppState::GamesMenu { game_id: 0, with_music: false }, &mut mem).is_none());
    assert_eq!(mem.last_state_type, u8::MAX);
}
