use mikap3::flappy::game::FlappyGame;
use mikap3::input::{update_carousel, Event, InputAction, InputController};
use mikap3::snake::game::SnakeGame;
use mikap3::state::AppState;

const MS: u64 = 1000;

fn ev(a: bool, b: bool, joy: bool, ms: u64, x: u16, y: u16) -> Event {
    Event { a, b, joy, now: ms * MS, joy_x: x, joy_y: y }
}

fn idle(ms: u64) -> Event {
    ev(false, false, false, ms, 2048, 2048)
}

fn tick(c: &mut InputController, e: Event) -> InputAction {
    assert!(c.can_tick(&e));
    c.tick(&e)
}

fn published(a: InputAction) -> AppState {
    match a {
        InputAction::Publish(s) => s,
        other => panic!("expected a new state, got {:?}", other),
    }
}

#[test]
fn carousel_wraps() {
    assert_eq!(update_carousel(0, 10, 0), (9, true));
    assert_eq!(update_carousel(0, 10, 1000), (9, true));
    assert_eq!(update_carousel(9, 10, 3000), (0, true));
    assert_eq!(update_carousel(4, 10, 65535), (5, true));
    assert_eq!(update_carousel(4, 10, 1001), (4, false));
    assert_eq!(update_carousel(4, 10, 2999), (4, false));
    assert_eq!(update_carousel(1, 2, 3500), (0, true));
}

#[test]
fn joystick_moves_menu_after_cooldown() {
    let mut c = InputController::new(AppState::Menu { song_id: 0, art_id: 0 }, 0);
    let s = published(tick(&mut c, ev(false, false, false, 400, 3500, 2048)));
    assert!(s == AppState::Menu { song_id: 1, art_id: 0 });
    assert_eq!(c.last_joy_move, 400 * MS);
    assert!(matches!(tick(&mut c, ev(false, false, false, 500, 3500, 2048)), InputAction::Idle));
    let s = published(tick(&mut c, ev(false, false, false, 701, 3500, 3500)));
    assert!(s == AppState::Menu { song_id: 2, art_id: 1 });
    assert!(c.current == s);
}

#[test]
fn joystick_wraps_backwards() {
    let mut c = InputController::new(AppState::Menu { song_id: 0, art_id: 0 }, 0);
    let s = published(tick(&mut c, ev(false, false, false, 400, 100, 100)));
    assert!(s == AppState::Menu { song_id: 9, art_id: 10 });
}

#[test]
fn b_plays_and_pauses() {
    let mut c = InputController::new(AppState::Menu { song_id: 4, art_id: 2 }, 0);
    let s = published(tick(&mut c, ev(false, true, false, 100, 2048, 2048)));
    assert!(s == AppState::Playing { song_id: 4, art_id: 2, paused: false });
    assert!(matches!(tick(&mut c, ev(false, true, false, 150, 2048, 2048)), InputAction::Idle));
    assert!(matches!(tick(&mut c, idle(200)), InputAction::Idle));
    let s = published(tick(&mut c, ev(false, true, false, 250, 2048, 2048)));
    assert!(s == AppState::Playing { song_id: 4, art_id: 2, paused: true });
    assert!(matches!(tick(&mut c, idle(300)), InputAction::Idle));
    let s = published(tick(&mut c, ev(true, false, false, 350, 2048, 2048)));
    assert!(s == AppState::Menu { song_id: 4, art_id: 2 });
}

#[test]
fn playing_changes_picture_only() {
    let mut c = InputController::new(AppState::Playing { song_id: 1, art_id: 1, paused: false }, 0);
    let s = published(tick(&mut c, ev(false, false, false, 400, 3500, 3500)));
    assert!(s == AppState::Playing { song_id: 1, art_id: 2, paused: false });
}

#[test]
fn holding_a_opens_games_menu() {
    let mut c = InputController::new(AppState::Menu { song_id: 0, art_id: 3 }, 0);
    assert!(matches!(tick(&mut c, ev(true, false, false, 400, 2048, 2048)), InputAction::Idle));
    assert_eq!(c.a_hold_start, Some(400 * MS));
    assert!(matches!(tick(&mut c, ev(true, false, false, 2300, 2048, 2048)), InputAction::Idle));
    let s = published(tick(&mut c, ev(true, false, false, 2400, 2048, 2048)));
    assert!(s == AppState::GamesMenu { game_id: 0, with_music: true });
    assert_eq!(c.a_hold_start, None);
    assert!(matches!(tick(&mut c, ev(true, false, false, 2500, 2048, 2048)), InputAction::Idle));
    assert_eq!(c.a_hold_start, Some(2500 * MS));
    let s = published(tick(&mut c, ev(true, false, false, 4500, 2048, 2048)));
    assert!(s == AppState::Menu { song_id: 0, art_id: 0 });
}

#[test]
fn three_clicks_on_heart_play_animation() {
    let mut c = InputController::new(AppState::Menu { song_id: 0, art_id: 0 }, 0);
    assert!(matches!(tick(&mut c, ev(true, false, false, 1000, 2048, 2048)), InputAction::Idle));
    assert_eq!(c.a_click_count, 1);
    tick(&mut c, idle(1100));
    tick(&mut c, ev(true, false, false, 1200, 2048, 2048));
    assert_eq!(c.a_click_count, 2);
    tick(&mut c, idle(1300));
    let s = published(tick(&mut c, ev(true, false, false, 1400, 2048, 2048)));
    assert!(s == AppState::EasterEgg);
    assert_eq!(c.a_click_count, 0);
    assert!(matches!(tick(&mut c, idle(2000)), InputAction::Idle));
    assert!(matches!(tick(&mut c, ev(true, true, true, 2900, 0, 0)), InputAction::Idle));
    let s = published(tick(&mut c, idle(3000)));
    assert!(s == AppState::Menu { song_id: 0, art_id: 0 });
    assert_eq!(c.easter_egg_start, None);
}

#[test]
fn slow_clicks_do_not_count() {
    let mut c = InputController::new(AppState::Menu { song_id: 0, art_id: 0 }, 0);
    tick(&mut c, ev(true, false, false, 1000, 2048, 2048));
    tick(&mut c, idle(1600));
    assert_eq!(c.a_click_count, 0);
    tick(&mut c, ev(true, false, false, 1700, 2048, 2048));
    assert_eq!(c.a_click_count, 1);
}

#[test]
fn clicks_on_other_picture_do_nothing() {
    let mut c = InputController::new(AppState::Menu { song_id: 0, art_id: 1 }, 0);
    for (i, t) in [1000u64, 1100, 1200, 1300, 1400].iter().enumerate() {
        let down = i % 2 == 0;
        assert!(matches!(tick(&mut c, ev(down, false, false, *t, 2048, 2048)), InputAction::Idle));
    }
    assert_eq!(c.a_click_count, 3);
}

#[test]
fn all_buttons_held_reboot() {
    let mut c = InputController::new(AppState::Menu { song_id: 0, art_id: 1 }, 0);
    let s = published(tick(&mut c, ev(true, true, true, 1000, 2048, 2048)));
    assert!(s == AppState::Playing { song_id: 0, art_id: 1, paused: false });
    assert!(matches!(tick(&mut c, ev(true, true, true, 2900, 2048, 2048)), InputAction::Idle));
    assert!(matches!(tick(&mut c, ev(true, true, true, 3000, 2048, 2048)), InputAction::RebootToUsb));
}

#[test]
fn games_menu_starts_games() {
    let mut c = InputController::new(AppState::GamesMenu { game_id: 0, with_music: true }, 0);
    let s = published(tick(&mut c, ev(true, false, false, 100, 2048, 2048)));
    assert!(s == AppState::GamesMenu { game_id: 0, with_music: false });
    let s = published(tick(&mut c, ev(false, true, false, 200, 2048, 2048)));
    assert!(s == AppState::Snake(SnakeGame::new(200 * MS), false));

    let mut c = InputController::new(AppState::GamesMenu { game_id: 0, with_music: true }, 0);
    let s = published(tick(&mut c, ev(false, false, false, 400, 3500, 2048)));
    assert!(s == AppState::GamesMenu { game_id: 1, with_music: true });
    let s = published(tick(&mut c, ev(false, true, false, 500, 2048, 2048)));
    assert!(s == AppState::FlappyBird(FlappyGame::new(500 * MS), true));
}

#[test]
fn snake_steps_when_its_delay_passed() {
    let g = SnakeGame {
        head: (1, 1),
        fruit: (4, 4),
        obstacles: [(0, 0), (0, 4), (4, 0)],
        dir: 1,
        score: 0,
        speed_ms: 500,
        game_over: false,
    };
    let mut c = InputController::new(AppState::Snake(g, false), 0);
    assert!(matches!(tick(&mut c, idle(300)), InputAction::Idle));
    let s = published(tick(&mut c, idle(501)));
    match s {
        AppState::Snake(g2, false) => assert_eq!(g2.head, (2, 1)),
        other => panic!("unexpected {:?}", other),
    }
    assert_eq!(c.last_game_move, 501 * MS);
    let s = published(tick(&mut c, ev(false, false, false, 600, 2048, 3500 - 3000)));
    match s {
        AppState::Snake(g3, _) => {
            assert_eq!(g3.dir, 3);
            assert_eq!(g3.head, (2, 1));
        }
        other => panic!("unexpected {:?}", other),
    }
}

#[test]
fn finished_games_wait_for_a_button() {
    let mut g = SnakeGame::new(1);
    g.game_over = true;
    let mut c = InputController::new(AppState::Snake(g, true), 0);
    assert!(matches!(tick(&mut c, idle(100)), InputAction::Idle));
    let s = published(tick(&mut c, ev(true, false, false, 200, 2048, 2048)));
    assert!(s == AppState::GamesMenu { game_id: 0, with_music: true });
}

#[test]
fn time_must_not_go_back() {
    let mut c = InputController::new(AppState::Menu { song_id: 0, art_id: 0 }, 0);
    tick(&mut c, idle(100));
    assert!(!c.can_tick(&idle(50)));
    assert!(c.can_tick(&idle(100)));
}

#[test]
fn other_tasks_states_are_taken() {
    let mut c = InputController::new(AppState::Playing { song_id: 1, art_id: 1, paused: false }, 0);
    c.observe(AppState::Menu { song_id: 1, art_id: 1 });
    let s = published(tick(&mut c, ev(false, true, false, 100, 2048, 2048)));
    assert!(s == AppState::Playing { song_id: 1, art_id: 1, paused: false });
}

#[test]
fn carousel_back_then_forward_returns() {
    for max in [2u8, 10, 11] {
        for c in 0..max {
            let (back, _) = update_carousel(c, max, 500);
            assert_eq!(update_carousel(back, max, 3500).0, c);
            let (fwd, _) = update_carousel(c, max, 3500);
            assert_eq!(update_carousel(fwd, max, 500).0, c);
        }
    }
}

#[test]
fn published_menu_positions_stay_in_range() {
    let mut c = InputController::new(AppState::Menu { song_id: 0, art_id: 0 }, 0);
    let mut ms = 0u64;
    for round in 0..300u64 {
        ms += 50;
        let x = [0u16, 2048, 4095][(round % 3) as usize];
        let y = [4095u16, 100, 2048, 2048][(round % 4) as usize];
        let b = round % 11 == 0;
        let a = round % 13 == 0 || (round / 40) % 2 == 1 && round % 2 == 0;
        let e = ev(a, b, false, ms, x, y);
        let act = tick(&mut c, e);
        if let InputAction::Publish(s) = act {
            assert!(s == c.current);
        }
        match c.current {
            AppState::Menu { song_id, art_id } | AppState::Playing { song_id, art_id, .. } => {
                assert!(song_id < 10 && art_id < 11)
            }
            AppState::GamesMenu { game_id, .. } => assert!(game_id < 2),
            _ => {}
        }
    }
}
