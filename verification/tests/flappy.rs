use mikap3::flappy::game::FlappyGame;
use mikap3::flappy::render::draw_frame;

fn gap_for(seed: u64) -> i32 {
    let r = (seed as u32).wrapping_mul(1103515245).wrapping_add(12345);
    (r % 3) as i32 + 1
}

#[test]
fn new_game_starts_in_the_middle() {
    for seed in [0u64, 1, 2, 3, 99, u64::MAX, 1 << 40] {
        let g = FlappyGame::new(seed);
        assert_eq!(g.bird_y, 2);
        assert_eq!(g.pipe_x, 4);
        assert_eq!(g.score, 0);
        assert_eq!(g.speed_ms, 400);
        assert!(!g.game_over);
        assert_eq!(g.pipe_gap, gap_for(seed));
    }
}

#[test]
fn bird_falls_without_jump() {
    let mut g = FlappyGame::new(0);
    g.step(0);
    assert_eq!(g.bird_y, 3);
    assert_eq!(g.pipe_x, 3);
    assert!(!g.game_over);
}

#[test]
fn button_makes_bird_jump_once() {
    let mut g = FlappyGame::new(0);
    g.input(false, true, false);
    g.step(0);
    assert_eq!(g.bird_y, 1);
    g.step(0);
    assert_eq!(g.bird_y, 2);
}

#[test]
fn no_button_no_jump() {
    let mut g = FlappyGame::new(0);
    g.input(false, false, false);
    g.step(0);
    assert_eq!(g.bird_y, 3);
}

#[test]
fn falling_off_ends_game() {
    let mut g = FlappyGame::new(0);
    g.step(0);
    g.step(0);
    assert!(!g.game_over);
    g.step(0);
    assert!(g.game_over);
    assert_eq!(g.bird_y, 5);
    let before = g;
    g.input(true, true, true);
    g.step(0);
    assert!(g == before);
}

#[test]
fn passing_the_pipe_scores() {
    let mut g = FlappyGame::new(0);
    assert_eq!(g.pipe_gap, 1);
    g.input(true, false, false);
    g.step(0);
    g.input(true, false, false);
    g.step(0);
    assert_eq!((g.bird_y, g.pipe_x), (0, 2));
    g.step(0);
    assert_eq!((g.bird_y, g.pipe_x), (1, 1));
    assert!(!g.game_over);
    g.step(0);
    g.step(0);
    assert_eq!(g.pipe_x, 4);
    assert_eq!(g.score, 1);
    assert_eq!(g.speed_ms, 385);
    assert!(!g.game_over);
    assert!((1..=3).contains(&g.pipe_gap));
}

#[test]
fn missing_the_gap_ends_game() {
    let mut g = FlappyGame::new(0);
    g.step(0);
    g.input(false, false, true);
    g.step(0);
    assert_eq!((g.bird_y, g.pipe_x), (2, 2));
    g.input(false, false, true);
    g.step(0);
    assert_eq!((g.bird_y, g.pipe_x), (1, 1));
    assert!(!g.game_over);
    let mut h = FlappyGame::new(0);
    h.step(0);
    h.step(0);
    assert_eq!((h.bird_y, h.pipe_x), (4, 2));
    h.input(true, false, false);
    h.step(0);
    assert_eq!((h.bird_y, h.pipe_x), (3, 1));
    assert!(h.game_over);
}

#[test]
fn frame_shows_bird_and_pipe() {
    let g = FlappyGame::new(0);
    let px = draw_frame(&g);
    assert_eq!(px[2 * 5 + 1], (10, 5, 0));
    assert_eq!(px[0 * 5 + 4], (0, 0, 0));
    assert_eq!(px[1 * 5 + 4], (0, 0, 0));
    assert_eq!(px[2 * 5 + 4], (0, 5, 0));
    assert_eq!(px[3 * 5 + 4], (0, 5, 0));
    assert_eq!(px[4 * 5 + 4], (0, 5, 0));
    assert_eq!(px[0], (0, 0, 0));
}

#[test]
fn frame_after_game_over_is_red() {
    let mut g = FlappyGame::new(0);
    g.step(0);
    g.step(0);
    g.step(0);
    assert!(g.game_over);
    assert!(draw_frame(&g).iter().all(|p| *p == (10, 0, 0)));
}

#[test]
fn reachable_games_keep_their_bounds() {
    for seed in [0u64, 1, 2, 5, 77] {
        let mut g = FlappyGame::new(seed);
        let mut last_score = g.score;
        let mut last_speed = g.speed_ms;
        for round in 0..400u32 {
            let jump = (round * 7 + seed as u32) % 3 == 0 || g.bird_y >= 3;
            g.input(jump, false, false);
            g.step(0);
            assert!(g.score >= last_score);
            assert!(g.speed_ms <= last_speed);
            last_score = g.score;
            last_speed = g.speed_ms;
            assert!((1..=3).contains(&g.pipe_gap));
            assert!(g.speed_ms >= 145 && g.speed_ms <= 400 && g.speed_ms % 15 == 10);
            if !g.game_over {
                assert!((0..=4).contains(&g.bird_y) && (0..=4).contains(&g.pipe_x));
                if g.pipe_x == 1 {
                    assert!(g.bird_y == g.pipe_gap || g.bird_y == g.pipe_gap - 1);
                }
            }
        }
    }
}
