use mikap3::snake::game::SnakeGame;
use mikap3::snake::render::draw_frame;

fn on_board(c: (u8, u8)) -> bool {
    c.0 < 5 && c.1 < 5
}

fn game(head: (u8, u8), fruit: (u8, u8), obstacles: [(u8, u8); 3], dir: u8) -> SnakeGame {
    SnakeGame { head, fruit, obstacles, dir, score: 0, speed_ms: 500, game_over: false }
}

#[test]
fn new_game_places_items_apart() {
    for seed in [0u64, 1, 2, 42, 12345, 987654321, u64::MAX] {
        let g = SnakeGame::new(seed);
        assert_eq!(g.head, (2, 2));
        assert_eq!(g.dir, 1);
        assert_eq!(g.score, 0);
        assert_eq!(g.speed_ms, 500);
        assert!(!g.game_over);
        for o in g.obstacles {
            assert!(on_board(o));
            assert_ne!(o, g.head);
            assert_ne!(o, g.fruit);
        }
        assert_ne!(g.obstacles[0], g.obstacles[1]);
        assert_ne!(g.obstacles[0], g.obstacles[2]);
        assert_ne!(g.obstacles[1], g.obstacles[2]);
        assert!(on_board(g.fruit));
        assert_ne!(g.fruit, g.head);
    }
}

#[test]
fn new_game_is_deterministic() {
    assert!(SnakeGame::new(7) == SnakeGame::new(7));
}

#[test]
fn new_game_first_obstacle_follows_generator() {
    let s1 = 0u64.wrapping_mul(6364136223846793005).wrapping_add(1);
    let s2 = s1.wrapping_mul(6364136223846793005).wrapping_add(1);
    let expected = ((s1 % 5) as u8, (s2 % 5) as u8);
    let g = SnakeGame::new(0);
    if expected != (2, 2) {
        assert_eq!(g.obstacles[0], expected);
    }
}

#[test]
fn joystick_steers() {
    let mut g = game((2, 2), (0, 0), [(4, 4), (4, 3), (4, 2)], 1);
    g.handle_input(3500, 2000);
    assert_eq!(g.dir, 0);
    g.handle_input(500, 2000);
    assert_eq!(g.dir, 2);
    g.handle_input(2000, 3500);
    assert_eq!(g.dir, 1);
    g.handle_input(2000, 500);
    assert_eq!(g.dir, 3);
    g.handle_input(2000, 2000);
    assert_eq!(g.dir, 3);
    g.handle_input(3500, 500);
    assert_eq!(g.dir, 3);
}

#[test]
fn head_wraps_around_edges() {
    let obstacles = [(2, 0), (2, 1), (1, 1)];
    let mut g = game((4, 2), (0, 0), obstacles, 1);
    g.step(0);
    assert_eq!(g.head, (0, 2));
    let mut g = game((0, 2), (4, 4), obstacles, 3);
    g.step(0);
    assert_eq!(g.head, (4, 2));
    let mut g = game((3, 0), (4, 4), obstacles, 0);
    g.step(0);
    assert_eq!(g.head, (3, 4));
    let mut g = game((3, 4), (4, 4), obstacles, 2);
    g.step(0);
    assert_eq!(g.head, (3, 0));
}

#[test]
fn obstacle_ends_game_without_moving() {
    let mut g = game((1, 2), (4, 4), [(2, 2), (0, 0), (0, 1)], 1);
    g.step(5);
    assert!(g.game_over);
    assert_eq!(g.head, (1, 2));
    let before = g;
    g.step(9);
    assert!(g == before);
}

#[test]
fn fruit_scores_and_speeds_up() {
    let mut g = game((1, 2), (2, 2), [(0, 0), (0, 1), (0, 2)], 1);
    g.step(77);
    assert_eq!(g.head, (2, 2));
    assert_eq!(g.score, 1);
    assert_eq!(g.speed_ms, 485);
    assert!(on_board(g.fruit));
    assert_ne!(g.fruit, g.head);
    assert!(!g.obstacles.contains(&g.fruit));
}

#[test]
fn speed_never_below_150() {
    let mut g = game((1, 2), (2, 2), [(0, 0), (0, 1), (0, 2)], 1);
    g.speed_ms = 160;
    g.step(3);
    assert_eq!(g.speed_ms, 150);
    g.head = (1, 2);
    g.fruit = (2, 2);
    g.step(4);
    assert_eq!(g.speed_ms, 150);
    assert_eq!(g.score, 2);
}

#[test]
fn plain_move_changes_only_head() {
    let mut g = game((1, 1), (4, 4), [(0, 0), (0, 4), (4, 0)], 2);
    g.step(1);
    assert_eq!(g.head, (1, 2));
    assert_eq!(g.fruit, (4, 4));
    assert_eq!(g.score, 0);
    assert_eq!(g.speed_ms, 500);
}

#[test]
fn games_compare_field_by_field() {
    let a = game((1, 1), (4, 4), [(0, 0), (0, 4), (4, 0)], 2);
    let mut b = a;
    assert!(a == b);
    b.obstacles[2] = (3, 3);
    assert!(a != b);
}

#[test]
fn frame_shows_items() {
    let g = game((1, 1), (4, 4), [(0, 0), (0, 4), (4, 0)], 2);
    let px = draw_frame(&g);
    assert_eq!(px[6], (10, 10, 0));
    assert_eq!(px[24], (0, 10, 0));
    assert_eq!(px[0], (0, 0, 10));
    assert_eq!(px[20], (0, 0, 10));
    assert_eq!(px[4], (0, 0, 10));
    assert_eq!(px[12], (0, 0, 0));
}

#[test]
fn frame_after_game_over_is_dim_red() {
    let mut g = game((1, 1), (4, 4), [(0, 0), (0, 4), (4, 0)], 2);
    g.game_over = true;
    assert!(draw_frame(&g).iter().all(|p| *p == (2, 0, 0)));
}
