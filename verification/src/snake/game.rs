//! Rules of the snake game on the 5x5 board: a one-cell snake that wraps
//! around the edges, three obstacles and one fruit.

use vstd::prelude::*;
use vstd::wrapping::u64_specs;
use vstd::std_specs::cmp::PartialEqSpecImpl;
use crate::grid::{cell_at, cell_in, on_board, same_cell};

verus! {

/// How many pseudo-random cells a placement draws before it falls back to
/// the first free cell in row-major order. The bound makes every placement
/// end; a search without it would keep drawing until a free cell comes up,
/// and differs from this one only for a seed whose first 1 048 576 draws all
/// hit blocked cells.
pub const MAX_DRAWS: u32 = 1048576;

/// Multiplier of the linear congruential generator that places obstacles and fruit.
pub const LCG_MUL: u64 = 6364136223846793005;

/// One step of the generator: `seed * LCG_MUL + 1`, wrapping.
#[verifier::opaque]
pub open spec fn lcg_next(seed: u64) -> u64 {
    u64_specs::wrapping_add(u64_specs::wrapping_mul(seed, LCG_MUL), 1)
}

/// One candidate cell and the generator state after it: the column comes from
/// the first draw and the row from the second, each taken modulo 5.
pub open spec fn draw_cell(seed: u64) -> ((u8, u8), u64) {
    let s1 = lcg_next(seed);
    let s2 = lcg_next(s1);
    (((s1 % 5) as u8, (s2 % 5) as u8), s2)
}

/// The first cell in row-major order, from position `k` on, that `blocked`
/// does not hold; `(0, 0)` when every one of them is blocked.
pub open spec fn first_open_from(blocked: Seq<(u8, u8)>, k: int) -> (u8, u8)
    decreases 25 - k,
{
    if k >= 25 || k < 0 {
        (0, 0)
    } else if !blocked.contains(cell_at(k)) {
        cell_at(k)
    } else {
        first_open_from(blocked, k + 1)
    }
}

/// The placement of one item: draw cells until one is not blocked, for at most
/// `fuel` draws, then fall back to the first open cell.
pub open spec fn search_open_cell(seed: u64, blocked: Seq<(u8, u8)>, fuel: nat) -> ((u8, u8), u64)
    decreases fuel,
{
    if fuel == 0 {
        (first_open_from(blocked, 0), seed)
    } else {
        let (p, s) = draw_cell(seed);
        if !blocked.contains(p) {
            (p, s)
        } else {
            search_open_cell(s, blocked, (fuel - 1) as nat)
        }
    }
}

/// The placement with the full number of draws (see `MAX_DRAWS` for the bound
/// and the fallback).
#[verifier::opaque]
pub open spec fn place(seed: u64, blocked: Seq<(u8, u8)>) -> ((u8, u8), u64) {
    search_open_cell(seed, blocked, MAX_DRAWS as nat)
}

/// Where the head goes for a direction: 0 up, 1 right, 2 down, 3 left, each
/// wrapping around the board; any other direction leaves it in place.
pub open spec fn next_head(head: (u8, u8), dir: u8) -> (u8, u8) {
    let (x, y) = head;
    if dir == 0 {
        (x, if y == 0 { 4 } else { (y - 1) as u8 })
    } else if dir == 1 {
        (if x == 4 { 0 } else { (x + 1) as u8 }, y)
    } else if dir == 2 {
        (x, if y == 4 { 0 } else { (y + 1) as u8 })
    } else if dir == 3 {
        (if x == 0 { 4 } else { (x - 1) as u8 }, y)
    } else {
        head
    }
}

/// The direction after a joystick reading: far right is up (0), far left is
/// down (2); then far up is right (1) and far down is left (3), the vertical
/// axis taking precedence. Readings between 1000 and 3000 change nothing.
pub open spec fn dir_after_input(dir: u8, x_val: u16, y_val: u16) -> u8 {
    let d = if x_val > 3000 { 0u8 } else if x_val < 1000 { 2u8 } else { dir };
    if y_val > 3000 { 1u8 } else if y_val < 1000 { 3u8 } else { d }
}

/// The slower-to-faster rule: 15 ms less per fruit, never under 150 ms.
pub open spec fn faster(speed_ms: u32) -> u32 {
    let s = if speed_ms < 15 { 0 } else { (speed_ms - 15) as u32 };
    if s < 150 { 150 } else { s }
}

/// The layout of a new game for a seed: the three obstacles, each placed off the
/// head and off the earlier ones, then the fruit, placed off all of them.
pub open spec fn new_layout(seed: u64) -> (Seq<(u8, u8)>, (u8, u8)) {
    let head = (2u8, 2u8);
    let (o0, s1) = place(seed, seq![head]);
    let (o1, s2) = place(s1, seq![head, o0]);
    let (o2, s3) = place(s2, seq![head, o0, o1]);
    let (fruit, _s4) = place(s3, seq![head, o0, o1, o2]);
    (seq![o0, o1, o2], fruit)
}

/// Five distinct cells cannot all lie in a list of at most four cells.
proof fn lemma_some_cell_open(blocked: Seq<(u8, u8)>)
    requires
        blocked.len() <= 4,
    ensures
        exists|k: int| 0 <= k < 5 && !blocked.contains(#[trigger] cell_at(k)),
{
    if forall|k: int| 0 <= k < 5 ==> blocked.contains(#[trigger] cell_at(k)) {
        let c0 = cell_at(0);
        let c1 = cell_at(1);
        let c2 = cell_at(2);
        let c3 = cell_at(3);
        let c4 = cell_at(4);
        assert(blocked.contains(c0) && blocked.contains(c1) && blocked.contains(c2)
            && blocked.contains(c3) && blocked.contains(c4));
        let i0 = choose|i: int| 0 <= i < blocked.len() && blocked[i] == c0;
        let i1 = choose|i: int| 0 <= i < blocked.len() && blocked[i] == c1;
        let i2 = choose|i: int| 0 <= i < blocked.len() && blocked[i] == c2;
        let i3 = choose|i: int| 0 <= i < blocked.len() && blocked[i] == c3;
        let i4 = choose|i: int| 0 <= i < blocked.len() && blocked[i] == c4;
        assert(c0 != c1 && c0 != c2 && c0 != c3 && c0 != c4 && c1 != c2 && c1 != c3 && c1 != c4
            && c2 != c3 && c2 != c4 && c3 != c4);
        assert(false);
    }
}

/// The fallback scan finds an open cell on the board when there is one from `k` on.
proof fn lemma_first_open_from(blocked: Seq<(u8, u8)>, k: int, w: int)
    requires
        0 <= k <= w < 25,
        !blocked.contains(cell_at(w)),
    ensures
        on_board(first_open_from(blocked, k)),
        !blocked.contains(first_open_from(blocked, k)),
    decreases 25 - k,
{
    if blocked.contains(cell_at(k)) {
        lemma_first_open_from(blocked, k + 1, w);
    }
}

/// A placement lands on the board, off every blocked cell, when at most four
/// cells are blocked.
pub proof fn lemma_search_open_cell(seed: u64, blocked: Seq<(u8, u8)>, fuel: nat)
    requires
        blocked.len() <= 4,
    ensures
        on_board(search_open_cell(seed, blocked, fuel).0),
        !blocked.contains(search_open_cell(seed, blocked, fuel).0),
    decreases fuel,
{
    if fuel == 0 {
        lemma_some_cell_open(blocked);
        let w = choose|k: int| 0 <= k < 5 && !blocked.contains(#[trigger] cell_at(k));
        lemma_first_open_from(blocked, 0, w);
    } else {
        let (p, s) = draw_cell(seed);
        if blocked.contains(p) {
            lemma_search_open_cell(s, blocked, (fuel - 1) as nat);
        }
    }
}

/// The cell next to `head` in direction `dir` on the 5x5 board, wrapping:
/// 0 is one row up, 1 one column right, 2 one row down, 3 one column left.
pub open spec fn neighbour(head: (u8, u8), dir: u8) -> (u8, u8) {
    let x = head.0 as int;
    let y = head.1 as int;
    if dir == 0 {
        (x as u8, ((y + 4) % 5) as u8)
    } else if dir == 1 {
        (((x + 1) % 5) as u8, y as u8)
    } else if dir == 2 {
        (x as u8, ((y + 1) % 5) as u8)
    } else {
        (((x + 4) % 5) as u8, y as u8)
    }
}

/// A step of a running game on the board moves the head to the neighbouring
/// cell in its direction, unless an obstacle sits there: then the game ends
/// and the head stays. Moving onto the fruit scores one point, takes 15 ms off
/// the delay (not below 150 ms) and puts the fruit off the new head and off
/// every obstacle; any other move keeps score, delay and fruit.
pub proof fn lemma_step_moves_one_cell(g: SnakeGame, seed: u64)
    requires
        !g.game_over,
        on_board(g.head),
        g.dir < 4,
        g.score < u32::MAX,
    ensures
        g.obstacles@.contains(neighbour(g.head, g.dir)) ==> {
            &&& g.stepped(seed).game_over
            &&& g.stepped(seed).head == g.head
            &&& g.stepped(seed).score == g.score
            &&& g.stepped(seed).fruit == g.fruit
        },
        !g.obstacles@.contains(neighbour(g.head, g.dir)) ==> {
            &&& !g.stepped(seed).game_over
            &&& g.stepped(seed).head == neighbour(g.head, g.dir)
            &&& g.stepped(seed).head != g.head
            &&& g.stepped(seed).obstacles == g.obstacles
            &&& g.stepped(seed).dir == g.dir
        },
        !g.obstacles@.contains(neighbour(g.head, g.dir)) && neighbour(g.head, g.dir) == g.fruit ==> {
            &&& g.stepped(seed).score == g.score + 1
            &&& g.stepped(seed).speed_ms == (if g.speed_ms < 165 { 150 } else { g.speed_ms - 15 })
            &&& g.stepped(seed).fruit != g.stepped(seed).head
            &&& !g.obstacles@.contains(g.stepped(seed).fruit)
            &&& on_board(g.stepped(seed).fruit)
        },
        !g.obstacles@.contains(neighbour(g.head, g.dir)) && neighbour(g.head, g.dir) != g.fruit ==> {
            &&& g.stepped(seed).score == g.score
            &&& g.stepped(seed).speed_ms == g.speed_ms
            &&& g.stepped(seed).fruit == g.fruit
        },
{
    let nh = next_head(g.head, g.dir);
    assert(nh == neighbour(g.head, g.dir));
    if !g.obstacles@.contains(nh) && nh == g.fruit {
        let blocked = seq![nh] + g.obstacles@;
        lemma_place(seed, blocked);
        assert(blocked[0] == nh);
        let f = place(seed, blocked).0;
        if g.obstacles@.contains(f) {
            let i = choose|i: int| 0 <= i < g.obstacles@.len() && g.obstacles@[i] == f;
            assert(blocked[i + 1] == f);
        }
    }
}

/// The joystick: the vertical axis decides when it is pushed far (up turns
/// right, down turns left); else the horizontal axis decides when pushed far
/// (right turns up, left turns down); a joystick near its centre keeps the
/// direction.
pub proof fn lemma_steering(dir: u8, x_val: u16, y_val: u16)
    ensures
        y_val > 3000 ==> dir_after_input(dir, x_val, y_val) == 1,
        y_val < 1000 ==> dir_after_input(dir, x_val, y_val) == 3,
        1000 <= y_val <= 3000 && x_val > 3000 ==> dir_after_input(dir, x_val, y_val) == 0,
        1000 <= y_val <= 3000 && x_val < 1000 ==> dir_after_input(dir, x_val, y_val) == 2,
        1000 <= y_val <= 3000 && 1000 <= x_val <= 3000 ==> dir_after_input(dir, x_val, y_val) == dir,
{
}

/// A finished game stays as it is, whatever the seed.
pub proof fn lemma_game_over_is_final(g: SnakeGame, seed: u64)
    requires
        g.game_over,
    ensures
        g.stepped(seed) == g,
        !g.step_overflows(),
{
}

/// A well-formed game that has not reached the highest score can always step.
pub proof fn lemma_wf_step_defined(g: SnakeGame)
    requires
        g.wf(),
        g.score < u32::MAX,
    ensures
        !g.step_overflows(),
{
}

/// `place` puts an item on the board and off every blocked cell, when at most
/// four cells are blocked.
pub proof fn lemma_place(seed: u64, blocked: Seq<(u8, u8)>)
    requires
        blocked.len() <= 4,
    ensures
        on_board(place(seed, blocked).0),
        !blocked.contains(place(seed, blocked).0),
{
    reveal(place);
    lemma_search_open_cell(seed, blocked, MAX_DRAWS as nat);
}

#[derive(Clone, Copy, Debug)]
pub struct SnakeGame {
    pub head: (u8, u8),
    pub fruit: (u8, u8),
    pub obstacles: [(u8, u8); 3],
    pub dir: u8,
    pub score: u32,
    pub speed_ms: u32,
    pub game_over: bool,
}

impl SnakeGame {
    /// Field-by-field equality, as `==` computes it.
    pub open spec fn same_fields(self, other: SnakeGame) -> bool {
        &&& self.head == other.head
        &&& self.fruit == other.fruit
        &&& self.obstacles@[0] == other.obstacles@[0]
        &&& self.obstacles@[1] == other.obstacles@[1]
        &&& self.obstacles@[2] == other.obstacles@[2]
        &&& self.dir == other.dir
        &&& self.score == other.score
        &&& self.speed_ms == other.speed_ms
        &&& self.game_over == other.game_over
    }

    /// The game that `new` starts for a seed.
    pub open spec fn initial(seed: u64) -> SnakeGame {
        let (obs, fruit) = new_layout(seed);
        SnakeGame {
            head: (2, 2),
            fruit,
            obstacles: [obs[0], obs[1], obs[2]],
            dir: 1,
            score: 0,
            speed_ms: 500,
            game_over: false,
        }
    }

    /// The cells that the head and the obstacles take.
    pub open spec fn taken(self) -> Seq<(u8, u8)> {
        seq![self.head] + self.obstacles@
    }

    /// Whether `step` overflows on this game: the head moving right from
    /// column 255, down from row 255, or eating a fruit at the highest score.
    pub open spec fn step_overflows(self) -> bool {
        !self.game_over && {
            ||| (self.dir == 1 && self.head.0 == 255)
            ||| (self.dir == 2 && self.head.1 == 255)
            ||| {
                let nh = next_head(self.head, self.dir);
                !self.obstacles@.contains(nh) && nh == self.fruit && self.score == u32::MAX
            }
        }
    }

    /// The game after one step with a seed for the fruit placement.
    pub open spec fn stepped(self, seed: u64) -> SnakeGame {
        let nh = next_head(self.head, self.dir);
        if self.game_over {
            self
        } else if self.obstacles@.contains(nh) {
            SnakeGame { game_over: true, ..self }
        } else if nh == self.fruit {
            SnakeGame {
                head: nh,
                score: (self.score + 1) as u32,
                speed_ms: faster(self.speed_ms),
                fruit: place(seed, seq![nh] + self.obstacles@).0,
                ..self
            }
        } else {
            SnakeGame { head: nh, ..self }
        }
    }

    /// Well-formed game: every item on the board, the obstacles distinct and off
    /// the head, the fruit off the head and off every obstacle, the delay between
    /// 150 and 500 ms, the direction one of the four.
    pub open spec fn wf(self) -> bool {
        &&& on_board(self.head)
        &&& on_board(self.fruit)
        &&& forall|i: int| 0 <= i < 3 ==> on_board(#[trigger] self.obstacles@[i])
        &&& self.obstacles@[0] != self.obstacles@[1]
        &&& self.obstacles@[0] != self.obstacles@[2]
        &&& self.obstacles@[1] != self.obstacles@[2]
        &&& !self.obstacles@.contains(self.head)
        &&& !self.taken().contains(self.fruit)
        &&& 150 <= self.speed_ms <= 500
        &&& self.dir < 4
    }

    /// Starts a game: the head in the centre moving right, three obstacles and
    /// a fruit placed by the generator seeded with `seed` (see `new_layout`; each
    /// placement draws at most `MAX_DRAWS` cells before its fallback).
    pub fn new(seed: u64) -> (g: Self)
        ensures
            g == Self::initial(seed),
            g.wf(),
    {
        let mut seed = seed;
        let ghost s0 = seed;
        let head: (u8, u8) = (2, 2);
        let around_head: [(u8, u8); 1] = [head];
        assert(around_head@ =~= seq![head]);
        let o0 = find_open_cell(&mut seed, &around_head);
        let ghost s1 = seed;
        let around_first: [(u8, u8); 2] = [head, o0];
        assert(around_first@ =~= seq![head, o0]);
        let o1 = find_open_cell(&mut seed, &around_first);
        let ghost s2 = seed;
        let around_second: [(u8, u8); 3] = [head, o0, o1];
        assert(around_second@ =~= seq![head, o0, o1]);
        let o2 = find_open_cell(&mut seed, &around_second);
        let obstacles: [(u8, u8); 3] = [o0, o1, o2];
        let mut game = SnakeGame {
            head,
            fruit: (0, 0),
            obstacles,
            dir: 1,
            score: 0,
            speed_ms: 500,
            game_over: false,
        };
        assert(obstacles@ =~= seq![o0, o1, o2]);
        assert(game.taken() =~= seq![head, o0, o1, o2]);
        game.spawn_fruit(&mut seed);
        assert((o0, s1) == place(s0, seq![head]));
        assert((o1, s2) == place(s1, seq![head, o0]));
        proof {
            lemma_initial_wf(s0);
        }
        game
    }

    /// Advances the generator: `seed * LCG_MUL + 1`, wrapping; returns the new state.
    fn rand(seed: &mut u64) -> (r: u64)
        ensures
            r == lcg_next(*old(seed)),
            *final(seed) == r,
    {
        reveal(lcg_next);
        *seed = seed.wrapping_mul(LCG_MUL).wrapping_add(1);
        *seed
    }

    /// Puts the fruit on a cell off the head and off every obstacle.
    fn spawn_fruit(&mut self, seed: &mut u64)
        ensures
            (final(self).fruit, *final(seed)) == place(*old(seed), old(self).taken()),
            *final(self) == (SnakeGame { fruit: final(self).fruit, ..*old(self) }),
    {
        let blocked: [(u8, u8); 4] = [self.head, self.obstacles[0], self.obstacles[1], self.obstacles[2]];
        assert(blocked@ =~= self.taken());
        self.fruit = find_open_cell(seed, &blocked);
    }

    /// Steers with a joystick reading (see `dir_after_input`).
    pub fn handle_input(&mut self, x_val: u16, y_val: u16)
        ensures
            *final(self) == (SnakeGame { dir: dir_after_input(old(self).dir, x_val, y_val), ..*old(self) }),
            old(self).wf() ==> final(self).wf(),
    {
        if x_val > 3000 {
            self.dir = 0;
        } else if x_val < 1000 {
            self.dir = 2;
        }
        if y_val > 3000 {
            self.dir = 1;
        } else if y_val < 1000 {
            self.dir = 3;
        }
    }

    /// Whether `step` would overflow on this game (see `step_overflows`).
    pub fn would_step_overflow(&self) -> (r: bool)
        ensures
            r == self.step_overflows(),
    {
        if self.game_over {
            return false;
        }
        if (self.dir == 1 && self.head.0 == 255) || (self.dir == 2 && self.head.1 == 255) {
            return true;
        }
        let mut nx: u8 = self.head.0;
        let mut ny: u8 = self.head.1;
        match self.dir {
            0 => ny = if ny == 0 { 4 } else { ny - 1 },
            1 => nx = if nx == 4 { 0 } else { nx + 1 },
            2 => ny = if ny == 4 { 0 } else { ny + 1 },
            3 => nx = if nx == 0 { 4 } else { nx - 1 },
            _ => {},
        }
        let nh: (u8, u8) = (nx, ny);
        assert(nh == next_head(self.head, self.dir));
        !cell_in(&self.obstacles, nh) && same_cell(nh, self.fruit) && self.score == u32::MAX
    }

    /// Moves the head one cell. Hitting an obstacle ends the game and leaves the
    /// head where it was; reaching the fruit scores a point, speeds the game up
    /// and places a new fruit with the generator seeded with `seed`. A finished
    /// game does not change.
    pub fn step(&mut self, seed: u64)
        requires
            !old(self).step_overflows(),
        ensures
            *final(self) == old(self).stepped(seed),
            old(self).wf() ==> final(self).wf(),
            final(self).score == old(self).score || final(self).score == old(self).score + 1,
            final(self).speed_ms <= old(self).speed_ms || old(self).speed_ms < 150,
    {
        if self.game_over {
            return;
        }
        let mut rng = seed;
        let mut nx: u8 = self.head.0;
        let mut ny: u8 = self.head.1;
        match self.dir {
            0 => ny = if ny == 0 { 4 } else { ny - 1 },
            1 => nx = if nx == 4 { 0 } else { nx + 1 },
            2 => ny = if ny == 4 { 0 } else { ny + 1 },
            3 => nx = if nx == 0 { 4 } else { nx - 1 },
            _ => {},
        }
        let new_head: (u8, u8) = (nx, ny);
        assert(new_head == next_head(self.head, self.dir));
        if cell_in(&self.obstacles, new_head) {
            self.game_over = true;
            return;
        }
        self.head = new_head;
        if same_cell(self.head, self.fruit) {
            self.score += 1;
            self.speed_ms = self.speed_ms.saturating_sub(15);
            if self.speed_ms < 150 {
                self.speed_ms = 150;
            }
            self.spawn_fruit(&mut rng);
        }
        proof {
            if old(self).wf() {
                lemma_stepped_wf(*old(self), seed);
            }
        }
    }
}

impl PartialEq for SnakeGame {
    fn eq(&self, other: &Self) -> (r: bool) {
        same_cell(self.head, other.head) && same_cell(self.fruit, other.fruit) && same_cell(
            self.obstacles[0],
            other.obstacles[0],
        ) && same_cell(self.obstacles[1], other.obstacles[1]) && same_cell(
            self.obstacles[2],
            other.obstacles[2],
        ) && self.dir == other.dir && self.score == other.score && self.speed_ms == other.speed_ms
            && self.game_over == other.game_over
    }
}

impl Eq for SnakeGame {
}

impl PartialEqSpecImpl for SnakeGame {
    open spec fn obeys_eq_spec() -> bool {
        true
    }

    open spec fn eq_spec(&self, other: &SnakeGame) -> bool {
        self.same_fields(*other)
    }
}

/// `==` on games holds exactly when the games are the same.
pub proof fn lemma_same_fields_is_equality(g: SnakeGame, h: SnakeGame)
    ensures
        g.same_fields(h) <==> g == h,
{
    if g.same_fields(h) {
        assert(g.obstacles =~= h.obstacles);
    }
}

/// A new game is well-formed.
pub proof fn lemma_initial_wf(seed: u64)
    ensures
        SnakeGame::initial(seed).wf(),
{
    let head = (2u8, 2u8);
    let (o0, s1) = place(seed, seq![head]);
    let (o1, s2) = place(s1, seq![head, o0]);
    let (o2, s3) = place(s2, seq![head, o0, o1]);
    lemma_place(seed, seq![head]);
    lemma_place(s1, seq![head, o0]);
    lemma_place(s2, seq![head, o0, o1]);
    lemma_place(s3, seq![head, o0, o1, o2]);
    assert(seq![head, o0, o1].contains(o0));
    assert(seq![head, o0, o1].contains(o1));
    assert(seq![head, o0, o1].contains(head));
    assert(seq![head, o0].contains(head));
    assert(seq![head, o0].contains(o0));
    let g = SnakeGame::initial(seed);
    assert(g.obstacles@ =~= seq![o0, o1, o2]);
    assert(g.taken() =~= seq![head, o0, o1, o2]);
    if g.obstacles@.contains(head) {
        let i = choose|i: int| 0 <= i < 3 && g.obstacles@[i] == head;
        assert(i == 0 || i == 1 || i == 2);
    }
}

/// A step keeps a game well-formed.
pub proof fn lemma_stepped_wf(g: SnakeGame, seed: u64)
    requires
        g.wf(),
        !g.step_overflows(),
    ensures
        g.stepped(seed).wf(),
{
    let h = g.stepped(seed);
    let nh = next_head(g.head, g.dir);
    assert(g.taken() =~= seq![g.head] + g.obstacles@);
    assert(h.taken() =~= seq![h.head] + h.obstacles@);
    assert(!g.obstacles@.contains(g.fruit)) by {
        if g.obstacles@.contains(g.fruit) {
            let i = choose|i: int| 0 <= i < 3 && g.obstacles@[i] == g.fruit;
            assert(g.taken()[i + 1] == g.fruit);
        }
    }
    if !g.game_over && !g.obstacles@.contains(nh) && nh == g.fruit {
        assert(h.taken() =~= seq![nh] + g.obstacles@);
        lemma_place(seed, seq![nh] + g.obstacles@);
    }
    if h.taken().contains(h.fruit) {
        let i = choose|i: int| 0 <= i < 4 && h.taken()[i] == h.fruit;
        if i > 0 {
            assert(h.obstacles@[i - 1] == h.fruit);
        }
    }
}

/// Draws cells with the generator until one is not in `blocked` (see `place`).
fn find_open_cell(seed: &mut u64, blocked: &[(u8, u8)]) -> (p: (u8, u8))
    ensures
        (p, *final(seed)) == place(*old(seed), blocked@),
{
    let ghost start = *seed;
    reveal(place);
    let mut tries: u32 = 0;
    while tries < MAX_DRAWS
        invariant
            tries <= MAX_DRAWS,
            start == *old(seed),
            place(start, blocked@) == search_open_cell(*seed, blocked@, (MAX_DRAWS - tries) as nat),
        decreases MAX_DRAWS - tries,
    {
        let ghost before = *seed;
        let x = (SnakeGame::rand(seed) % 5) as u8;
        let y = (SnakeGame::rand(seed) % 5) as u8;
        assert(((x, y), *seed) == draw_cell(before));
        assert(search_open_cell(before, blocked@, (MAX_DRAWS - tries) as nat) == (if !blocked@.contains((x, y)) {
            ((x, y), *seed)
        } else {
            search_open_cell(*seed, blocked@, (MAX_DRAWS - tries - 1) as nat)
        }));
        if !cell_in(blocked, (x, y)) {
            return (x, y);
        }
        tries = tries + 1;
    }
    first_open_cell(blocked)
}

/// The first cell in row-major order that `blocked` does not hold.
fn first_open_cell(blocked: &[(u8, u8)]) -> (p: (u8, u8))
    ensures
        p == first_open_from(blocked@, 0),
{
    let mut k: u8 = 0;
    while k < 25
        invariant
            k <= 25,
            first_open_from(blocked@, 0) == first_open_from(blocked@, k as int),
        decreases 25 - k,
    {
        let c: (u8, u8) = (k % 5, k / 5);
        assert(c == cell_at(k as int));
        if !cell_in(blocked, c) {
            return c;
        }
        k = k + 1;
    }
    (0, 0)
}

} // verus!
