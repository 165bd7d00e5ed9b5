//! Rules of the flappy-bird game on the 5x5 board: the bird flies in column 1,
//! a pipe with a two-cell gap scrolls from right to left.

use vstd::prelude::*;
use vstd::wrapping::u32_specs;
use vstd::arithmetic::div_mod::{lemma_add_mod_noop, lemma_mod_multiples_vanish, lemma_small_mod};

verus! {

/// Multiplier of the generator that picks the gap of each pipe.
pub const GAP_MUL: u32 = 1103515245;

/// Increment of the generator that picks the gap of each pipe.
pub const GAP_INC: u32 = 12345;

/// One step of the gap generator: `seed * GAP_MUL + GAP_INC`, wrapping.
pub open spec fn gap_rng_next(seed: u32) -> u32 {
    u32_specs::wrapping_add(u32_specs::wrapping_mul(seed, GAP_MUL), GAP_INC)
}

/// The lower cell of the gap that a generator state gives: 1, 2 or 3.
pub open spec fn gap_of(seed: u32) -> i32 {
    ((seed % 3) + 1) as i32
}

/// Whether the bird, in column 1 with the pipe, misses the gap (rows
/// `pipe_gap - 1` and `pipe_gap`).
pub open spec fn hits_pipe(bird_y: int, pipe_x: int, pipe_gap: int) -> bool {
    pipe_x == 1 && bird_y != pipe_gap && bird_y != pipe_gap - 1
}

/// Everything a flappy-bird game holds, the queued jump and the state of the gap
/// generator included.
#[derive(Clone, Copy, Debug, PartialEq, Eq, Structural)]
pub struct FlappyModel {
    pub bird_y: i32,
    pub pipe_x: i32,
    pub pipe_gap: i32,
    pub score: u32,
    pub game_over: bool,
    pub speed_ms: u32,
    pub jump_queued: bool,
    pub rng_seed: u32,
}

impl FlappyModel {
    /// A new game for a seed: the bird in row 2, the pipe in column 4, a 400 ms
    /// delay, and the first gap from the generator started at the seed's low 32 bits.
    pub open spec fn initial(seed: u64) -> FlappyModel {
        let r = gap_rng_next(seed as u32);
        FlappyModel {
            bird_y: 2,
            pipe_x: 4,
            pipe_gap: gap_of(r),
            score: 0,
            game_over: false,
            speed_ms: 400,
            jump_queued: false,
            rng_seed: r,
        }
    }

    /// The game after the buttons: any button down queues a jump while the game runs.
    pub open spec fn with_input(self, a: bool, b: bool, joy: bool) -> FlappyModel {
        if (a || b || joy) && !self.game_over {
            FlappyModel { jump_queued: true, ..self }
        } else {
            self
        }
    }

    /// The bird's row after the next step: one up after a jump, else one down.
    pub open spec fn next_bird_y(self) -> int {
        if self.jump_queued { self.bird_y - 1 } else { self.bird_y + 1 }
    }

    /// Whether a step overflows on this game.
    pub open spec fn step_overflows(self) -> bool {
        let y = self.next_bird_y();
        let x = self.pipe_x - 1;
        !self.game_over && {
            ||| y < i32::MIN || y > i32::MAX
            ||| x < i32::MIN
            ||| (0 <= y <= 4 && x == 1 && y != self.pipe_gap && self.pipe_gap == i32::MIN)
            ||| (0 <= y <= 4 && !hits_pipe(y, x, self.pipe_gap as int) && x < 0
                && self.score == u32::MAX)
        }
    }

    /// One step: the bird moves, the pipe moves one column left; leaving rows
    /// 0 to 4 or missing the gap ends the game; a pipe that leaves the board
    /// scores a point and comes back at column 4 with a new gap, and the game
    /// speeds up by 15 ms while slower than 150 ms. A finished game does not change.
    pub open spec fn stepped(self) -> FlappyModel {
        let y = self.next_bird_y() as i32;
        let x = (self.pipe_x - 1) as i32;
        let moved = FlappyModel { bird_y: y, pipe_x: x, jump_queued: false, ..self };
        if self.game_over {
            self
        } else if y < 0 || y > 4 || hits_pipe(y as int, x as int, self.pipe_gap as int) {
            FlappyModel { game_over: true, ..moved }
        } else if x < 0 {
            let r = gap_rng_next(self.rng_seed);
            FlappyModel {
                pipe_x: 4,
                score: (self.score + 1) as u32,
                rng_seed: r,
                pipe_gap: gap_of(r),
                speed_ms: if self.speed_ms > 150 { (self.speed_ms - 15) as u32 } else { self.speed_ms },
                ..moved
            }
        } else {
            moved
        }
    }

    /// Well-formed game: the gap's low cell in rows 1 to 3; a delay from 145 to
    /// 400 ms that is 10 more than a multiple of 15; while the game runs, the
    /// bird and the pipe on the board and the bird inside the gap when the pipe
    /// is in its column; once it is over, the bird between rows -1 and 5 and the
    /// pipe between columns -1 and 4.
    pub open spec fn wf(self) -> bool {
        &&& 1 <= self.pipe_gap <= 3
        &&& 145 <= self.speed_ms <= 400
        &&& self.speed_ms % 15 == 10
        &&& !self.game_over ==> {
            &&& 0 <= self.bird_y <= 4
            &&& 0 <= self.pipe_x <= 4
            &&& self.pipe_x == 1 ==> self.bird_y == self.pipe_gap || self.bird_y == self.pipe_gap - 1
        }
        &&& self.game_over ==> -1 <= self.bird_y <= 5 && -1 <= self.pipe_x <= 4
    }
}

#[derive(Clone, Copy, Debug, PartialEq, Eq, Structural)]
pub struct FlappyGame {
    pub bird_y: i32,
    pub pipe_x: i32,
    pub pipe_gap: i32,
    pub score: u32,
    pub game_over: bool,
    pub speed_ms: u32,
    pub jump_queued: bool,
    pub rng_seed: u32,
}

impl View for FlappyGame {
    type V = FlappyModel;

    open spec fn view(&self) -> FlappyModel {
        FlappyModel {
            bird_y: self.bird_y,
            pipe_x: self.pipe_x,
            pipe_gap: self.pipe_gap,
            score: self.score,
            game_over: self.game_over,
            speed_ms: self.speed_ms,
            jump_queued: self.jump_queued,
            rng_seed: self.rng_seed,
        }
    }
}

impl FlappyGame {
    /// The game that holds exactly what a model says.
    pub open spec fn from_model(m: FlappyModel) -> FlappyGame {
        FlappyGame {
            bird_y: m.bird_y,
            pipe_x: m.pipe_x,
            pipe_gap: m.pipe_gap,
            score: m.score,
            game_over: m.game_over,
            speed_ms: m.speed_ms,
            jump_queued: m.jump_queued,
            rng_seed: m.rng_seed,
        }
    }

    /// A game is the game of its model, and a model is the model of its game:
    /// two games are equal exactly when their models are.
    pub proof fn lemma_model_roundtrip(g: FlappyGame, m: FlappyModel)
        ensures
            Self::from_model(g@) == g,
            Self::from_model(m)@ == m,
    {
    }

    /// A copy of everything the game holds.
    pub fn model(&self) -> (m: FlappyModel)
        ensures
            m == self@,
    {
        FlappyModel {
            bird_y: self.bird_y,
            pipe_x: self.pipe_x,
            pipe_gap: self.pipe_gap,
            score: self.score,
            game_over: self.game_over,
            speed_ms: self.speed_ms,
            jump_queued: self.jump_queued,
            rng_seed: self.rng_seed,
        }
    }

    /// Starts a game (see `FlappyModel::initial`).
    pub fn new(seed: u64) -> (g: Self)
        ensures
            g@ == FlappyModel::initial(seed),
            g@.wf(),
    {
        let mut game = Self {
            bird_y: 2,
            pipe_x: 4,
            pipe_gap: 2,
            score: 0,
            game_over: false,
            speed_ms: 400,
            jump_queued: false,
            rng_seed: seed as u32,
        };
        game.randomize_gap();
        game
    }

    /// Advances the gap generator and takes the new gap from it.
    fn randomize_gap(&mut self)
        ensures
            final(self).rng_seed == gap_rng_next(old(self).rng_seed),
            *final(self) == (FlappyGame {
                rng_seed: gap_rng_next(old(self).rng_seed),
                pipe_gap: gap_of(gap_rng_next(old(self).rng_seed)),
                ..*old(self)
            }),
    {
        self.rng_seed = self.rng_seed.wrapping_mul(GAP_MUL).wrapping_add(GAP_INC);
        self.pipe_gap = (self.rng_seed % 3) as i32 + 1;
    }

    /// Queues a jump when any button is down and the game still runs.
    pub fn input(&mut self, a: bool, b: bool, joy: bool)
        ensures
            final(self)@ == old(self)@.with_input(a, b, joy),
            old(self)@.wf() ==> final(self)@.wf(),
    {
        if (a || b || joy) && !self.game_over {
            self.jump_queued = true;
        }
    }

    /// Whether `step` would overflow on this game (see `FlappyModel::step_overflows`).
    pub fn would_step_overflow(&self) -> (r: bool)
        ensures
            r == self@.step_overflows(),
    {
        if self.game_over {
            return false;
        }
        let y: i64 = if self.jump_queued { self.bird_y as i64 - 1 } else { self.bird_y as i64 + 1 };
        let x: i64 = self.pipe_x as i64 - 1;
        if y < i32::MIN as i64 || y > i32::MAX as i64 || x < i32::MIN as i64 {
            return true;
        }
        if 0 <= y && y <= 4 {
            let gap = self.pipe_gap as i64;
            if x == 1 && y != gap && gap == i32::MIN as i64 {
                return true;
            }
            let hits = x == 1 && y != gap && y != gap - 1;
            if !hits && x < 0 && self.score == u32::MAX {
                return true;
            }
        }
        false
    }

    /// Advances the game by one step (see `FlappyModel::stepped`); the time
    /// argument plays no part.
    pub fn step(&mut self, _now_ticks: u64)
        requires
            !old(self)@.step_overflows(),
        ensures
            final(self)@ == old(self)@.stepped(),
            old(self)@.wf() ==> final(self)@.wf(),
    {
        if self.game_over {
            return;
        }
        if self.jump_queued {
            self.bird_y -= 1;
            self.jump_queued = false;
        } else {
            self.bird_y += 1;
        }
        self.pipe_x -= 1;
        if self.bird_y < 0 || self.bird_y > 4 {
            self.game_over = true;
            return;
        }
        if self.pipe_x == 1 {
            if self.bird_y != self.pipe_gap && self.bird_y != (self.pipe_gap - 1) {
                self.game_over = true;
                return;
            }
        }
        if self.pipe_x < 0 {
            self.pipe_x = 4;
            self.score += 1;
            self.randomize_gap();
            if self.speed_ms > 150 {
                self.speed_ms -= 15;
            }
        }
    }
}

/// A new game is well-formed, and the buttons and a step keep a game well-formed.
pub proof fn lemma_wf_kept(m: FlappyModel, seed: u64, a: bool, b: bool, joy: bool)
    ensures
        FlappyModel::initial(seed).wf(),
        m.wf() ==> m.with_input(a, b, joy).wf(),
        m.wf() ==> m.stepped().wf(),
{
}

/// A finished game stays as it is: buttons queue no jump and steps change nothing.
pub proof fn lemma_game_over_is_final(g: FlappyModel, a: bool, b: bool, joy: bool)
    requires
        g.game_over,
    ensures
        g.with_input(a, b, joy) == g,
        g.stepped() == g,
        !g.step_overflows(),
{
}

/// The gap generator is the linear congruence `seed * 1103515245 + 12345`
/// modulo 2^32, and the gap is that number modulo 3, plus 1.
pub proof fn lemma_gap_generator(seed: u32)
    ensures
        gap_rng_next(seed) as int == (seed as int * 1103515245 + 12345) % 0x1_0000_0000,
        gap_of(gap_rng_next(seed)) as int == (gap_rng_next(seed) as int % 3) + 1,
        1 <= gap_of(gap_rng_next(seed)) <= 3,
{
    let m: int = 0x1_0000_0000;
    let p: int = seed as int * 1103515245;
    let v = p % m;
    assert(u32_specs::wrapping_mul(seed, GAP_MUL) as int == v);
    lemma_add_mod_noop(p, 12345, m);
    lemma_small_mod(12345, m as nat);
    if v + 12345 < m {
        lemma_small_mod((v + 12345) as nat, m as nat);
    } else {
        lemma_mod_multiples_vanish(1, v + 12345 - m, m);
        lemma_small_mod((v + 12345 - m) as nat, m as nat);
    }
}

/// While the game runs and the bird stays on the board, a step moves the bird
/// one row up after a jump and one row down otherwise, and clears the jump.
/// A pipe in column 1 or beyond moves one column left, and the game ends
/// exactly when the pipe reaches column 1 with the bird outside its gap. A
/// pipe that leaves the board comes back in column 4 with one more point,
/// the generator advanced once (`lemma_gap_generator`) and the gap taken from
/// it, and 15 ms less delay while the delay is over 150 ms.
pub proof fn lemma_step_moves(m: FlappyModel)
    requires
        !m.game_over,
        0 <= (if m.jump_queued { m.bird_y - 1 } else { m.bird_y + 1 }) <= 4,
        m.pipe_x > i32::MIN,
        m.score < u32::MAX,
    ensures
        m.stepped().bird_y == (if m.jump_queued { m.bird_y - 1 } else { m.bird_y + 1 }),
        !m.stepped().jump_queued,
        m.pipe_x >= 1 ==> m.stepped().pipe_x == m.pipe_x - 1 && m.stepped().score == m.score
            && m.stepped().pipe_gap == m.pipe_gap && m.stepped().rng_seed == m.rng_seed
            && m.stepped().speed_ms == m.speed_ms,
        m.pipe_x >= 1 ==> (m.stepped().game_over <==> (m.pipe_x == 2 && m.stepped().bird_y != m.pipe_gap
            && m.stepped().bird_y != m.pipe_gap - 1)),
        m.pipe_x < 1 ==> {
            &&& !m.stepped().game_over
            &&& m.stepped().pipe_x == 4
            &&& m.stepped().score == m.score + 1
            &&& m.stepped().rng_seed as int == (m.rng_seed as int * 1103515245 + 12345) % 0x1_0000_0000
            &&& m.stepped().pipe_gap as int == (m.stepped().rng_seed as int % 3) + 1
            &&& m.stepped().speed_ms == (if m.speed_ms > 150 { m.speed_ms - 15 } else { m.speed_ms as int })
        },
{
    lemma_gap_generator(m.rng_seed);
}

/// A new game starts its gap generator at the seed's low 32 bits advanced once.
pub proof fn lemma_initial_gap(seed: u64)
    ensures
        FlappyModel::initial(seed).rng_seed as int == ((seed as int % 0x1_0000_0000) * 1103515245 + 12345)
            % 0x1_0000_0000,
        FlappyModel::initial(seed).pipe_gap as int == (FlappyModel::initial(seed).rng_seed as int % 3) + 1,
        FlappyModel::initial(seed).bird_y == 2,
        FlappyModel::initial(seed).pipe_x == 4,
        FlappyModel::initial(seed).score == 0,
        FlappyModel::initial(seed).speed_ms == 400,
        !FlappyModel::initial(seed).game_over,
        !FlappyModel::initial(seed).jump_queued,
{
    lemma_gap_generator(seed as u32);
    assert((seed as u32) as int == seed as int % 0x1_0000_0000) by (bit_vector);
}

/// Two equal games stay equal after a step each, whatever time each step is
/// given: `FlappyGame::step` ensures its result from the game alone.
pub proof fn lemma_step_ignores_time(g: FlappyGame, h: FlappyGame, t1: u64, t2: u64)
    requires
        g == h,
    ensures
        g@.stepped() == h@.stepped(),
{
}

/// Neither the buttons nor a step lower the score or raise the delay.
pub proof fn lemma_step_monotone(m: FlappyModel, a: bool, b: bool, joy: bool)
    requires
        !m.step_overflows(),
    ensures
        m.stepped().score >= m.score,
        m.stepped().speed_ms <= m.speed_ms,
        m.with_input(a, b, joy).score == m.score,
        m.with_input(a, b, joy).speed_ms == m.speed_ms,
{
}

/// A well-formed game that has not reached the highest score can always step.
pub proof fn lemma_wf_step_defined(g: FlappyModel)
    requires
        g.wf(),
        g.score < u32::MAX,
    ensures
        !g.step_overflows(),
{
}

} // verus!
