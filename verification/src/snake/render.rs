//! How a snake game looks on the 5x5 LED matrix.

use vstd::prelude::*;
use crate::grid::cell_index;
use super::game::SnakeGame;

verus! {

/// The colour of matrix position `i` (row-major) for a game: dim red everywhere
/// once the game is over; else the head yellow, the fruit green, obstacles blue,
/// the rest dark, the head drawn over the fruit and the fruit over an obstacle.
pub open spec fn snake_pixel(game: SnakeGame, i: int) -> (u8, u8, u8) {
    if game.game_over {
        (2, 0, 0)
    } else if i == cell_index(game.head) {
        (10, 10, 0)
    } else if i == cell_index(game.fruit) {
        (0, 10, 0)
    } else if exists|j: int| 0 <= j < 3 && cell_index(#[trigger] game.obstacles@[j]) == i {
        (0, 0, 10)
    } else {
        (0, 0, 0)
    }
}

/// Whether every item of a running game has a position on the matrix.
pub open spec fn drawable(game: SnakeGame) -> bool {
    !game.game_over ==> {
        &&& cell_index(game.head) < 25
        &&& cell_index(game.fruit) < 25
        &&& forall|j: int| 0 <= j < 3 ==> cell_index(#[trigger] game.obstacles@[j]) < 25
    }
}

/// Every well-formed game can be drawn.
pub proof fn lemma_wf_drawable(game: SnakeGame)
    requires
        game.wf(),
    ensures
        drawable(game),
{
}

/// The 25 colours (red, green, blue), row-major, that show a game.
pub fn draw_frame(game: &SnakeGame) -> (pixels: [(u8, u8, u8); 25])
    requires
        drawable(*game),
    ensures
        forall|i: int| 0 <= i < 25 ==> #[trigger] pixels@[i] == snake_pixel(*game, i),
{
    let mut pixels: [(u8, u8, u8); 25] = [(0, 0, 0); 25];
    if game.game_over {
        let mut i: usize = 0;
        while i < 25
            invariant
                i <= 25,
                game.game_over,
                forall|k: int| 0 <= k < i ==> #[trigger] pixels@[k] == (2u8, 0u8, 0u8),
            decreases 25 - i,
        {
            pixels[i] = (2, 0, 0);
            i = i + 1;
        }
    } else {
        let mut j: usize = 0;
        while j < 3
            invariant
                j <= 3,
                drawable(*game),
                !game.game_over,
                forall|k: int| 0 <= k < 25 ==> #[trigger] pixels@[k] == (if exists|m: int|
                    0 <= m < j && cell_index(#[trigger] game.obstacles@[m]) == k {
                    (0u8, 0u8, 10u8)
                } else {
                    (0u8, 0u8, 0u8)
                }),
            decreases 3 - j,
        {
            let obs = game.obstacles[j];
            let idx: usize = (obs.1 as usize * 5) + obs.0 as usize;
            assert(idx == cell_index(game.obstacles@[j as int]));
            pixels[idx] = (0, 0, 10);
            assert forall|k: int| 0 <= k < 25 implies #[trigger] pixels@[k] == (if exists|m: int|
                0 <= m < j + 1 && cell_index(#[trigger] game.obstacles@[m]) == k {
                (0u8, 0u8, 10u8)
            } else {
                (0u8, 0u8, 0u8)
            }) by {
                if k == idx {
                    assert(cell_index(game.obstacles@[j as int]) == k);
                }
            }
            j = j + 1;
        }
        let f_idx: usize = (game.fruit.1 as usize * 5) + game.fruit.0 as usize;
        pixels[f_idx] = (0, 10, 0);
        let h_idx: usize = (game.head.1 as usize * 5) + game.head.0 as usize;
        pixels[h_idx] = (10, 10, 0);
    }
    pixels
}

} // verus!
