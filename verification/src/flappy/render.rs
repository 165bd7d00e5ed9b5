//! How a flappy-bird game looks on the 5x5 LED matrix.

use vstd::prelude::*;
use super::game::{FlappyGame, FlappyModel};

verus! {

/// The colour of matrix position `i` (row-major) for a game: red everywhere once
/// the game is over; else the bird orange in column 1, the pipe green in its
/// column except at the gap rows, the bird drawn over the pipe, the rest dark.
pub open spec fn flappy_pixel(game: FlappyModel, i: int) -> (u8, u8, u8) {
    if game.game_over {
        (10, 0, 0)
    } else if 0 <= game.bird_y < 5 && i == game.bird_y * 5 + 1 {
        (10, 5, 0)
    } else if 0 <= game.pipe_x < 5 && i % 5 == game.pipe_x && i / 5 != game.pipe_gap
        && i / 5 != game.pipe_gap - 1 {
        (0, 5, 0)
    } else {
        (0, 0, 0)
    }
}

/// The pipe as drawn on the rows above `y`.
spec fn pipe_rows(game: FlappyModel, y: int, k: int) -> (u8, u8, u8) {
    if k / 5 < y && k % 5 == game.pipe_x && k / 5 != game.pipe_gap && k / 5 != game.pipe_gap - 1 {
        (0, 5, 0)
    } else {
        (0, 0, 0)
    }
}

/// The 25 colours (red, green, blue), row-major, that show a game.
pub fn draw_frame(game: &FlappyGame) -> (pixels: [(u8, u8, u8); 25])
    requires
        !game@.game_over && 0 <= game@.pipe_x < 5 ==> game@.pipe_gap > i32::MIN,
    ensures
        forall|i: int| 0 <= i < 25 ==> #[trigger] pixels@[i] == flappy_pixel(game@, i),
{
    let ghost g = game@;
    let game = game.model();
    if game.game_over {
        return [(10, 0, 0); 25];
    }
    let mut pixels: [(u8, u8, u8); 25] = [(0, 0, 0); 25];
    let color_pipe: (u8, u8, u8) = (0, 5, 0);
    let color_bird: (u8, u8, u8) = (10, 5, 0);
    if game.pipe_x >= 0 && game.pipe_x < 5 {
        let mut y: i32 = 0;
        while y < 5
            invariant
                0 <= y <= 5,
                0 <= game.pipe_x < 5,
                game.pipe_gap > i32::MIN,
                color_pipe == (0u8, 5u8, 0u8),
                forall|k: int| 0 <= k < 25 ==> #[trigger] pixels@[k] == pipe_rows(game, y as int, k),
            decreases 5 - y,
        {
            let ghost before = pixels@;
            if y != game.pipe_gap && y != (game.pipe_gap - 1) {
                let idx = (y * 5 + game.pipe_x) as usize;
                pixels[idx] = color_pipe;
                assert(idx as int / 5 == y && idx as int % 5 == game.pipe_x);
            }
            assert forall|k: int| 0 <= k < 25 implies #[trigger] pixels@[k] == pipe_rows(game, y + 1, k) by {
                assert(k == (k / 5) * 5 + k % 5);
                assert(before[k] == pipe_rows(game, y as int, k));
                if k / 5 == y && k % 5 == game.pipe_x && y != game.pipe_gap && y != game.pipe_gap - 1 {
                    assert(k == y * 5 + game.pipe_x);
                } else {
                    assert(pixels@[k] == before[k]);
                }
            }
            y = y + 1;
        }
    }
    if game.bird_y >= 0 && game.bird_y < 5 {
        let bird_idx = (game.bird_y * 5 + 1) as usize;
        pixels[bird_idx] = color_bird;
    }
    pixels
}

} // verus!
