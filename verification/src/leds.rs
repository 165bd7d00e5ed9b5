//! What the 5x5 LED matrix shows: pictures, game frames and the heart
//! animation, turned into the 24-bit words that the LED chain takes.
//!
//! The task that shifts the words out through the PIO state machine runs
//! outside this library; each time the device state changes it asks
//! `leds_update` what to show.

use vstd::prelude::*;
use vstd::string::StringSliceAdditionalSpecFns;
use crate::arts::{art, art_spec, heart_frame, heart_frame_spec, HEART_FRAMES, lemma_led_map, lemma_physical_led_involution, lemma_row, physical_led, shaped, LED_MAP};
use crate::flappy::game::FlappyModel;
use crate::flappy::render::{draw_frame as draw_flappy, flappy_pixel};
use crate::snake::game::SnakeGame;
use crate::snake::render::{draw_frame as draw_snake, drawable, snake_pixel};
use crate::grid::cell_index;
use crate::state::AppState;

verus! {

/// The art id that means "no picture shown".
pub const NO_ART: u8 = 255;

/// Bits per second of the LED chain.
pub const LED_BIT_RATE: u32 = 800000;

/// PIO cycles per bit of the LED chain.
pub const CYCLES_PER_BIT: u32 = 10;

/// The colour (red, green, blue) of a picture character: R red, G green, B blue,
/// Y yellow, P purple, C cyan, W white, O orange, L lime; anything else is dark.
pub open spec fn glyph_color(c: u8) -> (u8, u8, u8) {
    if c == 82 {  // 'R'
        (10, 0, 0)
    } else if c == 71 {  // 'G'
        (0, 5, 0)
    } else if c == 66 {  // 'B'
        (0, 0, 3)
    } else if c == 89 {  // 'Y'
        (10, 5, 0)
    } else if c == 80 {  // 'P'
        (10, 0, 3)
    } else if c == 67 {  // 'C'
        (0, 5, 3)
    } else if c == 87 {  // 'W'
        (10, 5, 3)
    } else if c == 79 {  // 'O'
        (10, 2, 0)
    } else if c == 76 {  // 'L'
        (5, 3, 0)
    } else {
        (0, 0, 0)
    }
}

/// The word that sets one LED: green, red and blue bytes, in that order, in the
/// top 24 bits.
pub open spec fn led_word(c: (u8, u8, u8)) -> u32 {
    (c.1 as int * 0x1000000 + c.0 as int * 0x10000 + c.2 as int * 0x100) as u32
}

/// The colour of position `i` (row-major) of a picture.
pub open spec fn frame_pixel(rows: [&str; 5], i: int) -> (u8, u8, u8) {
    glyph_color(rows@[i / 5].spec_bytes()[i % 5])
}

/// Whether 25 words drive every LED `p` with the colour that `pixel` gives the
/// picture position wired to it.
pub open spec fn drives(words: [u32; 25], pixel: spec_fn(int) -> (u8, u8, u8)) -> bool {
    forall|p: int| 0 <= p < 25 ==> #[trigger] words@[p] == led_word(pixel(physical_led(p)))
}

/// The word for one colour.
fn grb_word(r: u8, g: u8, b: u8) -> (w: u32)
    ensures
        w == led_word((r, g, b)),
{
    let (r32, g32, b32) = (r as u32, g as u32, b as u32);
    let w = ((g32 << 16) | (r32 << 8) | b32) << 8;
    assert(w == g32 * 0x1000000 + r32 * 0x10000 + b32 * 0x100) by (bit_vector)
        requires
            w == ((g32 << 16) | (r32 << 8) | b32) << 8,
            g32 < 256,
            r32 < 256,
            b32 < 256,
    ;
    w
}

/// Positions `v` and `u` of the picture have different LEDs unless equal.
proof fn lemma_led_injective(v: int, u: int)
    requires
        0 <= v < 25,
        0 <= u < 25,
        physical_led(v) == physical_led(u),
    ensures
        v == u,
{
    lemma_physical_led_involution(v);
    lemma_physical_led_involution(u);
}

/// From "each position's word sits at its LED" to "each LED holds its position's word".
proof fn lemma_drives(words: [u32; 25], pixel: spec_fn(int) -> (u8, u8, u8))
    requires
        forall|v: int| 0 <= v < 25 ==> #[trigger] words@[physical_led(v)] == led_word(pixel(v)),
    ensures
        drives(words, pixel),
{
    assert forall|p: int| 0 <= p < 25 implies #[trigger] words@[p] == led_word(pixel(physical_led(p))) by {
        lemma_physical_led_involution(p);
        let v = physical_led(p);
        assert(words@[physical_led(v)] == led_word(pixel(v)));
    }
}

/// The words that show a picture.
pub fn parse_frame(art: &[&str; 5]) -> (words: [u32; 25])
    requires
        shaped(*art),
    ensures
        drives(words, |i: int| frame_pixel(*art, i)),
{
    let mut hardware_data: [u32; 25] = [0u32; 25];
    let b: [u8; 3] = [10, 5, 3];
    proof {
        lemma_led_map();
    }
    let mut y: usize = 0;
    while y < 5
        invariant
            y <= 5,
            shaped(*art),
            b@ == seq![10u8, 5u8, 3u8],
            forall|i: int| 0 <= i < 25 ==> #[trigger] LED_MAP@[i] == physical_led(i),
            forall|v: int| 0 <= v < y * 5 ==> #[trigger] hardware_data@[physical_led(v)] == led_word(
                frame_pixel(*art, v),
            ),
        decreases 5 - y,
    {
        let row: &[u8] = art[y].as_bytes();
        assert(row@.len() >= 5);
        let mut x: usize = 0;
        while x < 5
            invariant
                y < 5,
                x <= 5,
                row@ == art@[y as int].spec_bytes(),
                row@.len() >= 5,
                b@ == seq![10u8, 5u8, 3u8],
                forall|i: int| 0 <= i < 25 ==> #[trigger] LED_MAP@[i] == physical_led(i),
                forall|v: int| 0 <= v < y * 5 + x ==> #[trigger] hardware_data@[physical_led(v)]
                    == led_word(frame_pixel(*art, v)),
            decreases 5 - x,
        {
            let color: (u8, u8, u8) = match row[x] {
                82 => (b[0], 0, 0),  // 'R'
                71 => (0, b[1], 0),  // 'G'
                66 => (0, 0, b[2]),  // 'B'
                89 => (b[0], b[1], 0),  // 'Y'
                80 => (b[0], 0, b[2]),  // 'P'
                67 => (0, b[1], b[2]),  // 'C'
                87 => (b[0], b[1], b[2]),  // 'W'
                79 => (b[0], b[1] / 2, 0),  // 'O'
                76 => (b[1], b[2], 0),  // 'L'
                _ => (0, 0, 0),
            };
            let visual_index: usize = y * 5 + x;
            assert(visual_index as int / 5 == y && visual_index as int % 5 == x);
            assert(color == frame_pixel(*art, visual_index as int));
            let word = grb_word(color.0, color.1, color.2);
            let physical_led_index: usize = LED_MAP[visual_index];
            let ghost before = hardware_data@;
            hardware_data[physical_led_index] = word;
            assert forall|v: int| 0 <= v < y * 5 + x + 1 implies #[trigger] hardware_data@[physical_led(v)]
                == led_word(frame_pixel(*art, v)) by {
                if v != visual_index {
                    lemma_physical_led_involution(v);
                    if physical_led(v) == physical_led(visual_index as int) {
                        lemma_led_injective(v, visual_index as int);
                    }
                    assert(hardware_data@[physical_led(v)] == before[physical_led(v)]);
                }
            }
            x = x + 1;
        }
        y = y + 1;
    }
    proof {
        lemma_drives(hardware_data, |i: int| frame_pixel(*art, i));
    }
    hardware_data
}

/// The words that show picture `id` (see `crate::arts::art_spec`).
pub fn parse_art(id: u8) -> (words: [u32; 25])
    requires
        id < 11,
    ensures
        drives(words, |i: int| frame_pixel(art_spec(id), i)),
{
    parse_frame(&art(id))
}

/// The words that show 25 colours given row-major.
pub fn frame_to_hardware(rgb_pixels: &[(u8, u8, u8); 25]) -> (words: [u32; 25])
    ensures
        drives(words, |i: int| rgb_pixels@[i]),
{
    let mut hardware_data: [u32; 25] = [0u32; 25];
    proof {
        lemma_led_map();
    }
    let mut visual_index: usize = 0;
    while visual_index < 25
        invariant
            visual_index <= 25,
            forall|i: int| 0 <= i < 25 ==> #[trigger] LED_MAP@[i] == physical_led(i),
            forall|v: int| 0 <= v < visual_index ==> #[trigger] hardware_data@[physical_led(v)]
                == led_word(rgb_pixels@[v]),
        decreases 25 - visual_index,
    {
        let (r, g, b) = rgb_pixels[visual_index];
        let word = grb_word(r, g, b);
        let physical_led_index: usize = LED_MAP[visual_index];
        let ghost before = hardware_data@;
        hardware_data[physical_led_index] = word;
        assert forall|v: int| 0 <= v < visual_index + 1 implies #[trigger] hardware_data@[physical_led(v)]
            == led_word(rgb_pixels@[v]) by {
            if v != visual_index {
                lemma_physical_led_involution(v);
                if physical_led(v) == physical_led(visual_index as int) {
                    lemma_led_injective(v, visual_index as int);
                }
                assert(hardware_data@[physical_led(v)] == before[physical_led(v)]);
            }
        }
        visual_index = visual_index + 1;
    }
    proof {
        lemma_drives(hardware_data, |i: int| rgb_pixels@[i]);
    }
    hardware_data
}

/// Milliseconds that each frame of the heart animation stays up.
pub const HEART_FRAME_MS: u64 = 150;

/// The words of the heart animation, frame by frame in the order they are
/// shown, each held for `HEART_FRAME_MS`: frame `k` shows `heart_frame_spec(k)`.
pub fn heart_animation() -> (frames: [[u32; 25]; 6])
    ensures
        forall|k: int| 0 <= k < 6 ==> drives(#[trigger] frames@[k], |i: int| frame_pixel(heart_frame_spec(k), i)),
{
    let mut frames: [[u32; 25]; 6] = [[0u32; 25]; 6];
    let mut k: usize = 0;
    while k < HEART_FRAMES
        invariant
            k <= HEART_FRAMES,
            forall|j: int| 0 <= j < k ==> drives(#[trigger] frames@[j], |i: int| frame_pixel(heart_frame_spec(j), i)),
        decreases HEART_FRAMES - k,
    {
        let words = parse_frame(&heart_frame(k));
        frames[k] = words;
        k = k + 1;
    }
    frames
}

/// What the LED task does for a state: show 25 words, play the heart
/// animation (see `heart_animation`), or leave the matrix as it is.
#[derive(Clone, Copy, Debug)]
pub enum LedCommand {
    Show([u32; 25]),
    HeartAnimation,
    Keep,
}

/// Whether a command shows, on every LED, the colour that `pixel` gives the
/// picture position wired to it.
pub open spec fn shows(cmd: LedCommand, pixel: spec_fn(int) -> (u8, u8, u8)) -> bool {
    cmd matches LedCommand::Show(words) && drives(words, pixel)
}

/// The icon of a game in the games menu: a diamond for the snake (game 0), a
/// green cross for the bird (any other).
pub open spec fn games_icon_spec(game_id: u8) -> [&'static str; 5] {
    if game_id == 0 {
        ["..Y..", ".Y.Y.", "Y...Y", ".Y.Y.", "..Y.."]
    } else {
        [".....", "..G..", ".GGG.", "..G..", "....."]
    }
}

/// The icon of a game in the games menu (see `games_icon_spec`).
pub fn games_icon(game_id: u8) -> (rows: [&'static str; 5])
    ensures
        rows == games_icon_spec(game_id),
        shaped(rows),
{
    let icon_snake: [&str; 5] = ["..Y..", ".Y.Y.", "Y...Y", ".Y.Y.", "..Y.."];
    let icon_flappy: [&str; 5] = [".....", "..G..", ".GGG.", "..G..", "....."];
    proof {
        reveal_strlit("..Y..");
        reveal_strlit(".Y.Y.");
        reveal_strlit("Y...Y");
        reveal_strlit(".....");
        reveal_strlit("..G..");
        reveal_strlit(".GGG.");
        lemma_row("..Y..");
        lemma_row(".Y.Y.");
        lemma_row("Y...Y");
        lemma_row(".....");
        lemma_row("..G..");
        lemma_row(".GGG.");
    }
    if game_id == 0 { icon_snake } else { icon_flappy }
}

/// The games-menu icons: game 0 (snake) shows a yellow diamond, every other
/// game (the flappy bird) a green cross. So the top middle position is yellow
/// for the snake and dark for the bird, and the centre is dark for the snake and
/// green for the bird.
pub proof fn lemma_games_icons(game_id: u8)
    ensures
        game_id == 0 ==> games_icon_spec(game_id) == ["..Y..", ".Y.Y.", "Y...Y", ".Y.Y.", "..Y.."],
        game_id != 0 ==> games_icon_spec(game_id) == [".....", "..G..", ".GGG.", "..G..", "....."],
        game_id == 0 ==> frame_pixel(games_icon_spec(game_id), 2) == (10u8, 5u8, 0u8)
            && frame_pixel(games_icon_spec(game_id), 12) == (0u8, 0u8, 0u8)
            && frame_pixel(games_icon_spec(game_id), 10) == (10u8, 5u8, 0u8),
        game_id != 0 ==> frame_pixel(games_icon_spec(game_id), 2) == (0u8, 0u8, 0u8)
            && frame_pixel(games_icon_spec(game_id), 12) == (0u8, 5u8, 0u8)
            && frame_pixel(games_icon_spec(game_id), 7) == (0u8, 5u8, 0u8),
{
    broadcast use vstd::string::is_ascii_spec_bytes;

    reveal_strlit("..Y..");
    reveal_strlit("Y...Y");
    reveal_strlit(".....");
    reveal_strlit("..G..");
    reveal_strlit(".GGG.");
    assert(vstd::string::is_ascii("..Y.."));
    assert(vstd::string::is_ascii("Y...Y"));
    assert(vstd::string::is_ascii("....."));
    assert(vstd::string::is_ascii("..G.."));
    assert(vstd::string::is_ascii(".GGG."));
}

/// Whether `leds_update` may run: a picture to show exists, and a game can be drawn.
pub open spec fn leds_defined(state: AppState, last_art_id: u8) -> bool {
    match state {
        AppState::Menu { art_id, .. } => art_id != last_art_id ==> art_id < 11,
        AppState::Playing { art_id, .. } => art_id != last_art_id ==> art_id < 11,
        AppState::Snake(g, _) => drawable(g),
        AppState::FlappyBird(g, _) => !g@.game_over && 0 <= g@.pipe_x < 5 ==> g@.pipe_gap > i32::MIN,
        _ => true,
    }
}

/// What the music menus show: the chosen picture, sent again only when it changes.
pub open spec fn picture_update(art_id: u8, last_art_id: u8, r: (LedCommand, u8)) -> bool {
    if art_id != last_art_id {
        r.1 == art_id && shows(r.0, |i: int| frame_pixel(art_spec(art_id), i))
    } else {
        r.0 is Keep && r.1 == last_art_id
    }
}

/// What the LED matrix does for a state, and the picture it then shows
/// (`NO_ART` when it shows something else): the music menus show their picture
/// when it changed, the games menu the icon of its game, a game its frame, and
/// the heart animation plays while the easter egg runs.
pub fn leds_update(state: &AppState, last_art_id: u8) -> (r: (LedCommand, u8))
    requires
        leds_defined(*state, last_art_id),
    ensures
        match *state {
            AppState::Menu { art_id, .. } => picture_update(art_id, last_art_id, r),
            AppState::Playing { art_id, .. } => picture_update(art_id, last_art_id, r),
            AppState::Snake(g, _) => r.1 == NO_ART && shows(r.0, |i: int| snake_pixel(g, i)),
            AppState::FlappyBird(g, _) => r.1 == NO_ART && shows(r.0, |i: int| flappy_pixel(g@, i)),
            AppState::GamesMenu { game_id, .. } => r.1 == NO_ART && shows(
                r.0,
                |i: int| frame_pixel(games_icon_spec(game_id), i),
            ),
            AppState::EasterEgg => r.0 is HeartAnimation && r.1 == last_art_id,
        },
{
    match state {
        AppState::Menu { art_id, .. } | AppState::Playing { art_id, .. } => {
            if *art_id != last_art_id {
                (LedCommand::Show(parse_art(*art_id)), *art_id)
            } else {
                (LedCommand::Keep, last_art_id)
            }
        },
        AppState::Snake(game, _) => {
            let rgb_pixels = draw_snake(game);
            let words = frame_to_hardware(&rgb_pixels);
            proof {
                assert forall|p: int| 0 <= p < 25 implies #[trigger] words@[p] == led_word(
                    snake_pixel(*game, physical_led(p)),
                ) by {
                    lemma_physical_led_involution(p);
                    assert(words@[p] == led_word(rgb_pixels@[physical_led(p)]));
                }
            }
            (LedCommand::Show(words), NO_ART)
        },
        AppState::EasterEgg => (LedCommand::HeartAnimation, last_art_id),
        AppState::GamesMenu { game_id, .. } => {
            let icon = games_icon(*game_id);
            (LedCommand::Show(parse_frame(&icon)), NO_ART)
        },
        AppState::FlappyBird(game, _) => {
            let rgb_pixels = draw_flappy(game);
            let words = frame_to_hardware(&rgb_pixels);
            proof {
                assert forall|p: int| 0 <= p < 25 implies #[trigger] words@[p] == led_word(
                    flappy_pixel(game@, physical_led(p)),
                ) by {
                    lemma_physical_led_involution(p);
                    assert(words@[p] == led_word(rgb_pixels@[physical_led(p)]));
                }
            }
            (LedCommand::Show(words), NO_ART)
        },
    }
}

/// Whether `leds_update` may run on a state (see `leds_defined`).
pub fn can_show(state: &AppState, last_art_id: u8) -> (r: bool)
    ensures
        r == leds_defined(*state, last_art_id),
{
    match state {
        AppState::Menu { art_id, .. } | AppState::Playing { art_id, .. } => *art_id == last_art_id || *art_id < 11,
        AppState::Snake(g, _) => g.game_over || (cell_pos(g.head) < 25 && cell_pos(g.fruit) < 25
            && cell_pos(g.obstacles[0]) < 25 && cell_pos(g.obstacles[1]) < 25 && cell_pos(
            g.obstacles[2],
        ) < 25),
        AppState::FlappyBird(g, _) => {
            let m = g.model();
            m.game_over || m.pipe_x < 0 || m.pipe_x >= 5 || m.pipe_gap > i32::MIN
        },
        _ => true,
    }
}

/// The row-major position of a cell, as a wide number.
fn cell_pos(c: (u8, u8)) -> (r: u32)
    ensures
        r == cell_index(c),
{
    c.1 as u32 * 5 + c.0 as u32
}

/// Every well-formed state can be shown.
pub proof fn lemma_wf_leds_defined(state: AppState, last_art_id: u8)
    requires
        state.wf(),
    ensures
        leds_defined(state, last_art_id),
{
}

/// The PIO clock divider for the LED chain: the system clock over ten cycles
/// per bit at 800 kbit/s, cut to a byte.
pub fn pio_clock_divider(clock_freq: u32) -> (div: u8)
    ensures
        div == (clock_freq as int / (LED_BIT_RATE * CYCLES_PER_BIT) as int) as u8,
{
    let bit_freq: u32 = LED_BIT_RATE * CYCLES_PER_BIT;
    (clock_freq / bit_freq) as u8
}

} // verus!
