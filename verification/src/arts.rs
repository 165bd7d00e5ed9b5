//! The pictures of the LED matrix and how its LEDs are wired.
//!
//! A picture is five rows of five characters, one per LED, top row first; the
//! character picks the colour (see `crate::leds::glyph_color`).

use vstd::prelude::*;
use vstd::string::{is_ascii, StringSliceAdditionalSpecFns};

verus! {

/// Number of pictures.
pub const ART_COUNT: u8 = 11;

/// Number of frames of the heart animation.
pub const HEART_FRAMES: usize = 6;

/// The LED that shows each position of the picture, row-major: the chain of
/// LEDs starts at the bottom right and snakes up row by row.
pub const LED_MAP: [usize; 25] = [
    24, 23, 22, 21, 20,
    15, 16, 17, 18, 19,
    14, 13, 12, 11, 10,
    5, 6, 7, 8, 9,
    4, 3, 2, 1, 0,
];

/// The LED behind picture position `i`: rows counted from the bottom, even
/// rows from the top running right to left, odd ones left to right.
pub open spec fn physical_led(i: int) -> int {
    let row = i / 5;
    let col = i % 5;
    if row % 2 == 0 { 24 - 5 * row - col } else { 20 - 5 * row + col }
}

/// `LED_MAP` holds `physical_led`.
pub proof fn lemma_led_map()
    ensures
        forall|i: int| 0 <= i < 25 ==> #[trigger] LED_MAP@[i] == physical_led(i),
{
    assert forall|i: int| 0 <= i < 25 implies #[trigger] LED_MAP@[i] == physical_led(i) by {
        assert(0 <= i < 25);
    }
}

/// The wiring is its own inverse: the LED behind the position of LED `p` is `p`.
/// So every picture position has its own LED and every LED shows one position.
pub proof fn lemma_physical_led_involution(i: int)
    requires
        0 <= i < 25,
    ensures
        0 <= physical_led(i) < 25,
        physical_led(physical_led(i)) == i,
{
    assert(0 <= i < 25);
}

/// Whether every row of a picture has at least five bytes.
pub open spec fn shaped(rows: [&str; 5]) -> bool {
    forall|y: int| 0 <= y < 5 ==> #[trigger] rows@[y].spec_bytes().len() >= 5
}

/// A five-character ASCII row has five bytes.
pub proof fn lemma_row(s: &str)
    requires
        is_ascii(s),
        s@.len() == 5,
    ensures
        s.spec_bytes().len() == 5,
{
    broadcast use vstd::string::is_ascii_spec_bytes;
}

/// The pictures in order: heart, rabbit, sword, star, ghost, flower, rocket,
/// ant, musical note, smile, Super Mario.
pub open spec fn art_spec(id: u8) -> [&'static str; 5] {
    if id == 0 {
        [".R.R.", "RRRRR", "RRRRR", ".RRR.", "..R.."]
    } else if id == 1 {
        ["W...W", "W...W", "WWWWW", "WCWCW", "WWPWW"]
    } else if id == 2 {
        ["..B..", "..B..", "..B..", ".WWW.", "..W.."]
    } else if id == 3 {
        ["..L..", ".LYL.", "LYLYL", ".LYL.", "..L.."]
    } else if id == 4 {
        [".WWW.", "WRWRW", "WWWWW", "WWWWW", "W.W.W"]
    } else if id == 5 {
        ["..PP.", "..PP.", ".G...", "GGL..", ".LLL."]
    } else if id == 6 {
        ["..P..", ".PPP.", ".PPP.", "PPPPP", ".O.O."]
    } else if id == 7 {
        [".....", "B...B", ".BBB.", "BYBYB", "BBBBB"]
    } else if id == 8 {
        ["..WW.", "..W.W", "..W..", "WWW..", "WWW.."]
    } else if id == 9 {
        [".....", ".Y.Y.", ".....", "Y...Y", ".YYY."]
    } else {
        [".RRR.", ".RRRR", ".WWW.", "WBBBW", ".B.B."]
    }
}

/// The frames of the heart animation: the outline grows from the bottom tip
/// and the heart fills in the last frame.
pub open spec fn heart_frame_spec(k: int) -> [&'static str; 5] {
    if k == 0 {
        [".....", ".....", ".....", ".....", "....."]
    } else if k == 1 {
        [".....", ".....", ".....", ".....", "..R.."]
    } else if k == 2 {
        [".....", ".....", ".....", ".RRR.", "..R.."]
    } else if k == 3 {
        [".....", ".....", "R...R", ".RRR.", "..R.."]
    } else if k == 4 {
        [".R.R.", "R...R", "R...R", ".RRR.", "..R.."]
    } else {
        [".R.R.", "RRRRR", "RRRRR", ".RRR.", "..R.."]
    }
}

/// Picture `id` (see `art_spec`).
pub fn art(id: u8) -> (rows: [&'static str; 5])
    requires
        id < ART_COUNT,
    ensures
        rows == art_spec(id),
        shaped(rows),
{
    if id == 0 {
        proof {
            reveal_strlit(".R.R.");
            lemma_row(".R.R.");
            reveal_strlit("RRRRR");
            lemma_row("RRRRR");
            reveal_strlit(".RRR.");
            lemma_row(".RRR.");
            reveal_strlit("..R..");
            lemma_row("..R..");
        }
        [".R.R.", "RRRRR", "RRRRR", ".RRR.", "..R.."]
    } else if id == 1 {
        proof {
            reveal_strlit("W...W");
            lemma_row("W...W");
            reveal_strlit("WWWWW");
            lemma_row("WWWWW");
            reveal_strlit("WCWCW");
            lemma_row("WCWCW");
            reveal_strlit("WWPWW");
            lemma_row("WWPWW");
        }
        ["W...W", "W...W", "WWWWW", "WCWCW", "WWPWW"]
    } else if id == 2 {
        proof {
            reveal_strlit("..B..");
            lemma_row("..B..");
            reveal_strlit(".WWW.");
            lemma_row(".WWW.");
            reveal_strlit("..W..");
            lemma_row("..W..");
        }
        ["..B..", "..B..", "..B..", ".WWW.", "..W.."]
    } else if id == 3 {
        proof {
            reveal_strlit("..L..");
            lemma_row("..L..");
            reveal_strlit(".LYL.");
            lemma_row(".LYL.");
            reveal_strlit("LYLYL");
            lemma_row("LYLYL");
        }
        ["..L..", ".LYL.", "LYLYL", ".LYL.", "..L.."]
    } else if id == 4 {
        proof {
            reveal_strlit(".WWW.");
            lemma_row(".WWW.");
            reveal_strlit("WRWRW");
            lemma_row("WRWRW");
            reveal_strlit("WWWWW");
            lemma_row("WWWWW");
            reveal_strlit("W.W.W");
            lemma_row("W.W.W");
        }
        [".WWW.", "WRWRW", "WWWWW", "WWWWW", "W.W.W"]
    } else if id == 5 {
        proof {
            reveal_strlit("..PP.");
            lemma_row("..PP.");
            reveal_strlit(".G...");
            lemma_row(".G...");
            reveal_strlit("GGL..");
            lemma_row("GGL..");
            reveal_strlit(".LLL.");
            lemma_row(".LLL.");
        }
        ["..PP.", "..PP.", ".G...", "GGL..", ".LLL."]
    } else if id == 6 {
        proof {
            reveal_strlit("..P..");
            lemma_row("..P..");
            reveal_strlit(".PPP.");
            lemma_row(".PPP.");
            reveal_strlit("PPPPP");
            lemma_row("PPPPP");
            reveal_strlit(".O.O.");
            lemma_row(".O.O.");
        }
        ["..P..", ".PPP.", ".PPP.", "PPPPP", ".O.O."]
    } else if id == 7 {
        proof {
            reveal_strlit(".....");
            lemma_row(".....");
            reveal_strlit("B...B");
            lemma_row("B...B");
            reveal_strlit(".BBB.");
            lemma_row(".BBB.");
            reveal_strlit("BYBYB");
            lemma_row("BYBYB");
            reveal_strlit("BBBBB");
            lemma_row("BBBBB");
        }
        [".....", "B...B", ".BBB.", "BYBYB", "BBBBB"]
    } else if id == 8 {
        proof {
            reveal_strlit("..WW.");
            lemma_row("..WW.");
            reveal_strlit("..W.W");
            lemma_row("..W.W");
            reveal_strlit("..W..");
            lemma_row("..W..");
            reveal_strlit("WWW..");
            lemma_row("WWW..");
        }
        ["..WW.", "..W.W", "..W..", "WWW..", "WWW.."]
    } else if id == 9 {
        proof {
            reveal_strlit(".....");
            lemma_row(".....");
            reveal_strlit(".Y.Y.");
            lemma_row(".Y.Y.");
            reveal_strlit("Y...Y");
            lemma_row("Y...Y");
            reveal_strlit(".YYY.");
            lemma_row(".YYY.");
        }
        [".....", ".Y.Y.", ".....", "Y...Y", ".YYY."]
    } else {
        proof {
            reveal_strlit(".RRR.");
            lemma_row(".RRR.");
            reveal_strlit(".RRRR");
            lemma_row(".RRRR");
            reveal_strlit(".WWW.");
            lemma_row(".WWW.");
            reveal_strlit("WBBBW");
            lemma_row("WBBBW");
            reveal_strlit(".B.B.");
            lemma_row(".B.B.");
        }
        [".RRR.", ".RRRR", ".WWW.", "WBBBW", ".B.B."]
    }
}

/// Frame `k` of the heart animation (see `heart_frame_spec`).
pub fn heart_frame(k: usize) -> (rows: [&'static str; 5])
    requires
        k < HEART_FRAMES,
    ensures
        rows == heart_frame_spec(k as int),
        shaped(rows),
{
    if k == 0 {
        proof {
            reveal_strlit(".....");
            lemma_row(".....");
        }
        [".....", ".....", ".....", ".....", "....."]
    } else if k == 1 {
        proof {
            reveal_strlit(".....");
            lemma_row(".....");
            reveal_strlit("..R..");
            lemma_row("..R..");
        }
        [".....", ".....", ".....", ".....", "..R.."]
    } else if k == 2 {
        proof {
            reveal_strlit(".....");
            lemma_row(".....");
            reveal_strlit(".RRR.");
            lemma_row(".RRR.");
            reveal_strlit("..R..");
            lemma_row("..R..");
        }
        [".....", ".....", ".....", ".RRR.", "..R.."]
    } else if k == 3 {
        proof {
            reveal_strlit(".....");
            lemma_row(".....");
            reveal_strlit("R...R");
            lemma_row("R...R");
            reveal_strlit(".RRR.");
            lemma_row(".RRR.");
            reveal_strlit("..R..");
            lemma_row("..R..");
        }
        [".....", ".....", "R...R", ".RRR.", "..R.."]
    } else if k == 4 {
        proof {
            reveal_strlit(".R.R.");
            lemma_row(".R.R.");
            reveal_strlit("R...R");
            lemma_row("R...R");
            reveal_strlit(".RRR.");
            lemma_row(".RRR.");
            reveal_strlit("..R..");
            lemma_row("..R..");
        }
        [".R.R.", "R...R", "R...R", ".RRR.", "..R.."]
    } else {
        proof {
            reveal_strlit(".R.R.");
            lemma_row(".R.R.");
            reveal_strlit("RRRRR");
            lemma_row("RRRRR");
            reveal_strlit(".RRR.");
            lemma_row(".RRR.");
            reveal_strlit("..R..");
            lemma_row("..R..");
        }
        [".R.R.", "RRRRR", "RRRRR", ".RRR.", "..R.."]
    }
}

} // verus!
