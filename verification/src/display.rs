//! What the OLED text display shows for each state of the device.
//!
//! The task that draws on the display runs outside this library; each time the
//! device state changes it asks `screen_for` for the lines to draw (each
//! centred on column 64 at its baseline row), or for nothing when the screen
//! stays as it is.

use vstd::prelude::*;
use crate::snake::game::SnakeGame;
use crate::state::AppState;

verus! {

/// Number of song titles.
pub const SONG_TITLES: u8 = 11;

/// Number of picture names.
pub const ART_NAMES: u8 = 11;

/// The two typefaces: 6x10 and 8x13 pixels.
#[derive(Clone, Copy, Debug, PartialEq, Eq, Structural)]
pub enum Font {
    Small,
    Large,
}

/// One line of text, centred on column 64 with its baseline at row `y`.
#[derive(Debug)]
pub struct TextLine {
    pub text: String,
    pub y: i32,
    pub font: Font,
}

/// What the display remembers between two states: the kind of screen last
/// drawn (0 music menu, 1 song playing, 2 snake game, 255 none yet) and the
/// score and game-over flag that the snake screen last showed.
#[derive(Clone, Copy, Debug)]
pub struct DisplayMemory {
    pub last_score: u32,
    pub last_state_type: u8,
    pub last_game_over: bool,
}

/// The title of a song.
pub open spec fn song_name(id: u8) -> Seq<char> {
    if id == 0 {
        "Married Life"@
    } else if id == 1 {
        "Always with Me"@
    } else if id == 2 {
        "Fallen Down"@
    } else if id == 3 {
        "Game of Thrones"@
    } else if id == 4 {
        "Hino Nacional"@
    } else if id == 5 {
        "His Theme"@
    } else if id == 6 {
        "Le Festin"@
    } else if id == 7 {
        "Love Like You"@
    } else if id == 8 {
        "Minuet in G"@
    } else if id == 9 {
        "New Horizons"@
    } else {
        "Tetris"@
    }
}

/// The name of a picture.
pub open spec fn art_name(id: u8) -> Seq<char> {
    if id == 0 {
        "CORA\u{c7}\u{c3}O"@
    } else if id == 1 {
        "SORRISO"@
    } else if id == 2 {
        "COELHO"@
    } else if id == 3 {
        "SUPER MARIO"@
    } else if id == 4 {
        "FLOR"@
    } else if id == 5 {
        "FANSTASMA"@
    } else if id == 6 {
        "FOGUETE"@
    } else if id == 7 {
        "ESTRELA"@
    } else if id == 8 {
        "ESPADA"@
    } else if id == 9 {
        "NOTA MUSICAL"@
    } else {
        "FORMIGA"@
    }
}

/// The character of a decimal digit.
pub open spec fn digit_char(d: int) -> char {
    if d == 0 {
        '0'
    } else if d == 1 {
        '1'
    } else if d == 2 {
        '2'
    } else if d == 3 {
        '3'
    } else if d == 4 {
        '4'
    } else if d == 5 {
        '5'
    } else if d == 6 {
        '6'
    } else if d == 7 {
        '7'
    } else if d == 8 {
        '8'
    } else {
        '9'
    }
}

/// The decimal digits of a number, most significant first, without leading zeros.
pub open spec fn decimal(n: nat) -> Seq<char>
    decreases n,
{
    if n < 10 {
        seq![digit_char(n as int)]
    } else {
        decimal(n / 10).push(digit_char((n % 10) as int))
    }
}

/// A line as text, row and typeface.
pub open spec fn line(text: Seq<char>, y: i32, font: Font) -> (Seq<char>, i32, Font) {
    (text, y, font)
}

/// The line naming the picture.
pub open spec fn art_line(art_id: u8) -> (Seq<char>, i32, Font) {
    line("Arte: "@ + art_name(art_id), 45, Font::Small)
}

/// The screen for a state, as lines, and what the display remembers after it.
/// The music menu shows the title bar, the song, the picture and the play hint;
/// a playing song shows whether it is paused, the song, the picture and the
/// hints; the snake game shows its score, and GAME OVER once lost, but is only
/// redrawn when the score or the game-over flag changed or another screen was
/// up. Other states leave the screen as it is.
pub open spec fn screen_spec(state: AppState, mem: DisplayMemory) -> (Option<Seq<(Seq<char>, i32, Font)>>, DisplayMemory) {
    match state {
        AppState::Menu { song_id, art_id } => (
            Some(seq![
                line("== MikaP3 =="@, 10, Font::Small),
                line(song_name(song_id), 30, Font::Large),
                art_line(art_id),
                line("B: Tocar"@, 60, Font::Small),
            ]),
            DisplayMemory { last_state_type: 0, ..mem },
        ),
        AppState::Playing { song_id, art_id, paused } => (
            Some(seq![
                line(if paused { "[ PAUSADO ]"@ } else { "TOCANDO..."@ }, 10, Font::Small),
                line(song_name(song_id), 30, Font::Large),
                art_line(art_id),
                line("A: Voltar   B: Pausar"@, 60, Font::Small),
            ]),
            DisplayMemory { last_state_type: 1, ..mem },
        ),
        AppState::Snake(game, _) => {
            if mem.last_state_type != 2 || game.score != mem.last_score || game.game_over != mem.last_game_over {
                let score = line("PONTOS: "@ + decimal(game.score as nat), 35, Font::Large);
                (
                    Some(if game.game_over { seq![score, line("GAME OVER"@, 55, Font::Small)] } else { seq![score] }),
                    DisplayMemory { last_state_type: 2, last_score: game.score, last_game_over: game.game_over },
                )
            } else {
                (None, mem)
            }
        },
        _ => (None, mem),
    }
}

/// The music screens: four lines; the second is the selected song's title in
/// the large font at row 30, whatever the picture; the third names the
/// selected picture at row 45, whatever the song. The music menu opens with its
/// title bar and ends with the play hint; a playing song opens with PAUSADO or
/// TOCANDO as it is paused or not, and ends with the back and pause hints.
pub proof fn lemma_music_screens(song_id: u8, art_id: u8, other_art: u8, other_song: u8, paused: bool, mem: DisplayMemory, mem2: DisplayMemory)
    ensures
        screen_spec(AppState::Menu { song_id, art_id }, mem).0 matches Some(l) && {
            &&& l.len() == 4
            &&& l[0] == ("== MikaP3 =="@, 10i32, Font::Small)
            &&& l[1] == (song_name(song_id), 30i32, Font::Large)
            &&& l[2] == ("Arte: "@ + art_name(art_id), 45i32, Font::Small)
            &&& l[3] == ("B: Tocar"@, 60i32, Font::Small)
        },
        screen_spec(AppState::Playing { song_id, art_id, paused }, mem).0 matches Some(l) && {
            &&& l.len() == 4
            &&& l[0] == (if paused { "[ PAUSADO ]"@ } else { "TOCANDO..."@ }, 10i32, Font::Small)
            &&& l[1] == (song_name(song_id), 30i32, Font::Large)
            &&& l[2] == ("Arte: "@ + art_name(art_id), 45i32, Font::Small)
            &&& l[3] == ("A: Voltar   B: Pausar"@, 60i32, Font::Small)
        },
        screen_spec(AppState::Menu { song_id, art_id }, mem).0.unwrap()[1]
            == screen_spec(AppState::Menu { song_id, art_id: other_art }, mem2).0.unwrap()[1],
        screen_spec(AppState::Menu { song_id, art_id }, mem).0.unwrap()[2]
            == screen_spec(AppState::Menu { song_id: other_song, art_id }, mem2).0.unwrap()[2],
        screen_spec(AppState::Playing { song_id, art_id, paused }, mem).0.unwrap()[1]
            == screen_spec(AppState::Menu { song_id, art_id: other_art }, mem2).0.unwrap()[1],
        screen_spec(AppState::Playing { song_id, art_id, paused }, mem).0.unwrap()[2]
            == screen_spec(AppState::Menu { song_id: other_song, art_id }, mem2).0.unwrap()[2],
{
}

/// The song titles in order, and the picture names in order.
pub proof fn lemma_titles()
    ensures
        song_name(0) == "Married Life"@,
        song_name(1) == "Always with Me"@,
        song_name(2) == "Fallen Down"@,
        song_name(3) == "Game of Thrones"@,
        song_name(4) == "Hino Nacional"@,
        song_name(5) == "His Theme"@,
        song_name(6) == "Le Festin"@,
        song_name(7) == "Love Like You"@,
        song_name(8) == "Minuet in G"@,
        song_name(9) == "New Horizons"@,
        song_name(10) == "Tetris"@,
        art_name(0) == "CORA\u{c7}\u{c3}O"@,
        art_name(1) == "SORRISO"@,
        art_name(2) == "COELHO"@,
        art_name(3) == "SUPER MARIO"@,
        art_name(4) == "FLOR"@,
        art_name(5) == "FANSTASMA"@,
        art_name(6) == "FOGUETE"@,
        art_name(7) == "ESTRELA"@,
        art_name(8) == "ESPADA"@,
        art_name(9) == "NOTA MUSICAL"@,
        art_name(10) == "FORMIGA"@,
{
}

/// A snake screen shows the score in decimal in the large font at row 35, with
/// GAME OVER below once the game is lost, and is drawn again exactly when the
/// score or the game-over flag changed or another screen was up.
pub proof fn lemma_snake_screen(g: SnakeGame, m: bool, mem: DisplayMemory)
    ensures
        (screen_spec(AppState::Snake(g, m), mem).0 is Some) <==> (mem.last_state_type != 2
            || g.score != mem.last_score || g.game_over != mem.last_game_over),
        screen_spec(AppState::Snake(g, m), mem).0 matches Some(l) ==> {
            &&& l.len() == (if g.game_over { 2int } else { 1int })
            &&& l[0] == ("PONTOS: "@ + decimal(g.score as nat), 35i32, Font::Large)
            &&& g.game_over ==> l[1] == ("GAME OVER"@, 55i32, Font::Small)
        },
        screen_spec(AppState::Snake(g, m), mem).1 == (DisplayMemory {
            last_state_type: 2,
            last_score: g.score,
            last_game_over: g.game_over,
        }),
{
}

/// The decimal digits of a number: a single digit below 10, else the digits of
/// its tenth followed by its last digit; each digit is the character of its value.
pub proof fn lemma_decimal(n: nat)
    ensures
        n < 10 ==> decimal(n) == seq![digit_char(n as int)],
        n >= 10 ==> decimal(n) == decimal(n / 10) + seq![digit_char((n % 10) as int)],
        decimal(n).len() >= 1,
        digit_char(0) == '0' && digit_char(1) == '1' && digit_char(2) == '2' && digit_char(3) == '3'
            && digit_char(4) == '4' && digit_char(5) == '5' && digit_char(6) == '6' && digit_char(7) == '7'
            && digit_char(8) == '8' && digit_char(9) == '9',
    decreases n,
{
    if n >= 10 {
        lemma_decimal(n / 10);
        assert(decimal(n / 10).push(digit_char((n % 10) as int)) =~= decimal(n / 10) + seq![digit_char((n % 10) as int)]);
    }
}

/// Whether every line of `v` is the line at the same place in `s`.
pub open spec fn lines_match(v: Seq<TextLine>, s: Seq<(Seq<char>, i32, Font)>) -> bool {
    &&& v.len() == s.len()
    &&& forall|i: int| 0 <= i < v.len() ==> (#[trigger] v[i]).text@ == s[i].0 && v[i].y == s[i].1
        && v[i].font == s[i].2
}

/// Whether a state can be put on the display: the song and picture of the
/// music screens have names.
pub open spec fn displayable(state: AppState) -> bool {
    match state {
        AppState::Menu { song_id, art_id } => song_id < SONG_TITLES && art_id < ART_NAMES,
        AppState::Playing { song_id, art_id, .. } => song_id < SONG_TITLES && art_id < ART_NAMES,
        _ => true,
    }
}

impl DisplayMemory {
    /// The memory before anything was drawn.
    pub fn new() -> (m: Self)
        ensures
            m.last_score == u32::MAX,
            m.last_state_type == u8::MAX,
            !m.last_game_over,
    {
        DisplayMemory { last_score: u32::MAX, last_state_type: u8::MAX, last_game_over: false }
    }
}

/// The title of a song (see `song_name`).
pub fn song_title(id: u8) -> (s: &'static str)
    requires
        id < SONG_TITLES,
    ensures
        s@ == song_name(id),
{
    if id == 0 {
        "Married Life"
    } else if id == 1 {
        "Always with Me"
    } else if id == 2 {
        "Fallen Down"
    } else if id == 3 {
        "Game of Thrones"
    } else if id == 4 {
        "Hino Nacional"
    } else if id == 5 {
        "His Theme"
    } else if id == 6 {
        "Le Festin"
    } else if id == 7 {
        "Love Like You"
    } else if id == 8 {
        "Minuet in G"
    } else if id == 9 {
        "New Horizons"
    } else {
        "Tetris"
    }
}

/// The name of a picture (see `art_name`).
pub fn art_title(id: u8) -> (s: &'static str)
    requires
        id < ART_NAMES,
    ensures
        s@ == art_name(id),
{
    if id == 0 {
        "CORA\u{c7}\u{c3}O"
    } else if id == 1 {
        "SORRISO"
    } else if id == 2 {
        "COELHO"
    } else if id == 3 {
        "SUPER MARIO"
    } else if id == 4 {
        "FLOR"
    } else if id == 5 {
        "FANSTASMA"
    } else if id == 6 {
        "FOGUETE"
    } else if id == 7 {
        "ESTRELA"
    } else if id == 8 {
        "ESPADA"
    } else if id == 9 {
        "NOTA MUSICAL"
    } else {
        "FORMIGA"
    }
}

/// The text of one decimal digit.
fn digit_text(d: u32) -> (s: &'static str)
    requires
        d < 10,
    ensures
        s@ == seq![digit_char(d as int)],
{
    if d == 0 {
        proof {
            reveal_strlit("0");
        }
        "0"
    } else if d == 1 {
        proof {
            reveal_strlit("1");
        }
        "1"
    } else if d == 2 {
        proof {
            reveal_strlit("2");
        }
        "2"
    } else if d == 3 {
        proof {
            reveal_strlit("3");
        }
        "3"
    } else if d == 4 {
        proof {
            reveal_strlit("4");
        }
        "4"
    } else if d == 5 {
        proof {
            reveal_strlit("5");
        }
        "5"
    } else if d == 6 {
        proof {
            reveal_strlit("6");
        }
        "6"
    } else if d == 7 {
        proof {
            reveal_strlit("7");
        }
        "7"
    } else if d == 8 {
        proof {
            reveal_strlit("8");
        }
        "8"
    } else {
        proof {
            reveal_strlit("9");
        }
        "9"
    }
}

/// Appends the decimal digits of `n`.
fn push_decimal(s: &mut String, n: u32)
    ensures
        final(s)@ == old(s)@ + decimal(n as nat),
    decreases n,
{
    if n >= 10 {
        push_decimal(s, n / 10);
    }
    s.append(digit_text(n % 10));
    proof {
        if n >= 10 {
            assert(decimal(n as nat) == decimal((n / 10) as nat).push(digit_char((n % 10) as int)));
        }
    }
}

/// A line of text.
fn text_line(text: String, y: i32, font: Font) -> (l: TextLine)
    ensures
        l.text@ == text@,
        l.y == y,
        l.font == font,
{
    TextLine { text, y, font }
}

/// The line naming the picture.
fn art_text_line(art_id: u8) -> (l: TextLine)
    requires
        art_id < ART_NAMES,
    ensures
        (l.text@, l.y, l.font) == art_line(art_id),
{
    let mut art_text = String::from_str("Arte: ");
    art_text.append(art_title(art_id));
    text_line(art_text, 45, Font::Small)
}

/// The lines to draw for a state, or `None` when the screen stays (see
/// `screen_spec`), updating what the display remembers.
pub fn screen_for(state: &AppState, mem: &mut DisplayMemory) -> (lines: Option<Vec<TextLine>>)
    requires
        displayable(*state),
    ensures
        *final(mem) == screen_spec(*state, *old(mem)).1,
        match lines {
            None => screen_spec(*state, *old(mem)).0 is None,
            Some(v) => screen_spec(*state, *old(mem)).0 matches Some(s) && lines_match(v@, s),
        },
{
    match state {
        AppState::Menu { song_id, art_id } => {
            mem.last_state_type = 0;
            let mut v: Vec<TextLine> = Vec::new();
            v.push(text_line(String::from_str("== MikaP3 =="), 10, Font::Small));
            v.push(text_line(String::from_str(song_title(*song_id)), 30, Font::Large));
            v.push(art_text_line(*art_id));
            v.push(text_line(String::from_str("B: Tocar"), 60, Font::Small));
            Some(v)
        },
        AppState::Playing { song_id, art_id, paused } => {
            mem.last_state_type = 1;
            let mut v: Vec<TextLine> = Vec::new();
            if *paused {
                v.push(text_line(String::from_str("[ PAUSADO ]"), 10, Font::Small));
            } else {
                v.push(text_line(String::from_str("TOCANDO..."), 10, Font::Small));
            }
            v.push(text_line(String::from_str(song_title(*song_id)), 30, Font::Large));
            v.push(art_text_line(*art_id));
            v.push(text_line(String::from_str("A: Voltar   B: Pausar"), 60, Font::Small));
            Some(v)
        },
        AppState::Snake(game, _) => {
            if mem.last_state_type != 2 || game.score != mem.last_score || game.game_over != mem.last_game_over {
                mem.last_state_type = 2;
                mem.last_score = game.score;
                mem.last_game_over = game.game_over;
                let mut score_text = String::from_str("PONTOS: ");
                push_decimal(&mut score_text, game.score);
                let mut v: Vec<TextLine> = Vec::new();
                v.push(text_line(score_text, 35, Font::Large));
                if game.game_over {
                    v.push(text_line(String::from_str("GAME OVER"), 55, Font::Small));
                }
                Some(v)
            } else {
                None
            }
        },
        _ => None,
    }
}

/// Whether a state can be put on the display (see `displayable`).
pub fn can_display(state: &AppState) -> (r: bool)
    ensures
        r == displayable(*state),
{
    match state {
        AppState::Menu { song_id, art_id } | AppState::Playing { song_id, art_id, .. } => *song_id
            < SONG_TITLES && *art_id < ART_NAMES,
        _ => true,
    }
}

/// Every well-formed state can be put on the display.
pub proof fn lemma_wf_displayable(state: AppState)
    requires
        state.wf(),
    ensures
        displayable(state),
{
}

} // verus!
