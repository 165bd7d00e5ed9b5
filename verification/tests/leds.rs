use mikap3::arts::{art, heart_frame, HEART_FRAMES, LED_MAP};
use mikap3::leds::{heart_animation, HEART_FRAME_MS, frame_to_hardware, games_icon, leds_update, parse_art, parse_frame, pio_clock_divider, LedCommand, NO_ART};
use mikap3::snake::game::SnakeGame;
use mikap3::state::AppState;

fn word(r: u32, g: u32, b: u32) -> u32 {
    (g << 24) | (r << 16) | (b << 8)
}

#[test]
fn led_map_is_its_own_inverse() {
    for i in 0..25 {
        assert_eq!(LED_MAP[LED_MAP[i]], i);
    }
    assert_eq!(LED_MAP[0], 24);
    assert_eq!(LED_MAP[5], 15);
    assert_eq!(LED_MAP[24], 0);
}

#[test]
fn heart_picture_words() {
    let words = parse_frame(&[".R.R.", "RRRRR", "RRRRR", ".RRR.", "..R.."]);
    assert_eq!(words[LED_MAP[0]], 0);
    assert_eq!(words[LED_MAP[1]], word(10, 0, 0));
    assert_eq!(words[23], 0x000A_0000);
    assert_eq!(words[LED_MAP[22]], word(10, 0, 0));
    assert_eq!(words[LED_MAP[24]], 0);
}

#[test]
fn every_colour_letter() {
    let words = parse_frame(&["RGBYP", "CWOL.", "xxxxx", ".....", "....."]);
    assert_eq!(words[LED_MAP[0]], word(10, 0, 0));
    assert_eq!(words[LED_MAP[1]], word(0, 5, 0));
    assert_eq!(words[LED_MAP[2]], word(0, 0, 3));
    assert_eq!(words[LED_MAP[3]], word(10, 5, 0));
    assert_eq!(words[LED_MAP[4]], word(10, 0, 3));
    assert_eq!(words[LED_MAP[5]], word(0, 5, 3));
    assert_eq!(words[LED_MAP[6]], word(10, 5, 3));
    assert_eq!(words[LED_MAP[7]], word(10, 2, 0));
    assert_eq!(words[LED_MAP[8]], word(5, 3, 0));
    assert_eq!(words[LED_MAP[9]], 0);
    assert_eq!(words[LED_MAP[10]], 0);
}

#[test]
fn pictures_are_the_listed_ones() {
    assert_eq!(art(0), [".R.R.", "RRRRR", "RRRRR", ".RRR.", "..R.."]);
    assert_eq!(art(10), [".RRR.", ".RRRR", ".WWW.", "WBBBW", ".B.B."]);
    assert_eq!(parse_art(3), parse_frame(&art(3)));
    assert_eq!(heart_frame(HEART_FRAMES - 1), art(0));
    assert_eq!(heart_frame(0), [".....", ".....", ".....", ".....", "....."]);
}

#[test]
fn rgb_frame_words() {
    let mut rgb = [(0u8, 0u8, 0u8); 25];
    rgb[0] = (1, 2, 3);
    rgb[7] = (255, 255, 255);
    let words = frame_to_hardware(&rgb);
    assert_eq!(words[24], 0x0201_0300);
    assert_eq!(words[LED_MAP[7]], 0xFFFF_FF00);
    assert_eq!(words[0], 0);
}

#[test]
fn menu_picture_sent_once() {
    let st = AppState::Menu { song_id: 0, art_id: 2 };
    let (cmd, last) = leds_update(&st, NO_ART);
    assert_eq!(last, 2);
    match cmd {
        LedCommand::Show(words) => assert_eq!(words, parse_art(2)),
        _ => panic!("expected a picture"),
    }
    let (cmd, last) = leds_update(&st, 2);
    assert_eq!(last, 2);
    assert!(matches!(cmd, LedCommand::Keep));
}

#[test]
fn other_screens() {
    let (cmd, last) = leds_update(&AppState::EasterEgg, 4);
    assert!(matches!(cmd, LedCommand::HeartAnimation));
    assert_eq!(last, 4);
    let (cmd, last) = leds_update(&AppState::GamesMenu { game_id: 1, with_music: true }, 4);
    assert_eq!(last, NO_ART);
    match cmd {
        LedCommand::Show(words) => assert_eq!(words, parse_frame(&games_icon(1))),
        _ => panic!("expected the icon"),
    }
    let g = SnakeGame::new(3);
    let (cmd, last) = leds_update(&AppState::Snake(g, false), 4);
    assert_eq!(last, NO_ART);
    match cmd {
        LedCommand::Show(words) => {
            let head = g.head.1 as usize * 5 + g.head.0 as usize;
            assert_eq!(words[LED_MAP[head]], word(10, 10, 0));
        }
        _ => panic!("expected the game"),
    }
}

#[test]
fn clock_divider() {
    assert_eq!(pio_clock_divider(125_000_000), 15);
    assert_eq!(pio_clock_divider(8_000_000), 1);
    assert_eq!(pio_clock_divider(7_999_999), 0);
}

#[test]
fn heart_animation_frames_in_order() {
    let frames = heart_animation();
    assert_eq!(frames.len(), HEART_FRAMES);
    for k in 0..HEART_FRAMES {
        assert_eq!(frames[k], parse_frame(&heart_frame(k)));
    }
    assert!(frames[0].iter().all(|w| *w == 0));
    assert_eq!(frames[1][LED_MAP[22]], word(10, 0, 0));
    assert_eq!(frames[5], parse_art(0));
    assert_eq!(HEART_FRAME_MS, 150);
}
