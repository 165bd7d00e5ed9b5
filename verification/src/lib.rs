//! Game and presentation logic of a handheld music player with a 5x5 LED
//! matrix, an OLED text display, two buzzers, two buttons and an analog
//! joystick: the state of the device, the decisions of the input task, what
//! the display, the LEDs and the buzzers show or play, and two games.

pub mod arts;
pub mod audio;
pub mod buzzer;
pub mod clock;
pub mod display;
pub mod flappy;
pub mod grid;
pub mod input;
pub mod leds;
pub mod snake;
pub mod state;
