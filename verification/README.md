# mikap3

Verified logic of the MikaP3 handheld, an RP2040 board with two buzzers, a 5x5
RGB LED matrix, a 128x64 OLED display, two buttons and a joystick. It plays
songs, shows pictures and runs two games (snake and flappy bird).

- `src/` is the library, verified with Verus:
  - `state`: the device state that the tasks share;
  - `input`: the input controller, one round per 50 ms (menus, long presses,
    the heart easter egg, the reboot combination, game timing);
  - `snake`, `flappy`: the two games and their LED frames;
  - `arts`, `leds`: the pictures, the LED wiring and the words sent to the LEDs;
  - `display`: the lines of text for each state;
  - `audio`, `buzzer`: what plays for each state and the PWM tone of a note;
  - `clock`, `grid`: elapsed time from the embassy-time clock, board cells.
- `app/` is the firmware around it: peripherals, tasks, the PWM, PIO, display
  and timer I/O; `app/main.rs` takes the notes of the eleven songs from a
  `songs` module.
- `tests/` runs the library on concrete inputs.
