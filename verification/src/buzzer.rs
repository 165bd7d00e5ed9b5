//! The square wave that each note of a track puts on a buzzer.
//!
//! The buzzer PWM runs at 1 MHz (the 125 MHz system clock divided by
//! `PWM_DIVIDER`); a note of frequency `f` uses a period of `1 000 000 / f`
//! counts and a duty that grows with its volume. Timing the notes and
//! writing the PWM registers happens outside this library.

use vstd::prelude::*;

verus! {

/// Clock divider of the buzzer PWM while a note sounds.
pub const PWM_DIVIDER: u8 = 125;

/// Counts per second of the buzzer PWM while a note sounds.
pub const PWM_COUNT_HZ: u32 = 1000000;

/// The volumes of a track are divided by this before they set the duty.
pub const VOLUME_DIVISOR: u32 = 8;

/// The loudest volume of a note.
pub const MAX_VOLUME: u32 = 127;

#[derive(Copy, Clone, Debug)]
pub struct Note {
    pub freq: u32,
    pub vol: u8,
    pub duration_ms: u64,
}

/// What the buzzer does during a note: stay silent, or sound a square wave of
/// period `top` counts, high for `compare` counts.
#[derive(Copy, Clone, Debug, PartialEq, Eq, Structural)]
pub enum Tone {
    Silence,
    Square { top: u16, compare: u16 },
}

/// The tone of a note: silence for frequency or volume 0; else the period
/// `1 000 000 / freq` cut to 16 bits, and the duty `top * vol / (8 * 127)`,
/// at least 1.
pub open spec fn tone_of(note: Note) -> Tone {
    if note.freq == 0 || note.vol == 0 {
        Tone::Silence
    } else {
        let top = (PWM_COUNT_HZ / note.freq) as u16;
        let duty = (top as int * note.vol as int) / (VOLUME_DIVISOR * MAX_VOLUME) as int;
        Tone::Square { top, compare: if duty == 0 { 1 } else { duty as u16 } }
    }
}

/// The tone of a note (see `tone_of`).
pub fn note_tone(note: &Note) -> (t: Tone)
    ensures
        t == tone_of(*note),
{
    if note.freq == 0 || note.vol == 0 {
        Tone::Silence
    } else {
        let top = (PWM_COUNT_HZ / note.freq) as u16;
        assert(top as u32 * note.vol as u32 <= 0xffff * 0xff) by (nonlinear_arith)
            requires
                top <= 0xffff,
                note.vol <= 0xff,
        ;
        let mut duty_cycle = (top as u32 * note.vol as u32) / (VOLUME_DIVISOR * MAX_VOLUME);
        assert(duty_cycle <= 0xffff * 0xff / 1016) by (nonlinear_arith)
            requires
                duty_cycle == (top as u32 * note.vol as u32) / 1016,
                top <= 0xffff,
                note.vol <= 0xff,
        ;
        if duty_cycle == 0 {
            duty_cycle = 1;
        }
        Tone::Square { top, compare: duty_cycle as u16 }
    }
}

/// One step of playing a track: set the buzzer to `tone`, then hold it for
/// `hold_ms` milliseconds.
#[derive(Copy, Clone, Debug, PartialEq, Eq, Structural)]
pub struct PlayStep {
    pub tone: Tone,
    pub hold_ms: u64,
}

/// The steps that play a track: each note's tone for its duration, in track
/// order, then silence that stays (held for 0 ms) once the track is over.
pub open spec fn schedule_of(track: Seq<Note>) -> Seq<PlayStep> {
    Seq::new(track.len(), |i: int| PlayStep { tone: tone_of(track[i]), hold_ms: track[i].duration_ms }).push(
        PlayStep { tone: Tone::Silence, hold_ms: 0 },
    )
}

/// The steps that play a track (see `schedule_of`).
pub fn playback_steps(track: &[Note]) -> (steps: Vec<PlayStep>)
    ensures
        steps@ == schedule_of(track@),
{
    let mut steps: Vec<PlayStep> = Vec::new();
    let mut i: usize = 0;
    while i < track.len()
        invariant
            i <= track@.len(),
            steps@ =~= Seq::new(i as nat, |j: int| PlayStep { tone: tone_of(track@[j]), hold_ms: track@[j].duration_ms }),
        decreases track@.len() - i,
    {
        let note = &track[i];
        steps.push(PlayStep { tone: note_tone(note), hold_ms: note.duration_ms });
        i = i + 1;
    }
    steps.push(PlayStep { tone: Tone::Silence, hold_ms: 0 });
    steps
}

/// The duty of a sounding note never exceeds its period.
pub proof fn lemma_duty_within_period(note: Note)
    requires
        tone_of(note) is Square,
    ensures
        tone_of(note)->compare <= tone_of(note)->top || tone_of(note)->top == 0,
{
    let top = (PWM_COUNT_HZ / note.freq) as u16;
    let duty = (top as int * note.vol as int) / 1016;
    assert(duty <= top) by (nonlinear_arith)
        requires
            duty == (top as int * note.vol as int) / 1016,
            0 <= top,
            note.vol <= 255,
    ;
}

} // verus!
