//! The direction mapper: translates a detected note or frequency plus a
//! power magnitude into a relative pointer displacement.
//!
//! Three interchangeable strategies are selected by the configured mode:
//!
//! - `std`: the twelve pitch classes partition into four groups of three
//!   consecutive semitones, one group per cardinal direction.
//! - `adv`: four cardinal groups reduced to single semitones each, plus four
//!   diagonal semitones, giving eight-directional coverage.
//! - `freq`: ignores the pitch class and buckets the measured frequency into
//!   four half-open bands, one per cardinal direction; frequencies at or
//!   above 1000 Hz produce no movement.

use vstd::prelude::*;

use crate::types::DetectedNote;
use crate::types::EngineMode;
use crate::types::NoteName;

verus! {

/// Unit direction of each pitch class in the `std` mapping: three
/// consecutive semitones per cardinal direction.
pub open spec fn std_unit(note_name: NoteName) -> (int, int) {
    match note_name {
        NoteName::A => (1, 0),  // right
        NoteName::ASharp => (1, 0),
        NoteName::B => (1, 0),
        NoteName::C => (0, 1),  // down
        NoteName::CSharp => (0, 1),
        NoteName::D => (0, 1),
        NoteName::DSharp => (-1, 0),  // left
        NoteName::E => (-1, 0),
        NoteName::F => (-1, 0),
        NoteName::FSharp => (0, -1),  // up
        NoteName::G => (0, -1),
        NoteName::GSharp => (0, -1),
    }
}

/// Unit direction of each pitch class in the `adv` mapping: four cardinal
/// pairs, with one diagonal semitone between each pair.
pub open spec fn adv_unit(note_name: NoteName) -> (int, int) {
    match note_name {
        NoteName::A => (1, 0),  // right
        NoteName::ASharp => (1, 0),
        NoteName::B => (1, 1),  // down right
        NoteName::C => (0, 1),  // down
        NoteName::CSharp => (0, 1),
        NoteName::D => (-1, 1),  // down left
        NoteName::DSharp => (-1, 0),  // left
        NoteName::E => (-1, 0),
        NoteName::F => (-1, -1),  // up left
        NoteName::FSharp => (0, -1),  // up
        NoteName::G => (0, -1),
        NoteName::GSharp => (1, -1),  // up right
    }
}

/// Unit direction of a frequency in millihertz in the `freq` mapping: four
/// half-open bands, each to one cardinal direction; anything at or above
/// 1000 Hz (or below zero) maps to no movement.
pub open spec fn freq_unit(freq_millihertz: int) -> Option<(int, int)> {
    if 0 <= freq_millihertz && freq_millihertz < 230_000 {
        Some((1, 0))  // right
    } else if 230_000 <= freq_millihertz && freq_millihertz < 310_000 {
        Some((0, 1))  // down
    } else if 310_000 <= freq_millihertz && freq_millihertz < 400_000 {
        Some((-1, 0))  // left
    } else if 400_000 <= freq_millihertz && freq_millihertz < 1_000_000 {
        Some((0, -1))  // up
    } else {
        None
    }
}

/// The displacement the selected mode assigns to a note at a given power:
/// the mode's unit direction scaled by the power, or `None` where the mode
/// is invalid or the frequency lies outside every band.
pub open spec fn direction_of(mode: EngineMode, note: DetectedNote, power: int) -> Option<
    (int, int),
> {
    match mode {
        EngineMode::Std => Some(
            (power * std_unit(note.note_name).0, power * std_unit(note.note_name).1),
        ),
        EngineMode::Adv => Some(
            (power * adv_unit(note.note_name).0, power * adv_unit(note.note_name).1),
        ),
        EngineMode::Freq => match freq_unit(note.freq_millihertz as int) {
            Some(u) => Some((power * u.0, power * u.1)),
            None => None,
        },
        EngineMode::Invalid => None,
    }
}

/// Displacement for the `std` mapping: the power along the pitch class's
/// cardinal axis, zero in the other.
pub fn standard_direction(note_name: NoteName, power: i64) -> (d: (i64, i64))
    requires
        i64::MIN < power,
    ensures
        d.0 == power * std_unit(note_name).0,
        d.1 == power * std_unit(note_name).1,
{
    match note_name {
        NoteName::A => (power, 0),
        NoteName::ASharp => (power, 0),
        NoteName::B => (power, 0),
        NoteName::C => (0, power),
        NoteName::CSharp => (0, power),
        NoteName::D => (0, power),
        NoteName::DSharp => (-power, 0),
        NoteName::E => (-power, 0),
        NoteName::F => (-power, 0),
        NoteName::FSharp => (0, -power),
        NoteName::G => (0, -power),
        NoteName::GSharp => (0, -power),
    }
}

/// Displacement for the `adv` mapping: cardinal like `std` for eight of the
/// classes, a full diagonal displacement for the other four.
pub fn adv_direction(note_name: NoteName, power: i64) -> (d: (i64, i64))
    requires
        i64::MIN < power,
    ensures
        d.0 == power * adv_unit(note_name).0,
        d.1 == power * adv_unit(note_name).1,
{
    match note_name {
        NoteName::A => (power, 0),
        NoteName::ASharp => (power, 0),
        NoteName::B => (power, power),
        NoteName::C => (0, power),
        NoteName::CSharp => (0, power),
        NoteName::D => (-power, power),
        NoteName::DSharp => (-power, 0),
        NoteName::E => (-power, 0),
        NoteName::F => (-power, -power),
        NoteName::FSharp => (0, -power),
        NoteName::G => (0, -power),
        NoteName::GSharp => (power, -power),
    }
}

/// Displacement for the `freq` mapping, or `None` when the frequency lies
/// outside every band.
pub fn freq_direction(freq_millihertz: u64, power: i64) -> (d: Option<(i64, i64)>)
    requires
        i64::MIN < power,
    ensures
        d is Some <==> freq_unit(freq_millihertz as int) is Some,
        d is Some ==> {
            let u = freq_unit(freq_millihertz as int)->Some_0;
            d->Some_0.0 == power * u.0 && d->Some_0.1 == power * u.1
        },
{
    if freq_millihertz < 230_000 {
        Some((power, 0))
    } else if freq_millihertz < 310_000 {
        Some((0, power))
    } else if freq_millihertz < 400_000 {
        Some((-power, 0))
    } else if freq_millihertz < 1_000_000 {
        Some((0, -power))
    } else {
        None
    }
}

/// Law: in both the `std` and the `adv` mapping every one of the twelve
/// pitch classes is assigned exactly one direction, and that direction is
/// never the null vector.
pub proof fn lemma_every_class_mapped(note_name: NoteName)
    ensures
        std_unit(note_name) != ((0int, 0int)),
        adv_unit(note_name) != ((0int, 0int)),
{
}

} // verus!
