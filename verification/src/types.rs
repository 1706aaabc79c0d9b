//! The value types that flow through the engine: notes, modifier-key
//! snapshots, the user configuration, and the pointer actions the engine
//! produces.

use vstd::prelude::*;

verus! {

/// The twelve pitch classes a detected note can carry.
#[derive(Clone, Copy, Debug, PartialEq, Eq, Structural)]
pub enum NoteName {
    A,
    ASharp,
    B,
    C,
    CSharp,
    D,
    DSharp,
    E,
    F,
    FSharp,
    G,
    GSharp,
}

/// One successfully detected note for a frame.
///
/// The measured frequency is carried in millihertz, so that the engine's
/// frequency-band comparisons are exact integer comparisons.
#[derive(Clone, Copy, Debug, PartialEq, Eq, Structural)]
pub struct DetectedNote {
    pub note_name: NoteName,
    pub octave: i32,
    pub freq_millihertz: u64,
}

/// Which mouse button a click action presses.
#[derive(Clone, Copy, Debug, PartialEq, Eq, Structural)]
pub enum MouseButton {
    Left,
    Right,
}

/// The sole output of one engine invocation: a click or a relative move.
#[derive(Clone, Copy, Debug, PartialEq, Eq, Structural)]
pub enum PointerAction {
    Click { button: MouseButton },
    Move { dx: i64, dy: i64 },
}

/// Snapshot of the modifier keys, sampled fresh each frame.
#[derive(Clone, Copy, Debug, PartialEq, Eq, Structural)]
pub struct ModifierState {
    pub left_shift: bool,
    pub left_control: bool,
}

/// The direction-mapping strategy selected by the configuration, validated
/// once at load time. An unrecognized mode string becomes `Invalid`, which
/// suppresses movement rather than failing.
#[derive(Clone, Copy, Debug, PartialEq, Eq, Structural)]
pub enum EngineMode {
    Std,
    Freq,
    Adv,
    Invalid,
}

/// The per-session configuration record, immutable after load.
///
/// The two multipliers are fixed-point values in thousandths: a stored value
/// of 1000 means a multiplier of one.
#[derive(Clone, Copy, Debug, PartialEq, Eq, Structural)]
pub struct EngineConfig {
    pub mode: EngineMode,
    pub click_threshold: i32,
    pub default_threshold: i32,
    pub default_power: i32,
    pub power_multiplier_milli: u32,
    pub vol_multiplier_milli: u32,
}

/// The mode a configuration string selects: exactly `"std"`, `"freq"` or
/// `"adv"`; anything else is the invalid mode.
pub open spec fn mode_of(s: Seq<char>) -> EngineMode {
    if s == "std"@ {
        EngineMode::Std
    } else if s == "freq"@ {
        EngineMode::Freq
    } else if s == "adv"@ {
        EngineMode::Adv
    } else {
        EngineMode::Invalid
    }
}

impl EngineMode {
    /// Validate a configured mode string, once, at configuration load time.
    pub fn parse(s: &String) -> (m: EngineMode)
        ensures
            m == mode_of(s@),
    {
        if *s == "std".to_owned() {
            EngineMode::Std
        } else if *s == "freq".to_owned() {
            EngineMode::Freq
        } else if *s == "adv".to_owned() {
            EngineMode::Adv
        } else {
            EngineMode::Invalid
        }
    }
}

} // verus!
