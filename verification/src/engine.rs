//! The action arbiter: the per-frame decision pipeline.
//!
//! Each frame the engine receives the current monotonic time, the frame's
//! loudness, the optionally detected note and the modifier-key snapshot, and
//! produces at most one pointer action. A frame yields nothing while the
//! post-click cooldown is pending, when no note was detected, or when the
//! loudness fails the activation threshold. Above the click threshold the
//! frame yields a click and arms a 500 ms cooldown; between the two
//! thresholds it yields the displacement the configured direction-mapping
//! mode assigns, if any.

use vstd::prelude::*;

use crate::direction::adv_direction;
use crate::direction::direction_of;
use crate::direction::freq_direction;
use crate::direction::standard_direction;
use crate::power::compute_power;
use crate::power::power_of;
use crate::types::DetectedNote;
use crate::types::EngineConfig;
use crate::types::EngineMode;
use crate::types::ModifierState;
use crate::types::MouseButton;
use crate::types::PointerAction;

verus! {

/// How long, in milliseconds, actions stay suppressed after a click.
pub const COOLDOWN_MS: u64 = 500;

/// The button a click presses: right above octave four, left at or below.
pub open spec fn click_button_of(octave: int) -> MouseButton {
    if octave > 4 {
        MouseButton::Right
    } else {
        MouseButton::Left
    }
}

/// One step of the engine as a mathematical function: from the pending
/// cooldown deadline and the frame's inputs to the new deadline and the
/// frame's action.
pub open spec fn step_of(
    cooldown_until: u64,
    now_ms: u64,
    loudness: i32,
    note: Option<DetectedNote>,
    mods: ModifierState,
    cfg: EngineConfig,
) -> (u64, Option<PointerAction>) {
    if now_ms < cooldown_until {
        (cooldown_until, None)
    } else if note is None {
        (cooldown_until, None)
    } else if loudness <= cfg.default_threshold {
        (cooldown_until, None)
    } else {
        let n = note->Some_0;
        if loudness > cfg.click_threshold {
            (
                (now_ms + COOLDOWN_MS) as u64,
                Some(PointerAction::Click { button: click_button_of(n.octave as int) }),
            )
        } else {
            match direction_of(cfg.mode, n, power_of(loudness as int, cfg, mods)) {
                Some(d) => (cooldown_until, Some(PointerAction::Move { dx: d.0 as i64, dy: d.1 as i64 })),
                None => (cooldown_until, None),
            }
        }
    }
}

/// The engine's only cross-frame state: the deadline until which the
/// post-click cooldown suppresses every action. Zero means idle.
pub struct Engine {
    pub cooldown_until: u64,
}

impl Engine {
    /// A fresh engine with no pending cooldown.
    pub fn new() -> (e: Engine)
        ensures
            e.cooldown_until == 0,
    {
        Engine { cooldown_until: 0 }
    }

    /// Process one frame: the exact step of `step_of` on the engine's
    /// pending cooldown and the frame's inputs.
    pub fn process_frame(
        &mut self,
        now_ms: u64,
        loudness: i32,
        note: Option<DetectedNote>,
        mods: &ModifierState,
        cfg: &EngineConfig,
    ) -> (action: Option<PointerAction>)
        requires
            now_ms <= u64::MAX - COOLDOWN_MS,
        ensures
            (final(self).cooldown_until, action) == step_of(
                old(self).cooldown_until,
                now_ms,
                loudness,
                note,
                *mods,
                *cfg,
            ),
            loudness <= cfg.default_threshold ==> action is None,
    {
        if now_ms < self.cooldown_until {
            return None;
        }
        let n = match note {
            Some(n) => n,
            None => {
                return None;
            },
        };
        let power = match compute_power(loudness, cfg, mods) {
            Some(p) => p,
            None => {
                return None;
            },
        };
        if loudness > cfg.click_threshold {
            self.cooldown_until = now_ms + COOLDOWN_MS;
            let button = if n.octave > 4 {
                MouseButton::Right
            } else {
                MouseButton::Left
            };
            return Some(PointerAction::Click { button });
        }
        match cfg.mode {
            EngineMode::Std => {
                let d = standard_direction(n.note_name, power);
                Some(PointerAction::Move { dx: d.0, dy: d.1 })
            },
            EngineMode::Adv => {
                let d = adv_direction(n.note_name, power);
                Some(PointerAction::Move { dx: d.0, dy: d.1 })
            },
            EngineMode::Freq => match freq_direction(n.freq_millihertz, power) {
                Some(d) => Some(PointerAction::Move { dx: d.0, dy: d.1 }),
                None => None,
            },
            EngineMode::Invalid => None,
        }
    }
}

/// Law: a frame whose loudness does not exceed the activation threshold
/// produces no action and leaves the cooldown untouched, whatever note,
/// mode and modifier keys the frame carries.
pub proof fn lemma_gate_suppresses(
    cooldown_until: u64,
    now_ms: u64,
    loudness: i32,
    note: Option<DetectedNote>,
    mods: ModifierState,
    cfg: EngineConfig,
)
    requires
        loudness <= cfg.default_threshold,
    ensures
        step_of(cooldown_until, now_ms, loudness, note, mods, cfg).1 is None,
        step_of(cooldown_until, now_ms, loudness, note, mods, cfg).0 == cooldown_until,
{
}

/// Law: a ready frame whose loudness exceeds both thresholds and that
/// carries a note always yields a click — never a move — with the button
/// chosen by the octave; and any second frame arriving within the 500 ms
/// cooldown of that click yields no action at all.
pub proof fn lemma_click_excludes_move(
    cooldown_until: u64,
    now_ms: u64,
    loudness: i32,
    note: Option<DetectedNote>,
    mods: ModifierState,
    cfg: EngineConfig,
    now2_ms: u64,
    loudness2: i32,
    note2: Option<DetectedNote>,
    mods2: ModifierState,
)
    requires
        cooldown_until <= now_ms,
        now_ms <= u64::MAX - COOLDOWN_MS,
        note is Some,
        loudness > cfg.click_threshold,
        loudness > cfg.default_threshold,
        now_ms <= now2_ms < now_ms + COOLDOWN_MS,
    ensures
        step_of(cooldown_until, now_ms, loudness, note, mods, cfg).1 == Some(
            PointerAction::Click { button: click_button_of(note->Some_0.octave as int) },
        ),
        step_of(cooldown_until, now_ms, loudness, note, mods, cfg).0 == now_ms + COOLDOWN_MS,
        step_of(
            step_of(cooldown_until, now_ms, loudness, note, mods, cfg).0,
            now2_ms,
            loudness2,
            note2,
            mods2,
            cfg,
        ).1 is None,
{
}

} // verus!
