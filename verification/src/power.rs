//! Decides whether a frame's loudness clears the activation threshold, and
//! if so computes the movement power, adjusted by the modifier keys.
//!
//! The base power is `(loudness - default_threshold) * power_multiplier`
//! truncated to an integer, plus `default_power`. The multiplier is carried
//! in thousandths: the product is formed first and the thousandths divided
//! back out afterwards, so truncation happens once, after the
//! multiplication. Left shift then doubles the power; otherwise left
//! control halves it, truncating toward zero.

use vstd::prelude::*;

use crate::types::EngineConfig;
use crate::types::ModifierState;

verus! {

/// Halving as Rust's integer division performs it on possibly negative
/// values: the quotient is truncated toward zero.
pub open spec fn half_toward_zero(p: int) -> int {
    if p >= 0 {
        p / 2
    } else {
        -((-p) / 2)
    }
}

/// The base power of a frame whose loudness cleared the activation
/// threshold, before any modifier scaling.
pub open spec fn base_power_of(loudness: int, cfg: EngineConfig) -> int {
    (loudness - cfg.default_threshold) * cfg.power_multiplier_milli / 1000 + cfg.default_power
}

/// The power of a frame after modifier scaling: left shift doubles it;
/// otherwise left control halves it toward zero; first match wins.
pub open spec fn power_of(loudness: int, cfg: EngineConfig, mods: ModifierState) -> int {
    let base = base_power_of(loudness, cfg);
    if mods.left_shift {
        2 * base
    } else if mods.left_control {
        half_toward_zero(base)
    } else {
        base
    }
}

/// The activation gate: `None` exactly when the loudness fails to exceed the
/// activation threshold, else the adjusted power for this frame.
pub fn compute_power(loudness: i32, cfg: &EngineConfig, mods: &ModifierState) -> (p: Option<i64>)
    ensures
        p is Some <==> loudness > cfg.default_threshold,
        p is Some ==> p->Some_0 == power_of(loudness as int, *cfg, *mods),
        p is Some ==> p->Some_0 >= -0x1_0000_0000i64,
{
    if loudness <= cfg.default_threshold {
        return None;
    }
    let diff: u64 = (loudness as i64 - cfg.default_threshold as i64) as u64;
    proof {
        assert(diff * (cfg.power_multiplier_milli as u64) <= 0x1_0000_0000u64 * 0xffff_ffffu64)
            by (nonlinear_arith)
            requires
                diff <= 0x1_0000_0000u64,
                cfg.power_multiplier_milli <= 0xffff_ffffu32,
        ;
    }
    let scaled: u64 = diff * (cfg.power_multiplier_milli as u64) / 1000;
    let base: i64 = (scaled as i64) + (cfg.default_power as i64);
    let adjusted: i64 = if mods.left_shift {
        2 * base
    } else if mods.left_control {
        if base >= 0 {
            ((base as u64) / 2) as i64
        } else {
            -((((-base) as u64) / 2) as i64)
        }
    } else {
        base
    };
    Some(adjusted)
}

} // verus!
