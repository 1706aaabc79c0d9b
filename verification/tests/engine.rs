use vocal_mouse::engine::Engine;
use vocal_mouse::power::compute_power;
use vocal_mouse::types::DetectedNote;
use vocal_mouse::types::EngineConfig;
use vocal_mouse::types::EngineMode;
use vocal_mouse::types::ModifierState;
use vocal_mouse::types::MouseButton;
use vocal_mouse::types::NoteName;
use vocal_mouse::types::PointerAction;

fn config(mode: EngineMode) -> EngineConfig {
    EngineConfig {
        mode,
        click_threshold: 100,
        default_threshold: 10,
        default_power: 5,
        power_multiplier_milli: 1000,
        vol_multiplier_milli: 1000,
    }
}

fn no_mods() -> ModifierState {
    ModifierState { left_shift: false, left_control: false }
}

fn note(note_name: NoteName, octave: i32, freq_millihertz: u64) -> DetectedNote {
    DetectedNote { note_name, octave, freq_millihertz }
}

#[test]
fn power_formula_matches_documented_example() {
    // default_threshold 10, power_multiplier 1.0, default_power 5,
    // loudness 40: base power (40 - 10) * 1.0 + 5 = 35.
    let cfg = config(EngineMode::Std);
    assert_eq!(compute_power(40, &cfg, &no_mods()), Some(35));
}

#[test]
fn left_shift_doubles_power() {
    let cfg = config(EngineMode::Std);
    let shift = ModifierState { left_shift: true, left_control: false };
    assert_eq!(compute_power(40, &cfg, &shift), Some(70));
}

#[test]
fn left_control_halves_power_truncating() {
    let cfg = config(EngineMode::Std);
    let ctrl = ModifierState { left_shift: false, left_control: true };
    assert_eq!(compute_power(40, &cfg, &ctrl), Some(17));
}

#[test]
fn shift_wins_over_control() {
    let cfg = config(EngineMode::Std);
    let both = ModifierState { left_shift: true, left_control: true };
    assert_eq!(compute_power(40, &cfg, &both), Some(70));
}

#[test]
fn power_multiplier_truncates_before_default_power() {
    // (40 - 10) * 0.35 = 10.5, truncated to 10, plus 5.
    let mut cfg = config(EngineMode::Std);
    cfg.power_multiplier_milli = 350;
    assert_eq!(compute_power(40, &cfg, &no_mods()), Some(15));
}

#[test]
fn gate_refuses_loudness_at_or_below_threshold() {
    let cfg = config(EngineMode::Std);
    assert_eq!(compute_power(10, &cfg, &no_mods()), None);
    assert_eq!(compute_power(0, &cfg, &no_mods()), None);
    assert_eq!(compute_power(-3, &cfg, &no_mods()), None);
    assert_eq!(compute_power(11, &cfg, &no_mods()), Some(6));
}

#[test]
fn quiet_frame_produces_no_action() {
    let mut engine = Engine::new();
    let cfg = config(EngineMode::Std);
    let n = note(NoteName::A, 4, 440_000);
    for loudness in [-50, 0, 9, 10] {
        assert_eq!(engine.process_frame(0, loudness, Some(n), &no_mods(), &cfg), None);
    }
}

#[test]
fn frame_without_note_produces_no_action() {
    let mut engine = Engine::new();
    let cfg = config(EngineMode::Std);
    assert_eq!(engine.process_frame(0, 500, None, &no_mods(), &cfg), None);
}

#[test]
fn loud_frame_clicks_and_never_moves() {
    let mut engine = Engine::new();
    let cfg = config(EngineMode::Std);
    let n = note(NoteName::A, 4, 440_000);
    let action = engine.process_frame(0, 150, Some(n), &no_mods(), &cfg);
    assert_eq!(action, Some(PointerAction::Click { button: MouseButton::Left }));
}

#[test]
fn octave_five_clicks_right() {
    let mut engine = Engine::new();
    let cfg = config(EngineMode::Std);
    let n = note(NoteName::C, 5, 520_000);
    let action = engine.process_frame(0, 150, Some(n), &no_mods(), &cfg);
    assert_eq!(action, Some(PointerAction::Click { button: MouseButton::Right }));
}

#[test]
fn octave_three_clicks_left() {
    let mut engine = Engine::new();
    let cfg = config(EngineMode::Std);
    let n = note(NoteName::C, 3, 130_000);
    let action = engine.process_frame(0, 150, Some(n), &no_mods(), &cfg);
    assert_eq!(action, Some(PointerAction::Click { button: MouseButton::Left }));
}

#[test]
fn octave_four_tie_breaks_to_left() {
    let mut engine = Engine::new();
    let cfg = config(EngineMode::Std);
    let n = note(NoteName::C, 4, 260_000);
    let action = engine.process_frame(0, 150, Some(n), &no_mods(), &cfg);
    assert_eq!(action, Some(PointerAction::Click { button: MouseButton::Left }));
}

#[test]
fn cooldown_suppresses_frames_within_500_ms() {
    let mut engine = Engine::new();
    let cfg = config(EngineMode::Std);
    let n = note(NoteName::A, 5, 440_000);
    let click = engine.process_frame(1_000, 150, Some(n), &no_mods(), &cfg);
    assert!(matches!(click, Some(PointerAction::Click { .. })));
    // Frames inside the dead time are consumed but yield nothing, even
    // though their own loudness would qualify.
    assert_eq!(engine.process_frame(1_001, 150, Some(n), &no_mods(), &cfg), None);
    assert_eq!(engine.process_frame(1_250, 40, Some(n), &no_mods(), &cfg), None);
    assert_eq!(engine.process_frame(1_499, 150, Some(n), &no_mods(), &cfg), None);
    // At the deadline the engine processes frames again.
    let next = engine.process_frame(1_500, 150, Some(n), &no_mods(), &cfg);
    assert!(matches!(next, Some(PointerAction::Click { .. })));
}

#[test]
fn move_range_dispatches_by_mode() {
    let cfg = config(EngineMode::Std);
    let mut engine = Engine::new();
    let n = note(NoteName::A, 4, 440_000);
    let action = engine.process_frame(0, 40, Some(n), &no_mods(), &cfg);
    assert_eq!(action, Some(PointerAction::Move { dx: 35, dy: 0 }));
}

#[test]
fn adv_mode_moves_diagonally() {
    let cfg = config(EngineMode::Adv);
    let mut engine = Engine::new();
    let n = note(NoteName::B, 4, 494_000);
    let action = engine.process_frame(0, 40, Some(n), &no_mods(), &cfg);
    assert_eq!(action, Some(PointerAction::Move { dx: 35, dy: 35 }));
}

#[test]
fn freq_mode_ignores_note_name() {
    let cfg = config(EngineMode::Freq);
    let mut engine = Engine::new();
    // 250 Hz lies in the second band, which maps to down.
    let n = note(NoteName::A, 4, 250_000);
    let action = engine.process_frame(0, 40, Some(n), &no_mods(), &cfg);
    assert_eq!(action, Some(PointerAction::Move { dx: 0, dy: 35 }));
}

#[test]
fn freq_mode_out_of_range_produces_no_action() {
    let cfg = config(EngineMode::Freq);
    let mut engine = Engine::new();
    let n = note(NoteName::A, 4, 1_500_000);
    assert_eq!(engine.process_frame(0, 40, Some(n), &no_mods(), &cfg), None);
}

#[test]
fn invalid_mode_suppresses_movement_but_not_clicks() {
    let cfg = config(EngineMode::Invalid);
    let mut engine = Engine::new();
    let n = note(NoteName::A, 4, 440_000);
    assert_eq!(engine.process_frame(0, 40, Some(n), &no_mods(), &cfg), None);
    let click = engine.process_frame(0, 150, Some(n), &no_mods(), &cfg);
    assert_eq!(click, Some(PointerAction::Click { button: MouseButton::Left }));
}

#[test]
fn new_engine_starts_idle() {
    let mut engine = Engine::new();
    let cfg = config(EngineMode::Std);
    let n = note(NoteName::A, 4, 440_000);
    // No pending cooldown: the very first frame can act.
    assert!(engine.process_frame(0, 40, Some(n), &no_mods(), &cfg).is_some());
}

#[test]
fn mode_strings_parse_to_their_strategies() {
    assert_eq!(EngineMode::parse(&"std".to_owned()), EngineMode::Std);
    assert_eq!(EngineMode::parse(&"freq".to_owned()), EngineMode::Freq);
    assert_eq!(EngineMode::parse(&"adv".to_owned()), EngineMode::Adv);
    assert_eq!(EngineMode::parse(&"".to_owned()), EngineMode::Invalid);
    assert_eq!(EngineMode::parse(&"standard".to_owned()), EngineMode::Invalid);
    assert_eq!(EngineMode::parse(&"STD".to_owned()), EngineMode::Invalid);
}
