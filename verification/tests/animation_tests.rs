use edp_tui::animation::{compact_indicator_text, CoreMode, Dot, MotionMode};

#[test]
fn reduced_and_off_modes_change_animation_scheduling() {
    assert!(MotionMode::Reduced.tick_interval() > MotionMode::Full.tick_interval());
    assert_eq!(MotionMode::Off.tick_interval(), None);
}

#[test]
fn compact_indicator_cycles_and_preserves_mode() {
    assert_ne!(compact_indicator_text(0, CoreMode::Stable), compact_indicator_text(2, CoreMode::Stable));
    assert_eq!(compact_indicator_text(0, CoreMode::Stable), compact_indicator_text(8, CoreMode::Stable));
    assert!(compact_indicator_text(0, CoreMode::Busy).contains("ACTIVE"));
    assert!(compact_indicator_text(0, CoreMode::Guard).contains("GUARDED"));
}

#[test]
fn motion_setting_is_case_insensitive() {
    assert_eq!(MotionMode::from_setting(Some("OFF")), MotionMode::Off);
    assert_eq!(MotionMode::from_setting(Some("Reduced")), MotionMode::Reduced);
    assert_eq!(MotionMode::from_setting(Some("fast")), MotionMode::Full);
    assert_eq!(MotionMode::from_setting(None), MotionMode::Full);
    assert_eq!(MotionMode::Reduced.tick_interval_ms(), Some(240));
}

#[test]
fn dot_glyphs_shimmer_with_the_tick() {
    assert_eq!(Dot::Dim.glyph(0, 0, 0), "⠂");
    assert_eq!(Dot::Dim.glyph(1, 0, 0), "·");
    assert_eq!(Dot::Core.glyph(0, 0, 0), "▓");
    assert_eq!(Dot::Core.glyph(3, 0, 0), "▒");
    assert_eq!(Dot::Hot.glyph(5, 2, 2), "◆");
    assert_eq!(compact_indicator_text(2, CoreMode::Stable), "  CORE ◆ STABLE");
}

#[test]
fn tick_intervals_are_the_documented_ones() {
    assert_eq!(MotionMode::Full.tick_interval(), Some(std::time::Duration::from_millis(80)));
    assert_eq!(MotionMode::Reduced.tick_interval(), Some(std::time::Duration::from_millis(240)));
    assert_eq!(MotionMode::Off.tick_interval(), None);
}
