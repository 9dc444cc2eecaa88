use render_wasm::options::{DEBUG_VISIBLE, FAST_MODE, PROFILE_REBUILD_TILES, SETTLING_MODE};
use render_wasm::render_options::RenderOptions;

#[test]
fn default_options_have_no_flags_and_unit_dpr() {
    let opts = RenderOptions::default();
    assert_eq!(opts.flags, 0);
    assert!(!opts.is_debug_visible());
    assert!(!opts.is_profile_rebuild_tiles());
    assert!(!opts.is_fast_mode());
    assert!(!opts.is_settling_mode());
    assert!(!opts.is_reduced_quality());
    assert_eq!(f32::from_bits(opts.dpr()), 1.0);
}

#[test]
fn dpr_returns_the_given_ratio() {
    let opts = RenderOptions { flags: 0, dpr: Some(2.5f32.to_bits()) };
    assert_eq!(f32::from_bits(opts.dpr()), 2.5);
}

#[test]
fn flags_are_read_bit_by_bit() {
    let opts = RenderOptions { flags: DEBUG_VISIBLE | PROFILE_REBUILD_TILES, dpr: None };
    assert!(opts.is_debug_visible());
    assert!(opts.is_profile_rebuild_tiles());
    assert!(!opts.is_fast_mode());
    let opts = RenderOptions { flags: SETTLING_MODE, dpr: None };
    assert!(opts.is_settling_mode());
    assert!(opts.is_reduced_quality());
}

#[test]
fn set_fast_mode_reads_back_and_keeps_other_flags() {
    let mut opts = RenderOptions { flags: DEBUG_VISIBLE | SETTLING_MODE, dpr: Some(7) };
    opts.set_fast_mode(true);
    assert!(opts.is_fast_mode());
    assert_eq!(opts.flags, DEBUG_VISIBLE | SETTLING_MODE | FAST_MODE);
    opts.set_fast_mode(false);
    assert!(!opts.is_fast_mode());
    assert!(opts.is_settling_mode());
    assert!(opts.is_debug_visible());
    assert_eq!(opts.dpr, Some(7));
}

#[test]
fn set_settling_mode_reads_back_and_keeps_other_flags() {
    let mut opts = RenderOptions { flags: FAST_MODE, dpr: None };
    opts.set_settling_mode(true);
    assert_eq!(opts.flags, FAST_MODE | SETTLING_MODE);
    opts.set_settling_mode(false);
    assert_eq!(opts.flags, FAST_MODE);
    opts.set_settling_mode(false);
    assert_eq!(opts.flags, FAST_MODE);
}

#[test]
fn reduced_quality_is_fast_or_settling() {
    let mut opts = RenderOptions::default();
    opts.set_fast_mode(true);
    assert!(opts.is_reduced_quality());
    opts.set_fast_mode(false);
    opts.set_settling_mode(true);
    assert!(opts.is_reduced_quality());
    opts.set_settling_mode(false);
    assert!(!opts.is_reduced_quality());
}

#[test]
fn setting_modes_in_either_order_agrees() {
    let mut a = RenderOptions { flags: 0xff, dpr: None };
    let mut b = a;
    a.set_fast_mode(false);
    a.set_settling_mode(true);
    b.set_settling_mode(true);
    b.set_fast_mode(false);
    assert_eq!(a, b);
    assert_eq!(a.flags, 0xff & !FAST_MODE);
}
