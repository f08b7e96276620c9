use baby_wgpu::apparat::select_format;
use baby_wgpu::icon::icon_bytes_match;
use baby_wgpu::{Channel, State};

#[test]
fn srgb_format_is_preferred() {
    assert_eq!(select_format(&vec![false, true, false]), 1);
    assert_eq!(select_format(&vec![false, false, true]), 2);
    assert_eq!(select_format(&vec![true, true]), 0);
}

#[test]
fn first_format_without_any_srgb() {
    assert_eq!(select_format(&vec![false]), 0);
    assert_eq!(select_format(&vec![false, false, false]), 0);
}

#[test]
fn new_state_records_chosen_format() {
    let s = State::new(640, 480, &vec![false, false, true, true]);
    assert_eq!(s.format_index, 2);
    assert_eq!(s.present_mode_index, 0);
    assert_eq!(s.alpha_mode_index, 0);

    let t = State::new(640, 480, &vec![false, false]);
    assert_eq!(t.format_index, 0);
}

#[test]
fn channel_value_is_truncated_exactly() {
    let third = Channel::clamped(1, 3);
    assert_eq!(third.millionths(), 333_333);
    let whole = Channel::clamped(7, 3);
    assert_eq!(whole, Channel { num: 3, den: 3 });
    assert_eq!(whole.millionths(), 1_000_000);
}

#[test]
fn icon_bytes_match_is_exact() {
    assert!(icon_bytes_match(4 * 32 * 32, 32, 32));
    assert!(!icon_bytes_match(4 * 32 * 32 - 1, 32, 32));
    assert!(!icon_bytes_match(4 * 32 * 32 + 1, 32, 32));
    assert!(icon_bytes_match(0, 0, 16));
    assert!(!icon_bytes_match(3, 1, 1));
}
