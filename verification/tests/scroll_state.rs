//! The scroll state machine: speed resolution, intervals, advances, wraps.

use unicorn_board::scroll::{interval_us, resolve_speed, Scroll, ScrollState, STATIC_POLL_US};

#[test]
fn resolve_speed_by_mode() {
    // capacity 2, text of 4 characters
    assert_eq!(resolve_speed(&Scroll::Off, 4, 2), 0);
    assert_eq!(resolve_speed(&Scroll::Left { speed: 16000, spacing: 5 }, 4, 2), 16000);
    assert_eq!(resolve_speed(&Scroll::Right { speed: 8000, spacing: 5 }, 4, 2), -8000);
    assert_eq!(resolve_speed(&Scroll::LeftAuto { speed: 16000, spacing: 5 }, 4, 2), 16000);
    assert_eq!(resolve_speed(&Scroll::RightAuto { speed: 8000, spacing: 5 }, 4, 2), -8000);
}

/// The auto modes degrade to static when the text fits the display.
#[test]
fn auto_modes_static_when_text_fits() {
    assert_eq!(resolve_speed(&Scroll::LeftAuto { speed: 16000, spacing: 5 }, 2, 2), 0);
    assert_eq!(resolve_speed(&Scroll::RightAuto { speed: 16000, spacing: 5 }, 1, 2), 0);
    // one character over the capacity scrolls
    assert_eq!(resolve_speed(&Scroll::LeftAuto { speed: 16000, spacing: 5 }, 3, 2), 16000);
}

#[test]
fn interval_is_exact_in_microseconds() {
    // 16 px/s = 16000 milli-px/s: one pixel every 62500 us
    assert_eq!(interval_us(16000), 62_500);
    assert_eq!(interval_us(-8000), 125_000);
    // 1 px/s exactly one second
    assert_eq!(interval_us(1000), 1_000_000);
}

#[test]
fn update_advances_only_after_interval() {
    let mut s = ScrollState::new(16000, 0);
    // nothing has elapsed yet: no advance, next deadline one interval away
    let next = s.update(0, 32);
    assert_eq!(s.x_offset, 0);
    assert_eq!(next, 62_500);
    // just before the interval: still no advance, same absolute deadline
    let next = s.update(62_499, 32);
    assert_eq!(s.x_offset, 0);
    assert_eq!(next, 62_500);
    // at the interval: advance by one, next deadline a full interval later
    let next = s.update(62_500, 32);
    assert_eq!(s.x_offset, 1);
    assert_eq!(next, 125_000);
}

/// Advancing left from the last pixel wraps the offset to zero.
#[test]
fn left_advance_wraps_to_zero() {
    let mut s = ScrollState { speed: 1000, x_offset: 31, prev_us: 0 };
    s.update(1_000_000, 32);
    assert_eq!(s.x_offset, 0);
}

/// Advancing right from offset zero wraps to the last pixel.
#[test]
fn right_advance_wraps_to_width_minus_one() {
    let mut s = ScrollState { speed: -1000, x_offset: 0, prev_us: 0 };
    s.update(1_000_000, 32);
    assert_eq!(s.x_offset, 31);
}

/// A full cycle of advances returns the offset to where it started and
/// never leaves `[0, width)`.
#[test]
fn offset_stays_in_range_over_full_cycle() {
    let mut s = ScrollState::new(1_000_000, 0);
    let width = 24;
    let mut t = 0u64;
    for step in 1..=width {
        t += 1_000; // one interval at 1000 px/s
        s.update(t, width as usize);
        assert!(s.x_offset < width as usize);
        assert_eq!(s.x_offset, step % width);
    }
    assert_eq!(s.x_offset, 0);
}

/// A zero speed never advances and is polled at the fixed interval.
#[test]
fn static_line_never_advances() {
    let mut s = ScrollState::new(0, 0);
    let next = s.update(5_000_000, 16);
    assert_eq!(s.x_offset, 0);
    assert_eq!(s.prev_us, 0);
    assert_eq!(next, 5_000_000 + STATIC_POLL_US);
}

/// The reported deadline is never in the past, whatever the clock reads.
#[test]
fn deadline_never_in_past() {
    for &speed in &[0i64, 1, -1, 16000, -8000, 4_294_967_295] {
        let mut s = ScrollState { speed, x_offset: 3, prev_us: 7_777 };
        for &now in &[0u64, 7_777, 1_000_000, u64::MAX - 1] {
            let next = s.update(now, 10);
            assert!(next >= now);
        }
    }
}
