use speaker_core::capture::{wrapping_subtract, CaptureState};
use speaker_core::feedback::FeedbackSignal;

#[test]
fn delta_across_counter_wrap() {
    assert_eq!(wrapping_subtract(0x0000_0010, 0xFFFF_FFF0), 0x20);
}

#[test]
fn delta_without_wrap() {
    assert_eq!(wrapping_subtract(400, 100), 300);
    assert_eq!(wrapping_subtract(7, 7), 0);
    assert_eq!(wrapping_subtract(u32::MAX, 0), u32::MAX);
    assert_eq!(wrapping_subtract(0, u32::MAX), 1);
}

#[test]
fn delta_adds_back_to_later_value() {
    let pairs: [(u32, u32); 4] = [(5, 10), (0, 1), (123_456, 4_000_000_000), (99, 98)];
    for (later, earlier) in pairs {
        let d = wrapping_subtract(later, earlier);
        assert_eq!(earlier.wrapping_add(d), later);
    }
}

#[test]
fn first_window_measures_from_reset_value() {
    let mut state = CaptureState::new(4);
    let mut signal = FeedbackSignal::new();
    let captures: [u32; 5] = [100, 205, 300, 400, 512];
    let mut published = Vec::new();
    for (i, t) in captures.iter().enumerate() {
        if let Some(d) = state.on_interrupt(Some(*t), &mut signal) {
            published.push((i, d));
        }
        if i < 3 {
            assert!(!signal.is_pending());
        }
    }
    // The first window starts at the reset value 0, so the first delta spans
    // from 0 to the fourth capture.
    assert_eq!(published, vec![(3, 400)]);
    assert_eq!(state.last_ticks(), 400);
    assert_eq!(state.frame_count(), 1);
    assert_eq!(signal.try_take(), Some(400));
}

#[test]
fn window_of_four_after_reference_set() {
    // Last window ended at 100: the next four pulses end at 400.
    let mut state = CaptureState::new(4);
    let mut signal = FeedbackSignal::new();
    for t in [10u32, 20, 30, 100] {
        state.on_interrupt(Some(t), &mut signal);
    }
    assert_eq!(signal.try_take(), Some(100));
    assert_eq!(state.last_ticks(), 100);
    assert_eq!(state.frame_count(), 0);
    let mut published = Vec::new();
    for t in [100u32, 205, 300, 400, 512] {
        published.push(state.on_interrupt(Some(t), &mut signal));
        if published.len() < 4 {
            assert!(!signal.is_pending());
        }
    }
    assert_eq!(published, vec![None, None, None, Some(300), None]);
    assert_eq!(signal.try_take(), Some(300));
    assert_eq!(state.last_ticks(), 400);
    assert_eq!(state.frame_count(), 1);
}

#[test]
fn frame_count_stays_below_period() {
    let mut state = CaptureState::new(3);
    let mut t: u32 = 0xFFFF_FF00;
    for _ in 0..20 {
        t = t.wrapping_add(0x40);
        let r = state.on_capture(t);
        assert!(state.frame_count() < state.refresh_period());
        if r.is_some() {
            assert_eq!(state.frame_count(), 0);
            assert_eq!(state.last_ticks(), t);
        }
    }
}

#[test]
fn period_one_publishes_every_pulse() {
    let mut state = CaptureState::new(1);
    assert_eq!(state.on_capture(50), Some(50));
    assert_eq!(state.on_capture(80), Some(30));
    assert_eq!(state.on_capture(5), Some(0xFFFF_FFB5));
    assert_eq!(state.frame_count(), 0);
}

#[test]
fn trigger_only_interrupt_changes_nothing() {
    let mut state = CaptureState::new(2);
    let mut signal = FeedbackSignal::new();
    assert_eq!(state.on_interrupt(Some(10), &mut signal), None);
    assert_eq!(state.on_interrupt(None, &mut signal), None);
    assert_eq!(state.frame_count(), 1);
    assert_eq!(state.last_ticks(), 0);
    assert!(!signal.is_pending());
    assert_eq!(state.on_interrupt(Some(30), &mut signal), Some(30));
    assert_eq!(signal.try_take(), Some(30));
}

#[test]
fn fresh_state() {
    let state = CaptureState::new(8);
    assert_eq!(state.last_ticks(), 0);
    assert_eq!(state.frame_count(), 0);
    assert_eq!(state.refresh_period(), 8);
}

#[test]
fn window_publishes_only_on_completing_pulse() {
    let mut state = CaptureState::new(5);
    let mut seen = Vec::new();
    for t in [0xFFFF_FFF0u32, 0xFFFF_FFF8, 2, 9, 0x10, 0x30] {
        seen.push(state.on_capture(t));
    }
    assert_eq!(seen, vec![None, None, None, None, Some(0x10), None]);
    assert_eq!(state.last_ticks(), 0x10);
    assert_eq!(state.frame_count(), 1);
}
