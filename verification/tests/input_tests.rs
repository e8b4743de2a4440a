use egui_wgpu::input::{EventBridge, FrameInput};
use egui_wgpu::Scalar;

fn s(value: f32) -> Scalar {
    Scalar::from_bits(value.to_bits())
}

#[test]
fn fresh_snapshot_holds_the_defaults() {
    let input = FrameInput::new(42);
    assert!(!input.mouse_down);
    assert_eq!(input.mouse_pos, None);
    assert_eq!(input.scroll_delta, (s(0.0), s(0.0)));
    assert_eq!(input.screen_size, (s(0.0), s(0.0)));
    assert_eq!(input.pixels_per_point, s(1.0));
    assert_eq!(input.time, 42);
    assert_eq!(FrameInput::default(), FrameInput::new(0));
}

#[test]
fn pointer_move_overwrites_the_position() {
    let mut input = FrameInput::new(0);
    input.apply(EventBridge::MouseMove { x: s(1.0), y: s(2.0) });
    assert_eq!(input.mouse_pos, Some((s(1.0), s(2.0))));
    input.apply(EventBridge::MouseMove { x: s(30.0), y: s(40.0) });
    assert_eq!(input.mouse_pos, Some((s(30.0), s(40.0))));
    assert_eq!(FrameInput { mouse_pos: None, ..input }, FrameInput::new(0));
}

#[test]
fn button_events_set_the_flag() {
    let mut input = FrameInput::new(0);
    input.apply(EventBridge::MouseDown);
    assert!(input.mouse_down);
    input.apply(EventBridge::MouseDown);
    assert!(input.mouse_down);
    input.apply(EventBridge::MouseUp);
    assert!(!input.mouse_down);
    assert_eq!(input, FrameInput::new(0));
}

#[test]
fn scroll_overwrites_and_does_not_add_up() {
    let mut input = FrameInput::new(0);
    input.apply(EventBridge::Scroll { x: s(1.0), y: s(5.0) });
    input.apply(EventBridge::Scroll { x: s(2.0), y: s(3.0) });
    assert_eq!(input.scroll_delta, (s(2.0), s(3.0)));
}

#[test]
fn resize_sets_the_screen_size() {
    let mut input = FrameInput::new(0);
    input.apply(EventBridge::Resize { w: s(640.0), h: s(480.0) });
    input.apply(EventBridge::Resize { w: s(800.0), h: s(600.0) });
    assert_eq!(input.screen_size, (s(800.0), s(600.0)));
}

#[test]
fn density_change_sets_the_density() {
    let mut input = FrameInput::new(0);
    input.apply(EventBridge::PppChanged(s(2.0)));
    assert_eq!(input.pixels_per_point, s(2.0));
}

#[test]
fn ignored_event_changes_nothing() {
    let mut input = FrameInput::new(9);
    input.apply(EventBridge::MouseDown);
    input.apply(EventBridge::Scroll { x: s(1.0), y: s(1.0) });
    let before = input;
    input.apply(EventBridge::Ignore);
    assert_eq!(input, before);
}

#[test]
fn take_hands_the_snapshot_out_and_starts_afresh() {
    let mut input = FrameInput::new(5);
    input.apply(EventBridge::MouseDown);
    input.apply(EventBridge::MouseMove { x: s(3.0), y: s(4.0) });
    input.apply(EventBridge::Resize { w: s(800.0), h: s(600.0) });
    input.apply(EventBridge::PppChanged(s(1.5)));
    let accumulated = input;
    let snapshot = input.take(1_000);
    assert_eq!(snapshot, FrameInput { time: 1_000, ..accumulated });
    assert_eq!(input, FrameInput::new(1_000));
}
