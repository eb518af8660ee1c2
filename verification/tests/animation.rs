use bounce_label::color::Color;
use bounce_label::color::color_for_frame;
use bounce_label::engine::FrameLoop;
use bounce_label::engine::InputEvent;
use bounce_label::engine::Key;
use bounce_label::engine::LoopState;
use bounce_label::engine::should_terminate;
use bounce_label::motion::AnimationState;

#[test]
fn color_frame_zero_is_red() {
    assert_eq!(color_for_frame(0), Color { r: 255, g: 0, b: 0 });
}

#[test]
fn color_sampled_frames() {
    assert_eq!(color_for_frame(1), Color { r: 255, g: 6, b: 0 });
    assert_eq!(color_for_frame(42), Color { r: 255, g: 252, b: 0 });
    assert_eq!(color_for_frame(43), Color { r: 252, g: 255, b: 0 });
    assert_eq!(color_for_frame(85), Color { r: 0, g: 255, b: 0 });
    assert_eq!(color_for_frame(128), Color { r: 0, g: 252, b: 255 });
    assert_eq!(color_for_frame(170), Color { r: 0, g: 0, b: 255 });
    assert_eq!(color_for_frame(213), Color { r: 255, g: 0, b: 252 });
    assert_eq!(color_for_frame(254), Color { r: 255, g: 0, b: 6 });
}

#[test]
fn color_channels_in_range() {
    for counter in 0..255u8 {
        let c = color_for_frame(counter);
        assert!(c.r as u16 <= 255 && c.g as u16 <= 255 && c.b as u16 <= 255);
    }
}

#[test]
fn color_periodic_when_counter_wraps() {
    let mut s = AnimationState::init();
    let at_start = color_for_frame(s.counter);
    for _ in 0..255 {
        s.advance_counter();
    }
    assert_eq!(color_for_frame(s.counter), at_start);
}

#[test]
fn step_without_contact_moves_five() {
    let mut s = AnimationState::init();
    s.step(1000, 1000, 30, 10);
    assert_eq!(s.x, 5);
    assert_eq!(s.y, 5);
    assert_eq!(s.dx, 1);
    assert_eq!(s.dy, 1);
    assert_eq!(s.angle, 2);
    assert_eq!(s.counter, 0);
}

#[test]
fn step_reflects_on_right_contact_and_stays_flipped() {
    let mut s = AnimationState {
        x: 65,
        y: 50,
        dx: 1,
        dy: 1,
        angle: 0,
        counter: 0,
    };
    s.step(100, 100, 30, 10);
    assert_eq!(s.x, 70);
    assert_eq!(s.dx, -1);
    assert_eq!(s.dy, 1);
    s.step(100, 100, 30, 10);
    assert_eq!(s.x, 65);
    assert_eq!(s.dx, -1);
}

#[test]
fn step_reflects_on_left_contact() {
    let mut s = AnimationState {
        x: 5,
        y: 50,
        dx: -1,
        dy: 1,
        angle: 0,
        counter: 0,
    };
    s.step(100, 100, 30, 10);
    assert_eq!(s.x, 0);
    assert_eq!(s.dx, 1);
}

#[test]
fn step_label_wider_than_viewport_flips_once() {
    let mut s = AnimationState {
        x: 0,
        y: 50,
        dx: 1,
        dy: 1,
        angle: 0,
        counter: 0,
    };
    s.step(20, 100, 30, 10);
    assert_eq!(s.x, 5);
    assert_eq!(s.dx, -1);
}

#[test]
fn rotation_returns_after_180_steps() {
    let mut s = AnimationState::init();
    for _ in 0..180 {
        s.step(1_000_000, 1_000_000, 30, 10);
        assert!(s.angle < 360);
    }
    assert_eq!(s.angle, 0);
}

#[test]
fn counter_wraps_after_255_steps() {
    let mut s = AnimationState::init();
    for _ in 0..255 {
        s.advance_counter();
        assert!(s.counter < 255);
    }
    assert_eq!(s.counter, 0);
}

#[test]
fn recognizes_terminating_events() {
    assert!(should_terminate(&InputEvent::QuitRequested));
    assert!(should_terminate(&InputEvent::KeyDown(Key::Escape)));
    assert!(!should_terminate(&InputEvent::KeyDown(Key::Other)));
    assert!(!should_terminate(&InputEvent::Other));
}

#[test]
fn first_frame_end_to_end() {
    let mut l = FrameLoop::new();
    let events: Vec<InputEvent> = Vec::new();
    let out = l.frame(&events, 800, 600).expect("an active loop renders");
    assert_eq!(l.state.x, 5);
    assert_eq!(l.state.y, 5);
    assert_eq!(l.state.dx, 1);
    assert_eq!(l.state.dy, 1);
    assert_eq!(l.state.angle, 2);
    assert_eq!(l.state.counter, 1);
    assert_eq!(l.mode, LoopState::Active);
    assert_eq!(out.text_x, 5);
    assert_eq!(out.text_y, 5);
    assert_eq!(out.text_w, 266);
    assert_eq!(out.text_h, 100);
    assert_eq!(out.angle, 2);
    assert_eq!(out.color, color_for_frame(1));
}

#[test]
fn escape_quits_and_no_further_frame_renders() {
    let mut l = FrameLoop::new();
    let events = vec![InputEvent::KeyDown(Key::Escape)];
    let out = l.frame(&events, 800, 600);
    assert!(out.is_some());
    assert_eq!(l.mode, LoopState::Quit);
    let after = l.state;
    let out2 = l.frame(&events, 800, 600);
    assert!(out2.is_none());
    assert_eq!(l.state, after);
    assert_eq!(l.mode, LoopState::Quit);
}

#[test]
fn close_request_quits() {
    let mut l = FrameLoop::new();
    let events = vec![InputEvent::Other, InputEvent::QuitRequested];
    l.frame(&events, 800, 600);
    assert_eq!(l.mode, LoopState::Quit);
}

#[test]
fn unrecognized_events_are_ignored() {
    let mut l = FrameLoop::new();
    let events = vec![InputEvent::Other, InputEvent::KeyDown(Key::Other)];
    l.frame(&events, 800, 600);
    assert_eq!(l.mode, LoopState::Active);
}

#[test]
fn handle_events_keeps_animation_state() {
    let mut l = FrameLoop::new();
    let before = l.state;
    let events = vec![InputEvent::QuitRequested];
    l.handle_events(&events);
    assert_eq!(l.state, before);
    assert_eq!(l.mode, LoopState::Quit);
}
