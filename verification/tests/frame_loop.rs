use ascii_cube::frame_loop::{FrameLoop, Phase, RotationState, ANGLE_STEP, FRAME_PAUSE};

#[test]
fn constants_of_the_loop() {
    assert_eq!(ANGLE_STEP, 5);
    assert_eq!(FRAME_PAUSE, 10);
}

#[test]
fn rotation_starts_at_zero() {
    let rotation = RotationState::new();
    assert_eq!(rotation, RotationState { a: 0, b: 0, c: 0 });
}

#[test]
fn advance_turns_the_first_two_axes() {
    let mut rotation = RotationState { a: 10, b: 20, c: 30 };
    rotation.advance();
    assert_eq!(rotation, RotationState { a: 15, b: 25, c: 30 });
}

#[test]
fn loop_starts_initializing() {
    let frame_loop = FrameLoop::new();
    assert_eq!(frame_loop.phase, Phase::Initializing);
    assert_eq!(frame_loop.rotation, RotationState { a: 0, b: 0, c: 0 });
}

#[test]
fn phases_follow_one_another() {
    let mut frame_loop = FrameLoop::new();
    assert_eq!(frame_loop.step(), Phase::RenderingFrame);
    assert_eq!(frame_loop.step(), Phase::Presenting);
    assert_eq!(frame_loop.step(), Phase::Advancing);
    assert_eq!(frame_loop.step(), Phase::RenderingFrame);
    assert_eq!(frame_loop.step(), Phase::Presenting);
    assert_eq!(frame_loop.phase, Phase::Presenting);
}

#[test]
fn rotation_changes_only_on_leaving_advancing() {
    let mut frame_loop = FrameLoop::new();
    frame_loop.step();
    assert_eq!(frame_loop.rotation, RotationState { a: 0, b: 0, c: 0 });
    frame_loop.step();
    assert_eq!(frame_loop.rotation, RotationState { a: 0, b: 0, c: 0 });
    frame_loop.step();
    assert_eq!(frame_loop.rotation, RotationState { a: 0, b: 0, c: 0 });
    frame_loop.step();
    assert_eq!(frame_loop.rotation, RotationState { a: 5, b: 5, c: 0 });
}

#[test]
fn after_n_frames_the_angles_are_n_steps() {
    let mut frame_loop = FrameLoop::new();
    frame_loop.step();
    for frame in 1..=1000u64 {
        frame_loop.step();
        frame_loop.step();
        assert_eq!(frame_loop.step(), Phase::RenderingFrame);
        assert_eq!(frame_loop.rotation.a, 5 * frame);
        assert_eq!(frame_loop.rotation.b, 5 * frame);
        assert_eq!(frame_loop.rotation.c, 0);
    }
    assert_eq!(frame_loop.rotation, RotationState { a: 5000, b: 5000, c: 0 });
    let radians = frame_loop.rotation.a as f64 / 1000.0;
    assert!((radians - 0.005 * 1000.0).abs() < 1e-9);
}
