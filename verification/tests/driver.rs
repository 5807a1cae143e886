use horus::binary32::Binary32;
use horus::driver::{Action, Event, FrameDriver, Key, KeyState, Phase};
use horus::pipeline::FramePass;
use horus::surface::{SurfaceConfig, SurfaceError, SurfaceFault};
use horus::uniforms::{Uniforms, Vec2};
use wgpu::TextureFormat;

fn of(value: f32) -> Binary32 {
    Binary32::from_bits(value.to_bits())
}

fn config(width: u32, height: u32) -> SurfaceConfig {
    SurfaceConfig::new(TextureFormat::Bgra8UnormSrgb, width, height).unwrap()
}

fn started(width: u32, height: u32) -> FrameDriver {
    FrameDriver::new(config(width, height))
}

fn pressed(key: Key) -> Event {
    Event::KeyInput { key, state: KeyState::Pressed }
}

fn resolution(width: f32, height: f32) -> Vec2 {
    Vec2 { x: of(width), y: of(height) }
}

#[test]
fn a_run_starts_idle_with_fresh_uniforms() {
    let d = started(700, 500);
    assert_eq!(d.phase, Phase::Idle);
    assert!(!d.is_terminating());
    assert_eq!(d.config, config(700, 500));
    assert_eq!(d.uniforms, Uniforms::new(700, 500));
    assert_eq!(d.uniforms.mouse, Vec2 { x: of(0.0), y: of(0.0) });
    assert_eq!(d.uniforms.resolution, resolution(700.0, 500.0));
    assert_eq!(d.uniforms.time, of(0.0));
}

#[test]
fn resize_updates_configuration_and_resolution() {
    let mut d = started(700, 700);
    let action = d.handle_event(Event::Resized { width: 1024, height: 768 });
    assert_eq!(action, Action::Configure(config(1024, 768)));
    assert_eq!(d.config, config(1024, 768));
    assert_eq!(d.uniforms.resolution, resolution(1024.0, 768.0));
    assert_eq!(d.phase, Phase::Idle);
}

#[test]
fn the_last_positive_size_wins() {
    let mut d = started(700, 700);
    let sizes: [(u32, u32); 5] = [(640, 480), (1, 1), (1920, 1080), (33, 4000), (1280, 720)];
    for (width, height) in sizes {
        let action = d.resize(width, height);
        assert_eq!(action, Action::Configure(config(width, height)));
        assert_eq!((d.config.width, d.config.height), (width, height));
        assert_eq!(d.uniforms.resolution, resolution(width as f32, height as f32));
    }
    assert_eq!(d.config, config(1280, 720));
}

#[test]
fn resize_to_zero_changes_nothing() {
    let mut d = started(800, 600);
    d.pointer_moved(of(3.0), of(4.0));
    let before = d;
    for (width, height) in [(0, 0), (0, 600), (800, 0), (0, u32::MAX)] {
        assert_eq!(d.handle_event(Event::Resized { width, height }), Action::Nothing);
        assert_eq!(d, before);
        assert_eq!(d.resize(width, height), Action::Nothing);
        assert_eq!(d, before);
    }
}

#[test]
fn minimise_and_restore() {
    let mut d = started(700, 700);
    let mut applied: Vec<SurfaceConfig> = vec![d.config];
    for (width, height) in [(800, 600), (0, 0), (800, 600)] {
        if let Action::Configure(c) = d.handle_event(Event::Resized { width, height }) {
            applied.push(c);
        }
    }
    assert_eq!(d.config, config(800, 600));
    assert_eq!(d.uniforms.resolution, resolution(800.0, 600.0));
    assert_eq!(applied, vec![config(700, 700), config(800, 600), config(800, 600)]);
    assert!(applied.iter().all(|c| c.width > 0 && c.height > 0));
}

#[test]
fn pointer_position_is_the_last_reported() {
    let mut d = started(800, 600);
    let moves: [(f32, f32); 4] = [(10.0, 20.0), (10.5, 20.25), (-4.0, 900.0), (799.0, 0.0)];
    let mut elapsed: f32 = 0.0;
    for (x, y) in moves {
        assert_eq!(d.handle_event(Event::PointerMoved { x: of(x), y: of(y) }), Action::Nothing);
        assert_eq!(d.uniforms.mouse, Vec2 { x: of(x), y: of(y) });
        elapsed += 0.016;
        d.handle_event(Event::RedrawRequested { elapsed: of(elapsed) });
        d.handle_event(Event::FrameAcquired);
        assert_eq!(d.uniforms.mouse, Vec2 { x: of(x), y: of(y) });
    }
    assert_eq!(d.uniforms.mouse, Vec2 { x: of(799.0), y: of(0.0) });
}

#[test]
fn pointer_is_not_scaled_by_the_resolution() {
    let mut d = started(200, 100);
    d.pointer_moved(of(150.0), of(75.0));
    d.resize(400, 200);
    assert_eq!(d.uniforms.mouse, Vec2 { x: of(150.0), y: of(75.0) });
}

#[test]
fn a_frame_from_request_to_draw() {
    let mut d = started(800, 600);
    d.pointer_moved(of(1.0), of(2.0));
    let action = d.handle_event(Event::RedrawRequested { elapsed: of(0.5) });
    let expected = Uniforms {
        mouse: Vec2 { x: of(1.0), y: of(2.0) },
        resolution: resolution(800.0, 600.0),
        time: of(0.5),
        padding: of(0.0),
    };
    assert_eq!(action, Action::AcquireFrame(expected));
    assert_eq!(d.phase, Phase::Rendering);
    assert_eq!(d.uniforms, expected);
    let action = d.handle_event(Event::FrameAcquired);
    assert_eq!(action, Action::Draw(FramePass::full_screen()));
    assert_eq!(d.phase, Phase::Idle);
    assert_eq!(d.uniforms, expected);
}

#[test]
fn time_is_the_reading_of_each_redraw() {
    let mut d = started(800, 600);
    let mut previous: f32 = f32::from_bits(d.uniforms.time.to_bits());
    for reading in [0.0f32, 0.016, 0.033, 0.033, 1.5, 3600.25] {
        d.begin_frame(of(reading));
        assert_eq!(d.uniforms.time, of(reading));
        let now = f32::from_bits(d.uniforms.time.to_bits());
        assert!(previous <= now);
        previous = now;
        d.end_frame(Ok(()));
        assert_eq!(d.uniforms.time, of(reading));
    }
}

#[test]
fn one_acquisition_per_cycle() {
    let mut d = started(800, 600);
    assert!(matches!(d.begin_frame(of(1.0)), Action::AcquireFrame(_)));
    let waiting = d;
    assert_eq!(d.begin_frame(of(2.0)), Action::Nothing);
    assert_eq!(d, waiting);
    assert_eq!(d.uniforms.time, of(1.0));
    d.end_frame(Ok(()));
    assert!(matches!(d.begin_frame(of(2.0)), Action::AcquireFrame(_)));
}

#[test]
fn an_outcome_without_a_frame_is_ignored() {
    let mut d = started(800, 600);
    let before = d;
    assert_eq!(d.handle_event(Event::FrameAcquired), Action::Nothing);
    assert_eq!(d.end_frame(Err(SurfaceError::Fatal)), Action::Nothing);
    assert_eq!(
        d.handle_event(Event::AcquireFailed { error: SurfaceError::Recoverable }),
        Action::Nothing
    );
    assert_eq!(d, before);
}

#[test]
fn recoverable_error_reconfigures_at_the_last_size() {
    let mut d = started(700, 700);
    d.resize(1024, 768);
    d.begin_frame(of(1.0));
    for fault in [SurfaceFault::Outdated, SurfaceFault::Lost] {
        let mut run = d;
        let action = run.handle_event(Event::AcquireFailed { error: fault.classify() });
        assert_eq!(action, Action::Configure(config(1024, 768)));
        assert_eq!(run.phase, Phase::Idle);
        assert_eq!(run.config, config(1024, 768));
        assert!(matches!(run.begin_frame(of(1.1)), Action::AcquireFrame(_)));
    }
}

#[test]
fn transient_error_skips_the_frame() {
    let mut d = started(800, 600);
    d.begin_frame(of(1.0));
    let action = d.end_frame(Err(SurfaceFault::Timeout.classify()));
    assert_eq!(action, Action::SkipFrame);
    assert_eq!(d.phase, Phase::Idle);
    assert!(matches!(d.begin_frame(of(1.1)), Action::AcquireFrame(_)));
}

#[test]
fn fatal_error_ends_the_run() {
    let mut d = started(800, 600);
    d.begin_frame(of(1.0));
    let action = d.end_frame(Err(SurfaceFault::OutOfMemory.classify()));
    assert_eq!(action, Action::Exit);
    assert_eq!(d.phase, Phase::Terminating);
    assert!(d.is_terminating());
    assert_eq!(d.begin_frame(of(1.1)), Action::Nothing);
}

fn every_event() -> Vec<Event> {
    vec![
        Event::RedrawRequested { elapsed: of(9.0) },
        Event::FrameAcquired,
        Event::AcquireFailed { error: SurfaceError::Recoverable },
        Event::AcquireFailed { error: SurfaceError::Transient },
        Event::AcquireFailed { error: SurfaceError::Fatal },
        Event::Resized { width: 320, height: 240 },
        Event::Resized { width: 0, height: 0 },
        Event::ScaleFactorChanged { width: 1600, height: 1200 },
        Event::PointerMoved { x: of(5.0), y: of(6.0) },
        pressed(Key::Escape),
        pressed(Key::Other),
        Event::KeyInput { key: Key::Escape, state: KeyState::Released },
        Event::KeyInput { key: Key::Other, state: KeyState::Released },
        Event::CloseRequested,
    ]
}

#[test]
fn close_request_ends_the_run_at_once() {
    for closing in [Event::CloseRequested, pressed(Key::Escape)] {
        let mut idle = started(800, 600);
        assert_eq!(idle.handle_event(closing), Action::Exit);
        assert_eq!(idle.phase, Phase::Terminating);

        let mut rendering = started(800, 600);
        rendering.begin_frame(of(1.0));
        assert_eq!(rendering.handle_event(closing), Action::Exit);
        assert_eq!(rendering.phase, Phase::Terminating);
    }
}

#[test]
fn nothing_happens_after_the_end() {
    let mut d = started(800, 600);
    d.pointer_moved(of(1.0), of(2.0));
    assert_eq!(d.close(), Action::Exit);
    let ended = d;
    for event in every_event() {
        assert_eq!(d.handle_event(event), Action::Nothing);
        assert_eq!(d, ended);
    }
    assert_eq!(d.close(), Action::Nothing);
    assert_eq!(d.resize(10, 10), Action::Nothing);
    assert_eq!(d.pointer_moved(of(7.0), of(8.0)), Action::Nothing);
    assert_eq!(d.end_frame(Ok(())), Action::Nothing);
    assert_eq!(d, ended);
}

#[test]
fn resize_and_pointer_are_tracked_while_a_frame_is_under_way() {
    let mut d = started(800, 600);
    d.begin_frame(of(1.0));
    assert_eq!(d.resize(640, 480), Action::Configure(config(640, 480)));
    assert_eq!(d.pointer_moved(of(3.0), of(4.0)), Action::Nothing);
    assert_eq!(d.phase, Phase::Rendering);
    assert_eq!(d.end_frame(Ok(())), Action::Draw(FramePass::full_screen()));
    assert_eq!(d.config, config(640, 480));
    assert_eq!(d.uniforms.mouse, Vec2 { x: of(3.0), y: of(4.0) });
    assert_eq!(d.uniforms.resolution, resolution(640.0, 480.0));
}

#[test]
fn handle_event_agrees_with_the_single_operations() {
    let mut by_event = started(800, 600);
    let mut by_call = started(800, 600);
    assert_eq!(
        by_event.handle_event(Event::Resized { width: 30, height: 40 }),
        by_call.resize(30, 40)
    );
    assert_eq!(
        by_event.handle_event(Event::PointerMoved { x: of(1.0), y: of(2.0) }),
        by_call.pointer_moved(of(1.0), of(2.0))
    );
    assert_eq!(
        by_event.handle_event(Event::RedrawRequested { elapsed: of(0.25) }),
        by_call.begin_frame(of(0.25))
    );
    assert_eq!(
        by_event.handle_event(Event::AcquireFailed { error: SurfaceError::Transient }),
        by_call.end_frame(Err(SurfaceError::Transient))
    );
    assert_eq!(
        by_event.handle_event(pressed(Key::Other)),
        by_call.key_input(Key::Other, KeyState::Pressed)
    );
    assert_eq!(by_event, by_call);
    assert_eq!(by_event.handle_event(pressed(Key::Escape)), by_call.close());
    assert_eq!(by_event, by_call);
}

#[test]
fn only_the_cancel_key_ends_the_run() {
    let mut d = started(800, 600);
    let before = d;
    assert_eq!(d.key_input(Key::Other, KeyState::Pressed), Action::Nothing);
    assert_eq!(d.key_input(Key::Other, KeyState::Released), Action::Nothing);
    assert_eq!(d.key_input(Key::Escape, KeyState::Released), Action::Nothing);
    assert_eq!(d.handle_event(pressed(Key::Other)), Action::Nothing);
    assert_eq!(d, before);
    assert_eq!(d.key_input(Key::Escape, KeyState::Pressed), Action::Exit);
    assert_eq!(d.phase, Phase::Terminating);
    assert_eq!(d.key_input(Key::Escape, KeyState::Pressed), Action::Nothing);
}

#[test]
fn a_change_of_scale_resizes_like_a_resize() {
    let mut scaled = started(700, 700);
    let mut resized = started(700, 700);
    assert_eq!(
        scaled.handle_event(Event::ScaleFactorChanged { width: 1400, height: 1400 }),
        Action::Configure(config(1400, 1400))
    );
    resized.handle_event(Event::Resized { width: 1400, height: 1400 });
    assert_eq!(scaled, resized);
    assert_eq!(scaled.uniforms.resolution, resolution(1400.0, 1400.0));
    assert_eq!(
        scaled.handle_event(Event::ScaleFactorChanged { width: 0, height: 1400 }),
        Action::Nothing
    );
    assert_eq!(scaled, resized);
}

#[test]
fn the_uniform_buffer_gets_the_time_of_the_frame() {
    let mut d = started(800, 600);
    d.pointer_moved(of(10.0), of(20.0));
    let action = d.begin_frame(of(2.5));
    let uniforms = match action {
        Action::AcquireFrame(u) => u,
        other => panic!("no frame was started: {:?}", other),
    };
    let mut expected: Vec<u8> = Vec::new();
    for value in [10.0f32, 20.0, 800.0, 600.0, 2.5, 0.0] {
        expected.extend_from_slice(&value.to_ne_bytes());
    }
    assert_eq!(uniforms.to_bytes(), expected);
}
