use pixel_shapes::color::Color;
use pixel_shapes::demo::DemoApp;
use pixel_shapes::init::{Size, State, SurfaceConfig};
use pixel_shapes::input::{InputEvent, Key, KeyAction};
use pixel_shapes::scheduler::{event_supported, Command, FrameScheduler, Phase, RenderOutcome};
use pixel_shapes::shape::Shape;

fn fresh() -> FrameScheduler<DemoApp> {
    let app = DemoApp { shape: Shape::CIRCLE, color: Color::new(10, 20, 30) };
    FrameScheduler::new(State::new(app, Size { width: 640, height: 480 }))
}

fn running() -> FrameScheduler<DemoApp> {
    let mut scheduler = fresh();
    assert_eq!(scheduler.on_event(&InputEvent::Resized { width: 8, height: 8 }), Command::Configure(Size { width: 8, height: 8 }));
    scheduler
}

fn press(key: Key) -> InputEvent {
    InputEvent::Key { key, action: KeyAction::Pressed }
}

#[test]
fn scheduler_starts_awaiting_configuration() {
    let scheduler = fresh();
    assert_eq!(scheduler.phase, Phase::AwaitingConfiguration);
    assert_eq!(scheduler.state.size, Size { width: 640, height: 480 });
}

#[test]
fn redraws_before_configuration_paint_nothing() {
    let mut scheduler = fresh();
    let before = scheduler.state.pixels.clone();
    for _ in 0..5 {
        assert_eq!(scheduler.on_event(&InputEvent::RedrawRequested), Command::RequestRedraw);
        assert_eq!(scheduler.phase, Phase::AwaitingConfiguration);
        assert_eq!(scheduler.state.pixels, before);
    }
}

#[test]
fn each_redraw_after_configuration_paints_and_presents_once() {
    let mut scheduler = fresh();
    assert_eq!(scheduler.on_event(&InputEvent::RedrawRequested), Command::RequestRedraw);
    assert_eq!(
        scheduler.on_event(&InputEvent::Resized { width: 4, height: 4 }),
        Command::Configure(Size { width: 4, height: 4 })
    );
    assert_eq!(scheduler.phase, Phase::Running);
    assert_eq!(scheduler.state.pixels, vec![0u8; 64]);
    for _ in 0..3 {
        assert_eq!(scheduler.on_event(&InputEvent::RedrawRequested), Command::Present);
        assert_eq!(scheduler.phase, Phase::Running);
        assert_eq!(scheduler.state.pixels.len(), 64);
        assert_eq!(&scheduler.state.pixels[4 * 10..4 * 10 + 4], &[10, 20, 30, 255]);
        assert_eq!(&scheduler.state.pixels[0..4], &[0, 0, 0, 255]);
        assert_eq!(scheduler.on_rendered(RenderOutcome::Presented), Command::Idle);
    }
}

#[test]
fn a_resize_without_area_is_ignored() {
    let mut scheduler = fresh();
    let before = scheduler.state.pixels.clone();
    assert_eq!(scheduler.on_event(&InputEvent::Resized { width: 0, height: 480 }), Command::Idle);
    assert_eq!(scheduler.phase, Phase::AwaitingConfiguration);
    assert_eq!(scheduler.state.config, SurfaceConfig { width: 640, height: 480 });
    assert_eq!(scheduler.state.pixels, before);
    assert_eq!(scheduler.on_event(&InputEvent::RedrawRequested), Command::RequestRedraw);

    assert_eq!(
        scheduler.on_event(&InputEvent::Resized { width: 800, height: 600 }),
        Command::Configure(Size { width: 800, height: 600 })
    );
    assert_eq!(scheduler.phase, Phase::Running);
    assert_eq!(scheduler.state.config, SurfaceConfig { width: 800, height: 600 });
    assert_eq!(scheduler.on_event(&InputEvent::RedrawRequested), Command::Present);
    assert_eq!(scheduler.state.pixels.len(), 800 * 600 * 4);

    assert_eq!(scheduler.on_event(&InputEvent::Resized { width: 800, height: 0 }), Command::Idle);
    assert_eq!(scheduler.phase, Phase::Running);
    assert_eq!(scheduler.state.config, SurfaceConfig { width: 800, height: 600 });
    assert_eq!(scheduler.state.pixels.len(), 800 * 600 * 4);
}

#[test]
fn the_first_size_may_be_the_initial_one() {
    let mut scheduler = fresh();
    let before = scheduler.state.pixels.clone();
    assert_eq!(
        scheduler.on_event(&InputEvent::Resized { width: 640, height: 480 }),
        Command::Configure(Size { width: 640, height: 480 })
    );
    assert_eq!(scheduler.phase, Phase::Running);
    assert_eq!(scheduler.state.pixels, before);
}

#[test]
fn consumed_keys_give_no_command() {
    let mut scheduler = running();
    assert_eq!(scheduler.on_event(&press(Key::S)), Command::Idle);
    assert_eq!(scheduler.state.game_context.shape, Shape::SQUARE);
    assert_eq!(scheduler.on_event(&press(Key::ArrowUp)), Command::Idle);
    assert_eq!(scheduler.state.game_context.color.get_components(), (35, 32, 38));
    assert_eq!(scheduler.phase, Phase::Running);
    assert_eq!(scheduler.on_event(&InputEvent::RedrawRequested), Command::Present);
    // the square on 8 by 8 reaches from 2 to 6
    assert_eq!(&scheduler.state.pixels[4 * (2 * 8 + 2)..4 * (2 * 8 + 2) + 4], &[35, 32, 38, 255]);
    assert_eq!(&scheduler.state.pixels[4 * (1 * 8 + 2)..4 * (1 * 8 + 2) + 4], &[0, 0, 0, 255]);
}

#[test]
fn keys_work_before_configuration() {
    let mut scheduler = fresh();
    assert_eq!(scheduler.on_event(&press(Key::T)), Command::Idle);
    assert_eq!(scheduler.state.game_context.shape, Shape::TRIANGLE);
    assert_eq!(scheduler.phase, Phase::AwaitingConfiguration);
}

#[test]
fn close_request_exits() {
    let mut scheduler = running();
    assert_eq!(scheduler.on_event(&InputEvent::CloseRequested), Command::Exit);
    assert_eq!(scheduler.phase, Phase::Exiting);
    let mut scheduler = fresh();
    assert_eq!(scheduler.on_event(&InputEvent::CloseRequested), Command::Exit);
    assert_eq!(scheduler.phase, Phase::Exiting);
}

#[test]
fn escape_exits_only_when_pressed() {
    let mut scheduler = running();
    assert_eq!(scheduler.on_event(&InputEvent::Key { key: Key::Escape, action: KeyAction::Released }), Command::Idle);
    assert_eq!(scheduler.on_event(&InputEvent::Key { key: Key::Escape, action: KeyAction::Repeated }), Command::Idle);
    assert_eq!(scheduler.phase, Phase::Running);
    assert_eq!(scheduler.on_event(&press(Key::Escape)), Command::Exit);
    assert_eq!(scheduler.phase, Phase::Exiting);
}

#[test]
fn other_events_are_dropped() {
    let mut scheduler = running();
    assert_eq!(scheduler.on_event(&InputEvent::Other), Command::Idle);
    assert_eq!(scheduler.on_event(&press(Key::Other)), Command::Idle);
    assert_eq!(scheduler.on_event(&InputEvent::Key { key: Key::C, action: KeyAction::Released }), Command::Idle);
    assert_eq!(scheduler.phase, Phase::Running);
    assert_eq!(scheduler.state.game_context.shape, Shape::CIRCLE);
}

#[test]
fn nothing_happens_after_exit() {
    let mut scheduler = running();
    assert_eq!(scheduler.on_event(&InputEvent::CloseRequested), Command::Exit);
    let before = scheduler.state.pixels.clone();
    assert_eq!(scheduler.on_event(&InputEvent::RedrawRequested), Command::Idle);
    assert_eq!(scheduler.on_event(&press(Key::S)), Command::Idle);
    assert_eq!(scheduler.on_event(&InputEvent::Resized { width: 3, height: 3 }), Command::Idle);
    assert_eq!(scheduler.on_event(&InputEvent::CloseRequested), Command::Idle);
    assert_eq!(scheduler.on_rendered(RenderOutcome::SurfaceLost), Command::Idle);
    assert_eq!(scheduler.on_rendered(RenderOutcome::OutOfMemory), Command::Idle);
    assert_eq!(scheduler.phase, Phase::Exiting);
    assert_eq!(scheduler.state.game_context.shape, Shape::CIRCLE);
    assert_eq!(scheduler.state.size, Size { width: 8, height: 8 });
    assert_eq!(scheduler.state.pixels, before);
}

#[test]
fn a_presented_frame_needs_nothing() {
    let mut scheduler = running();
    assert_eq!(scheduler.on_event(&InputEvent::RedrawRequested), Command::Present);
    assert_eq!(scheduler.on_rendered(RenderOutcome::Presented), Command::Idle);
    assert_eq!(scheduler.phase, Phase::Running);
}

#[test]
fn a_lost_or_outdated_surface_is_configured_again() {
    for outcome in [RenderOutcome::SurfaceLost, RenderOutcome::SurfaceOutdated] {
        let mut scheduler = running();
        assert_eq!(scheduler.on_event(&InputEvent::RedrawRequested), Command::Present);
        let before = scheduler.state.pixels.clone();
        assert_eq!(scheduler.on_rendered(outcome), Command::Configure(Size { width: 8, height: 8 }));
        assert_eq!(scheduler.phase, Phase::Running);
        assert_eq!(scheduler.state.config, SurfaceConfig { width: 8, height: 8 });
        assert_eq!(scheduler.state.pixels, before);
        assert_eq!(scheduler.on_event(&InputEvent::RedrawRequested), Command::Present);
    }
}

#[test]
fn out_of_memory_exits() {
    let mut scheduler = running();
    assert_eq!(scheduler.on_event(&InputEvent::RedrawRequested), Command::Present);
    assert_eq!(scheduler.on_rendered(RenderOutcome::OutOfMemory), Command::Exit);
    assert_eq!(scheduler.phase, Phase::Exiting);
    assert_eq!(scheduler.on_event(&InputEvent::RedrawRequested), Command::Idle);
}

#[test]
fn a_timeout_is_reported_and_skipped() {
    let mut scheduler = running();
    assert_eq!(scheduler.on_event(&InputEvent::RedrawRequested), Command::Present);
    let before = scheduler.state.pixels.clone();
    assert_eq!(scheduler.on_rendered(RenderOutcome::Timeout), Command::ReportTimeout);
    assert_eq!(scheduler.phase, Phase::Running);
    assert_eq!(scheduler.state.pixels, before);
    assert_eq!(scheduler.on_event(&InputEvent::RedrawRequested), Command::Present);
}

#[test]
fn a_lost_surface_without_area_is_left_alone() {
    let app = DemoApp { shape: Shape::CIRCLE, color: Color::new(10, 20, 30) };
    let mut scheduler = FrameScheduler::new(State::new(app, Size { width: 0, height: 0 }));
    assert_eq!(scheduler.on_rendered(RenderOutcome::SurfaceLost), Command::Idle);
    assert_eq!(scheduler.phase, Phase::AwaitingConfiguration);
}

#[test]
fn events_that_fit() {
    assert!(event_supported(&InputEvent::RedrawRequested));
    assert!(event_supported(&InputEvent::CloseRequested));
    assert!(event_supported(&press(Key::C)));
    assert!(event_supported(&InputEvent::Resized { width: 800, height: 600 }));
    assert!(event_supported(&InputEvent::Resized { width: 0, height: u32::MAX }));
    assert!(event_supported(&InputEvent::Resized { width: u32::MAX, height: 0 }));
    assert!(!event_supported(&InputEvent::Resized { width: u32::MAX, height: 1 }));
    assert!(!event_supported(&InputEvent::Resized { width: u32::MAX, height: u32::MAX }));
}
