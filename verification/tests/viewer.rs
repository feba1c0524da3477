use panium::pixels::Screenshot;
use panium::viewer::{drawable_size, InputEvent, Key, LoopStep, ViewCommand, Viewer};

fn viewer() -> Viewer {
    let screenshot = Screenshot { width: 3, height: 2, rgba: vec![0; 24] };
    Viewer::new(&screenshot, 801, 600)
}

fn press(key: Key) -> InputEvent {
    InputEvent::KeyDown { key, repeat: false }
}

fn motion(x: i32, y: i32, xrel: i32, yrel: i32) -> InputEvent {
    InputEvent::MouseMotion { x, y, xrel, yrel }
}

#[test]
fn opens_with_the_cursor_in_the_middle() {
    let viewer = viewer();
    assert_eq!((viewer.image_width, viewer.image_height), (3, 2));
    assert_eq!((viewer.cursor_x2, viewer.cursor_y2), (801, 600));
    assert!(!viewer.dragging && !viewer.spotlight);
}

#[test]
fn escape_q_and_closing_leave() {
    let mut viewer = viewer();
    assert_eq!(viewer.handle(InputEvent::Quit), ViewCommand::Quit);
    assert_eq!(viewer.handle(press(Key::Escape)), ViewCommand::Quit);
    let held = InputEvent::KeyDown { key: Key::Q, repeat: true };
    assert_eq!(viewer.handle(held), ViewCommand::Quit);
}

#[test]
fn keys_zoom_and_pan() {
    let mut viewer = viewer();
    assert_eq!(viewer.handle(press(Key::W)), ViewCommand::ZoomIn);
    assert_eq!(viewer.handle(press(Key::S)), ViewCommand::ZoomOut);
    assert_eq!(viewer.handle(press(Key::Left)), ViewCommand::PanBy { dx: 72, dy: 0 });
    assert_eq!(viewer.handle(press(Key::Right)), ViewCommand::PanBy { dx: -72, dy: 0 });
    assert_eq!(viewer.handle(press(Key::Up)), ViewCommand::PanBy { dx: 0, dy: 72 });
    assert_eq!(viewer.handle(press(Key::Down)), ViewCommand::PanBy { dx: 0, dy: -72 });
    assert_eq!(viewer.handle(press(Key::Other)), ViewCommand::Nothing);
}

#[test]
fn the_spotlight_alternates_and_hides_the_cursor() {
    let mut viewer = viewer();
    assert_eq!(viewer.handle(press(Key::F)), ViewCommand::ShowCursor { visible: false });
    assert!(viewer.spotlight);
    let held = InputEvent::KeyDown { key: Key::F, repeat: true };
    assert_eq!(viewer.handle(held), ViewCommand::Nothing);
    assert!(viewer.spotlight);
    assert_eq!(viewer.handle(press(Key::F)), ViewCommand::ShowCursor { visible: true });
    assert!(!viewer.spotlight);
    assert_eq!(viewer.set_spotlight(true), ViewCommand::ShowCursor { visible: false });
}

#[test]
fn the_wheel_prefers_the_finer_amount() {
    let mut viewer = viewer();
    let wheel = |steps, precise| InputEvent::MouseWheel { steps, precise };
    assert_eq!(viewer.handle(wheel(2, true)), ViewCommand::ZoomByPreciseWheel);
    assert_eq!(viewer.handle(wheel(0, true)), ViewCommand::ZoomByPreciseWheel);
    assert_eq!(viewer.handle(wheel(-2, false)), ViewCommand::ZoomByWheelSteps { steps: -2 });
    assert_eq!(viewer.handle(wheel(0, false)), ViewCommand::Nothing);
}

#[test]
fn the_left_button_drags() {
    let mut viewer = viewer();
    assert_eq!(viewer.handle(motion(5, 6, 1, 2)), ViewCommand::Nothing);
    viewer.handle(InputEvent::MouseButtonDown { left: false });
    assert!(!viewer.dragging);
    viewer.handle(InputEvent::MouseButtonDown { left: true });
    assert_eq!(viewer.handle(motion(9, 4, 4, -2)), ViewCommand::PanBy { dx: 4, dy: -2 });
    viewer.handle(InputEvent::MouseButtonUp { left: false });
    assert!(viewer.dragging);
    viewer.handle(InputEvent::MouseButtonUp { left: true });
    assert_eq!(viewer.handle(motion(9, 5, 0, 1)), ViewCommand::Nothing);
    assert_eq!((viewer.cursor_x2, viewer.cursor_y2), (18, 10));
}

#[test]
fn extreme_positions_are_kept() {
    let mut viewer = viewer();
    viewer.handle(motion(i32::MIN, i32::MAX, 0, 0));
    assert_eq!(viewer.cursor_x2, 2 * i64::from(i32::MIN));
    assert_eq!(viewer.cursor_y2, 2 * i64::from(i32::MAX));
}

#[test]
fn other_input_changes_nothing() {
    let mut viewer = viewer();
    let before = viewer;
    assert_eq!(viewer.handle(InputEvent::Other), ViewCommand::Nothing);
    assert_eq!(viewer, before);
}

#[test]
fn drawable_areas_are_never_empty() {
    assert_eq!(drawable_size(0, 0), (1, 1));
    assert_eq!(drawable_size(1920, 0), (1920, 1));
    assert_eq!(drawable_size(800, 600), (800, 600));
}

#[test]
fn the_image_size_is_fixed() {
    let mut viewer = viewer();
    for event in [press(Key::W), press(Key::F), motion(1, 2, 3, 4), InputEvent::Quit] {
        viewer.handle(event);
    }
    assert_eq!((viewer.image_width, viewer.image_height), (3, 2));
}

fn session(viewer: &mut Viewer, answers: &[Option<InputEvent>]) -> Vec<LoopStep> {
    let mut steps = Vec::new();
    for answer in answers {
        let step = viewer.poll(*answer);
        steps.push(step);
        if step == LoopStep::Handle(ViewCommand::Quit) {
            break;
        }
    }
    steps
}

#[test]
fn a_frame_is_drawn_when_no_event_waits() {
    let mut viewer = viewer();
    let before = viewer;
    assert_eq!(viewer.poll(None), LoopStep::Draw);
    assert_eq!(viewer.poll(None), LoopStep::Draw);
    assert_eq!(viewer, before);
    let step = viewer.poll(Some(press(Key::F)));
    assert_eq!(step, LoopStep::Handle(ViewCommand::ShowCursor { visible: false }));
    assert!(viewer.spotlight);
}

#[test]
fn each_drained_queue_is_drawn_once_and_nothing_after_leaving() {
    let mut viewer = viewer();
    let answers = [
        Some(InputEvent::MouseButtonDown { left: true }),
        Some(motion(5, 6, 1, 2)),
        None,
        None,
        Some(press(Key::W)),
        Some(press(Key::Q)),
        Some(press(Key::F)),
        None,
    ];
    assert_eq!(
        session(&mut viewer, &answers),
        [
            LoopStep::Handle(ViewCommand::Nothing),
            LoopStep::Handle(ViewCommand::PanBy { dx: 1, dy: 2 }),
            LoopStep::Draw,
            LoopStep::Draw,
            LoopStep::Handle(ViewCommand::ZoomIn),
            LoopStep::Handle(ViewCommand::Quit),
        ]
    );
    assert!(viewer.dragging && !viewer.spotlight);
    assert_eq!((viewer.cursor_x2, viewer.cursor_y2), (10, 12));
}

#[test]
fn the_cursor_shows_again_at_the_end() {
    let mut viewer = viewer();
    assert_eq!(viewer.close(), ViewCommand::ShowCursor { visible: true });
    viewer.handle(press(Key::F));
    viewer.handle(InputEvent::Quit);
    assert_eq!(viewer.close(), ViewCommand::ShowCursor { visible: true });
}
