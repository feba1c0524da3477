//! What the magnifier does on input.

use crate::pixels::Screenshot;
use vstd::prelude::*;

verus! {

/// How far an arrow key moves the picture, in pixels.
pub const ARROW_PAN_STEP: i32 = 72;

/// A key, as far as the magnifier tells keys apart.
#[derive(Clone, Copy, Debug, PartialEq, Eq, Structural)]
pub enum Key {
    Escape,
    Q,
    W,
    S,
    F,
    Left,
    Right,
    Up,
    Down,
    Other,
}

/// An input event of the window.
#[derive(Clone, Copy, Debug, PartialEq, Eq, Structural)]
pub enum InputEvent {
    /// The window is to close.
    Quit,
    /// A key went down, or was held long enough to repeat.
    KeyDown { key: Key, repeat: bool },
    /// The wheel turned by `steps` whole steps; `precise` says whether the device also gave
    /// a finer amount other than zero.
    MouseWheel { steps: i32, precise: bool },
    /// A mouse button went down.
    MouseButtonDown { left: bool },
    /// A mouse button went up.
    MouseButtonUp { left: bool },
    /// The mouse moved to a position, by an amount.
    MouseMotion { x: i32, y: i32, xrel: i32, yrel: i32 },
    /// Anything else.
    Other,
}

/// What an event asks for.
#[derive(Clone, Copy, Debug, PartialEq, Eq, Structural)]
pub enum ViewCommand {
    /// Nothing.
    Nothing,
    /// Leave the magnifier, without drawing again.
    Quit,
    /// Zoom in by one key step, keeping what is under the cursor in place.
    ZoomIn,
    /// Zoom out by one key step, keeping what is under the cursor in place.
    ZoomOut,
    /// Zoom by the wheel's finer amount, keeping what is under the cursor in place.
    ZoomByPreciseWheel,
    /// Zoom by whole wheel steps, keeping what is under the cursor in place.
    ZoomByWheelSteps { steps: i32 },
    /// Move the picture.
    PanBy { dx: i32, dy: i32 },
    /// Show or hide the mouse cursor.
    ShowCursor { visible: bool },
}

/// What the window does next, after asking once for an event.
#[derive(Clone, Copy, Debug, PartialEq, Eq, Structural)]
pub enum LoopStep {
    /// Draw a frame: no event is waiting.
    Draw,
    /// Do what an event asks for, and ask again unless it is to leave.
    Handle(ViewCommand),
}

/// The state of the magnifier that input decides on.
#[derive(Clone, Copy, Debug, PartialEq, Eq, Structural)]
pub struct Viewer {
    pub image_width: u32,
    pub image_height: u32,
    /// The cursor's distance from the left edge of the window, in half pixels.
    pub cursor_x2: i64,
    /// The cursor's distance from the top edge of the window, in half pixels.
    pub cursor_y2: i64,
    /// Whether the picture follows the mouse.
    pub dragging: bool,
    /// Whether only the surroundings of the cursor are lit.
    pub spotlight: bool,
}

/// The size of the area to draw on, of at least one pixel each way.
pub fn drawable_size(width: u32, height: u32) -> (size: (u32, u32))
    ensures
        size.0 == (if width == 0 {
            1
        } else {
            width
        }),
        size.1 == (if height == 0 {
            1
        } else {
            height
        }),
{
    (
        if width < 1 {
            1
        } else {
            width
        },
        if height < 1 {
            1
        } else {
            height
        },
    )
}

impl Viewer {
    /// Whether the spotlight key has just been pressed.
    pub open spec fn toggles_spotlight(event: InputEvent) -> bool {
        event == InputEvent::KeyDown { key: Key::F, repeat: false }
    }

    /// The state after `event`.
    pub open spec fn next(self, event: InputEvent) -> Viewer {
        match event {
            InputEvent::KeyDown { key: Key::F, repeat: false } => Viewer {
                spotlight: !self.spotlight,
                ..self
            },
            InputEvent::MouseButtonDown { left: true } => Viewer { dragging: true, ..self },
            InputEvent::MouseButtonUp { left: true } => Viewer { dragging: false, ..self },
            InputEvent::MouseMotion { x, y, .. } => Viewer {
                cursor_x2: (2 * x) as i64,
                cursor_y2: (2 * y) as i64,
                ..self
            },
            _ => self,
        }
    }

    /// What `event` asks for.
    pub open spec fn command(self, event: InputEvent) -> ViewCommand {
        match event {
            InputEvent::Quit => ViewCommand::Quit,
            InputEvent::KeyDown { key, repeat } => match key {
                Key::Escape | Key::Q => ViewCommand::Quit,
                Key::W => ViewCommand::ZoomIn,
                Key::S => ViewCommand::ZoomOut,
                Key::F => if repeat {
                    ViewCommand::Nothing
                } else {
                    ViewCommand::ShowCursor { visible: self.spotlight }
                },
                Key::Left => ViewCommand::PanBy { dx: ARROW_PAN_STEP, dy: 0 },
                Key::Right => ViewCommand::PanBy { dx: (-ARROW_PAN_STEP) as i32, dy: 0 },
                Key::Up => ViewCommand::PanBy { dx: 0, dy: ARROW_PAN_STEP },
                Key::Down => ViewCommand::PanBy { dx: 0, dy: (-ARROW_PAN_STEP) as i32 },
                Key::Other => ViewCommand::Nothing,
            },
            InputEvent::MouseWheel { steps, precise } => if precise {
                ViewCommand::ZoomByPreciseWheel
            } else if steps != 0 {
                ViewCommand::ZoomByWheelSteps { steps }
            } else {
                ViewCommand::Nothing
            },
            InputEvent::MouseMotion { xrel, yrel, .. } => if self.dragging {
                ViewCommand::PanBy { dx: xrel, dy: yrel }
            } else {
                ViewCommand::Nothing
            },
            _ => ViewCommand::Nothing,
        }
    }

    /// The state after asking once for an event.
    pub open spec fn polled(self, polled: Option<InputEvent>) -> Viewer {
        match polled {
            None => self,
            Some(event) => self.next(event),
        }
    }

    /// What the window does after asking once for an event.
    pub open spec fn step(self, polled: Option<InputEvent>) -> LoopStep {
        match polled {
            None => LoopStep::Draw,
            Some(event) => LoopStep::Handle(self.command(event)),
        }
    }

    /// Opens on a screenshot, with the cursor taken to be in the middle of a drawable area
    /// of the given size.
    pub fn new(screenshot: &Screenshot, width: u32, height: u32) -> (viewer: Viewer)
        ensures
            viewer.image_width == screenshot.width,
            viewer.image_height == screenshot.height,
            viewer.cursor_x2 == width,
            viewer.cursor_y2 == height,
            !viewer.dragging,
            !viewer.spotlight,
    {
        Viewer {
            image_width: screenshot.width,
            image_height: screenshot.height,
            cursor_x2: width as i64,
            cursor_y2: height as i64,
            dragging: false,
            spotlight: false,
        }
    }

    /// Turns the spotlight on or off. The mouse cursor shows while it is off.
    pub fn set_spotlight(&mut self, enabled: bool) -> (command: ViewCommand)
        ensures
            *final(self) == (Viewer { spotlight: enabled, ..*old(self) }),
            command == (ViewCommand::ShowCursor { visible: !enabled }),
    {
        self.spotlight = enabled;
        ViewCommand::ShowCursor { visible: !enabled }
    }

    /// Takes in an event.
    pub fn handle(&mut self, event: InputEvent) -> (command: ViewCommand)
        ensures
            *final(self) == old(self).next(event),
            command == old(self).command(event),
    {
        match event {
            InputEvent::Quit => ViewCommand::Quit,
            InputEvent::KeyDown { key, repeat } => match key {
                Key::Escape | Key::Q => ViewCommand::Quit,
                Key::W => ViewCommand::ZoomIn,
                Key::S => ViewCommand::ZoomOut,
                Key::F => {
                    if repeat {
                        ViewCommand::Nothing
                    } else {
                        let enabled = !self.spotlight;
                        self.set_spotlight(enabled)
                    }
                },
                Key::Left => ViewCommand::PanBy { dx: ARROW_PAN_STEP, dy: 0 },
                Key::Right => ViewCommand::PanBy { dx: -ARROW_PAN_STEP, dy: 0 },
                Key::Up => ViewCommand::PanBy { dx: 0, dy: ARROW_PAN_STEP },
                Key::Down => ViewCommand::PanBy { dx: 0, dy: -ARROW_PAN_STEP },
                Key::Other => ViewCommand::Nothing,
            },
            InputEvent::MouseWheel { steps, precise } => {
                if precise {
                    ViewCommand::ZoomByPreciseWheel
                } else if steps != 0 {
                    ViewCommand::ZoomByWheelSteps { steps }
                } else {
                    ViewCommand::Nothing
                }
            },
            InputEvent::MouseButtonDown { left } => {
                if left {
                    self.dragging = true;
                }
                ViewCommand::Nothing
            },
            InputEvent::MouseButtonUp { left } => {
                if left {
                    self.dragging = false;
                }
                ViewCommand::Nothing
            },
            InputEvent::MouseMotion { x, y, xrel, yrel } => {
                self.cursor_x2 = 2 * (x as i64);
                self.cursor_y2 = 2 * (y as i64);
                if self.dragging {
                    ViewCommand::PanBy { dx: xrel, dy: yrel }
                } else {
                    ViewCommand::Nothing
                }
            },
            InputEvent::Other => ViewCommand::Nothing,
        }
    }

    /// Takes in the answer to asking for an event: a frame is drawn whenever none is left.
    pub fn poll(&mut self, polled: Option<InputEvent>) -> (step: LoopStep)
        ensures
            *final(self) == old(self).polled(polled),
            step == old(self).step(polled),
    {
        match polled {
            None => LoopStep::Draw,
            Some(event) => LoopStep::Handle(self.handle(event)),
        }
    }

    /// What the window does last, however it is left: the mouse cursor shows again.
    pub fn close(&self) -> (command: ViewCommand)
        ensures
            command == (ViewCommand::ShowCursor { visible: true }),
    {
        ViewCommand::ShowCursor { visible: true }
    }

    /// What the window does for a series of answers: it asks again until it is to leave.
    pub open spec fn session(self, answers: Seq<Option<InputEvent>>) -> Seq<LoopStep>
        decreases answers.len(),
    {
        if answers.len() == 0 {
            Seq::empty()
        } else {
            let step = self.step(answers[0]);
            if step == LoopStep::Handle(ViewCommand::Quit) {
                seq![step]
            } else {
                seq![step] + self.polled(answers[0]).session(answers.skip(1))
            }
        }
    }

    /// The state at the end of a session.
    pub open spec fn session_end(self, answers: Seq<Option<InputEvent>>) -> Viewer
        decreases answers.len(),
    {
        if answers.len() == 0 {
            self
        } else if self.step(answers[0]) == LoopStep::Handle(ViewCommand::Quit) {
            self.polled(answers[0])
        } else {
            self.polled(answers[0]).session_end(answers.skip(1))
        }
    }

    /// The state after a series of events.
    pub open spec fn after(self, events: Seq<InputEvent>) -> Viewer
        decreases events.len(),
    {
        if events.len() == 0 {
            self
        } else {
            self.after(events.drop_last()).next(events.last())
        }
    }

    /// Whether the mouse cursor shows after a series of events, by what they asked for, if
    /// it showed before as `visible` says.
    pub open spec fn cursor_shown(self, visible: bool, events: Seq<InputEvent>) -> bool
        decreases events.len(),
    {
        if events.len() == 0 {
            visible
        } else {
            let before = events.drop_last();
            match self.after(before).command(events.last()) {
                ViewCommand::ShowCursor { visible } => visible,
                _ => self.cursor_shown(visible, before),
            }
        }
    }
}

/// How often the spotlight key was pressed.
pub open spec fn spotlight_presses(events: Seq<InputEvent>) -> nat
    decreases events.len(),
{
    if events.len() == 0 {
        0
    } else {
        spotlight_presses(events.drop_last()) + if Viewer::toggles_spotlight(events.last()) {
            1nat
        } else {
            0nat
        }
    }
}

/// Whether the left button was last pressed or last released, if it was either.
pub open spec fn last_left_button(events: Seq<InputEvent>) -> Option<bool>
    decreases events.len(),
{
    if events.len() == 0 {
        None
    } else {
        match events.last() {
            InputEvent::MouseButtonDown { left: true } => Some(true),
            InputEvent::MouseButtonUp { left: true } => Some(false),
            _ => last_left_button(events.drop_last()),
        }
    }
}

/// Where the mouse last moved to, if it moved.
pub open spec fn last_position(events: Seq<InputEvent>) -> Option<(i32, i32)>
    decreases events.len(),
{
    if events.len() == 0 {
        None
    } else {
        match events.last() {
            InputEvent::MouseMotion { x, y, .. } => Some((x, y)),
            _ => last_position(events.drop_last()),
        }
    }
}

/// The spotlight is switched by each press of its key and by nothing else: it is as it was
/// after an even number of presses.
pub proof fn law_spotlight_alternates(viewer: Viewer, events: Seq<InputEvent>)
    ensures
        viewer.after(events).spotlight == (viewer.spotlight == (spotlight_presses(events) % 2
            == 0)),
    decreases events.len(),
{
    if events.len() > 0 {
        law_spotlight_alternates(viewer, events.drop_last());
    }
}

/// The mouse cursor shows exactly while the spotlight is off.
pub proof fn law_cursor_shows_without_spotlight(viewer: Viewer, events: Seq<InputEvent>)
    ensures
        viewer.cursor_shown(!viewer.spotlight, events) == !viewer.after(events).spotlight,
    decreases events.len(),
{
    if events.len() > 0 {
        law_cursor_shows_without_spotlight(viewer, events.drop_last());
    }
}

/// The picture is dragged while the left button is down.
pub proof fn law_dragging_follows_the_left_button(viewer: Viewer, events: Seq<InputEvent>)
    ensures
        viewer.after(events).dragging == match last_left_button(events) {
            Some(down) => down,
            None => viewer.dragging,
        },
    decreases events.len(),
{
    if events.len() > 0 {
        law_dragging_follows_the_left_button(viewer, events.drop_last());
    }
}

/// The cursor is where the mouse last moved to.
pub proof fn law_cursor_is_where_the_mouse_is(viewer: Viewer, events: Seq<InputEvent>)
    ensures
        match last_position(events) {
            Some((x, y)) => {
                &&& viewer.after(events).cursor_x2 == 2 * x
                &&& viewer.after(events).cursor_y2 == 2 * y
            },
            None => {
                &&& viewer.after(events).cursor_x2 == viewer.cursor_x2
                &&& viewer.after(events).cursor_y2 == viewer.cursor_y2
            },
        },
    decreases events.len(),
{
    if events.len() > 0 {
        law_cursor_is_where_the_mouse_is(viewer, events.drop_last());
    }
}

/// The screenshot's size never changes.
pub proof fn law_image_size_is_fixed(viewer: Viewer, events: Seq<InputEvent>)
    ensures
        viewer.after(events).image_width == viewer.image_width,
        viewer.after(events).image_height == viewer.image_height,
    decreases events.len(),
{
    if events.len() > 0 {
        law_image_size_is_fixed(viewer, events.drop_last());
    }
}

/// Moving the mouse moves the picture along, by as much, while it is dragged, and leaves it
/// in place otherwise.
pub proof fn law_motion_pans_while_dragging(
    viewer: Viewer,
    events: Seq<InputEvent>,
    x: i32,
    y: i32,
    xrel: i32,
    yrel: i32,
)
    ensures
        viewer.after(events).command(
            InputEvent::MouseMotion { x, y, xrel, yrel },
        ) == if last_left_button(events) == Some(true) || (last_left_button(events) is None
            && viewer.dragging) {
            ViewCommand::PanBy { dx: xrel, dy: yrel }
        } else {
            ViewCommand::Nothing
        },
{
    law_dragging_follows_the_left_button(viewer, events);
}

/// Whether an answer is an event that leaves the magnifier: the window is to close, or one
/// of the two keys for it went down.
pub open spec fn quits(polled: Option<InputEvent>) -> bool {
    match polled {
        Some(InputEvent::Quit) => true,
        Some(InputEvent::KeyDown { key, .. }) => key == Key::Escape || key == Key::Q,
        _ => false,
    }
}

/// How many of the answers are asked for: those up to the first that leaves, and it.
pub open spec fn asked(answers: Seq<Option<InputEvent>>) -> nat
    decreases answers.len(),
{
    if answers.len() == 0 {
        0
    } else if quits(answers[0]) {
        1
    } else {
        1 + asked(answers.skip(1))
    }
}

/// How many of the answers are that no event is waiting.
pub open spec fn pauses(answers: Seq<Option<InputEvent>>) -> nat
    decreases answers.len(),
{
    if answers.len() == 0 {
        0
    } else {
        pauses(answers.skip(1)) + if answers[0] is None {
            1nat
        } else {
            0nat
        }
    }
}

/// How many of the steps draw.
pub open spec fn draws(steps: Seq<LoopStep>) -> nat
    decreases steps.len(),
{
    if steps.len() == 0 {
        0
    } else {
        draws(steps.skip(1)) + if steps[0] == LoopStep::Draw {
            1nat
        } else {
            0nat
        }
    }
}

/// The events among the answers.
pub open spec fn events_of(answers: Seq<Option<InputEvent>>) -> Seq<InputEvent>
    decreases answers.len(),
{
    if answers.len() == 0 {
        Seq::empty()
    } else {
        match answers[0] {
            Some(event) => seq![event] + events_of(answers.skip(1)),
            None => events_of(answers.skip(1)),
        }
    }
}

proof fn lemma_asked_bound(answers: Seq<Option<InputEvent>>)
    ensures
        asked(answers) <= answers.len(),
    decreases answers.len(),
{
    if answers.len() > 0 {
        lemma_asked_bound(answers.skip(1));
    }
}

proof fn lemma_after_first(viewer: Viewer, first: InputEvent, rest: Seq<InputEvent>)
    ensures
        viewer.after(seq![first] + rest) == viewer.next(first).after(rest),
    decreases rest.len(),
{
    let all = seq![first] + rest;
    if rest.len() == 0 {
        assert(all.drop_last() =~= Seq::empty());
        assert(viewer.after(all.drop_last()) == viewer);
    } else {
        assert(all.drop_last() =~= seq![first] + rest.drop_last());
        lemma_after_first(viewer, first, rest.drop_last());
    }
}

/// The window asks for events up to the first that leaves and no further, and answers each
/// in turn: so nothing is drawn and nothing else is done after leaving.
pub proof fn law_nothing_follows_leaving(viewer: Viewer, answers: Seq<Option<InputEvent>>)
    ensures
        viewer.session(answers).len() == asked(answers),
        asked(answers) <= answers.len(),
        forall|i: int|
            0 <= i < asked(answers) ==> (#[trigger] viewer.session(answers)[i]
                == LoopStep::Handle(ViewCommand::Quit)) == quits(answers[i]),
        forall|i: int|
            0 <= i < asked(answers) - 1 ==> viewer.session(answers)[i] != LoopStep::Handle(
                ViewCommand::Quit,
            ),
        asked(answers) < answers.len() ==> viewer.session(answers).last() == LoopStep::Handle(
            ViewCommand::Quit,
        ),
    decreases answers.len(),
{
    if answers.len() > 0 {
        let steps = viewer.session(answers);
        let step = viewer.step(answers[0]);
        assert((step == LoopStep::Handle(ViewCommand::Quit)) == quits(answers[0]));
        if !quits(answers[0]) {
            let next = viewer.polled(answers[0]);
            let rest = answers.skip(1);
            law_nothing_follows_leaving(next, rest);
            assert(steps[0] == step);
            assert forall|i: int| 0 <= i < asked(answers) implies (#[trigger] steps[i]
                == LoopStep::Handle(ViewCommand::Quit)) == quits(answers[i]) by {
                if i > 0 {
                    assert(steps[i] == next.session(rest)[i - 1]);
                    assert(answers[i] == rest[i - 1]);
                }
            }
            assert forall|i: int| 0 <= i < asked(answers) - 1 implies steps[i]
                != LoopStep::Handle(ViewCommand::Quit) by {
                if i > 0 {
                    assert(steps[i] == next.session(rest)[i - 1]);
                }
            }
            if asked(answers) < answers.len() {
                assert(asked(rest) > 0);
                assert(steps.last() == next.session(rest).last());
            }
        }
    }
}

/// A frame is drawn once for each time that the waiting events have all been handled, and
/// never after leaving.
pub proof fn law_one_draw_for_each_drained_queue(viewer: Viewer, answers: Seq<Option<InputEvent>>)
    ensures
        draws(viewer.session(answers)) == pauses(answers.take(asked(answers) as int)),
    decreases answers.len(),
{
    lemma_asked_bound(answers);
    let asked_for = answers.take(asked(answers) as int);
    if answers.len() > 0 {
        let steps = viewer.session(answers);
        let rest = answers.skip(1);
        let step = viewer.step(answers[0]);
        assert(asked_for[0] == answers[0]);
        assert((step == LoopStep::Handle(ViewCommand::Quit)) == quits(answers[0]));
        if quits(answers[0]) {
            assert(steps.skip(1) =~= Seq::empty());
            assert(asked_for.skip(1) =~= Seq::empty());
            assert(draws(steps.skip(1)) == 0);
            assert(pauses(asked_for.skip(1)) == 0);
        } else {
            lemma_asked_bound(rest);
            law_one_draw_for_each_drained_queue(viewer.polled(answers[0]), rest);
            assert(steps.skip(1) =~= viewer.polled(answers[0]).session(rest));
            assert(asked_for.skip(1) =~= rest.take(asked(rest) as int));
        }
    }
}

/// A session handles its events in order, up to the one that leaves: each step is what the
/// state that the events before it lead to makes of the answer, and the session ends in the
/// state that all of them lead to.
pub proof fn law_sessions_handle_events_in_order(viewer: Viewer, answers: Seq<Option<InputEvent>>)
    ensures
        viewer.session_end(answers) == viewer.after(
            events_of(answers.take(asked(answers) as int)),
        ),
        forall|i: int|
            0 <= i < asked(answers) ==> #[trigger] viewer.session(answers)[i] == viewer.after(
                events_of(answers.take(i)),
            ).step(answers[i]),
    decreases answers.len(),
{
    lemma_asked_bound(answers);
    let asked_for = answers.take(asked(answers) as int);
    if answers.len() == 0 {
        assert(asked_for =~= Seq::empty());
    } else {
        let rest = answers.skip(1);
        assert(asked_for[0] == answers[0]);
        assert((viewer.step(answers[0]) == LoopStep::Handle(ViewCommand::Quit)) == quits(
            answers[0],
        ));
        assert(answers.take(0) =~= Seq::empty());
        assert(viewer.after(events_of(answers.take(0))) == viewer);
        if quits(answers[0]) {
            assert(asked_for.skip(1) =~= Seq::empty());
            assert(events_of(asked_for.skip(1)) =~= Seq::empty());
            lemma_after_first(viewer, answers[0]->0, Seq::empty());
        } else {
            lemma_asked_bound(rest);
            let next = viewer.polled(answers[0]);
            law_sessions_handle_events_in_order(next, rest);
            law_nothing_follows_leaving(next, rest);
            assert forall|i: int| 0 <= i < asked(answers) implies #[trigger] viewer.session(
                answers,
            )[i] == viewer.after(events_of(answers.take(i))).step(answers[i]) by {
                if i > 0 {
                    assert(viewer.session(answers)[i] == next.session(rest)[i - 1]);
                    assert(answers.take(i).skip(1) =~= rest.take(i - 1));
                    if let Some(event) = answers[0] {
                        lemma_after_first(viewer, event, events_of(rest.take(i - 1)));
                    }
                }
            }
            assert(asked_for.skip(1) =~= rest.take(asked(rest) as int));
            if let Some(event) = answers[0] {
                lemma_after_first(viewer, event, events_of(asked_for.skip(1)));
            }
        }
    }
}

/// What a key asks for does not depend on whether it is held or on the state, and does not
/// change the state. The one key of which this is not so switches the spotlight.
pub proof fn law_held_keys_act_as_pressed(
    key: Key,
    first: Viewer,
    second: Viewer,
    repeat: bool,
    held: bool,
)
    requires
        key != Key::F,
    ensures
        first.command(InputEvent::KeyDown { key, repeat }) == second.command(
            InputEvent::KeyDown { key, repeat: held },
        ),
        first.next(InputEvent::KeyDown { key, repeat }) == first,
{
}

/// In every state, pressed or held, `W` zooms in and `S` zooms out, `Escape` and `Q` leave,
/// the arrows move the picture, and a key without a meaning does nothing. The state stays.
pub proof fn law_keys_zoom_and_leave(key: Key, repeat: bool)
    ensures
        forall|viewer: &mut Viewer, command: ViewCommand| #[trigger]
            call_ensures(
                Viewer::handle,
                (viewer, InputEvent::KeyDown { key, repeat }),
                command,
            ) ==> {
                &&& command == ViewCommand::ZoomIn <==> key == Key::W
                &&& command == ViewCommand::ZoomOut <==> key == Key::S
                &&& command == ViewCommand::Quit <==> key == Key::Escape || key == Key::Q
                &&& command is PanBy <==> key == Key::Left || key == Key::Right || key == Key::Up
                    || key == Key::Down
                &&& key == Key::Other ==> command == ViewCommand::Nothing
                &&& key != Key::F ==> *final(viewer) == *viewer
            },
{
}

/// In every state, pressed or held, each arrow key moves the picture by the same step along
/// one axis, away from where the key points, and the opposite key moves it back.
pub proof fn law_arrows_move_and_move_back(repeat: bool)
    ensures
        forall|viewer: &mut Viewer, command: ViewCommand| #[trigger]
            call_ensures(
                Viewer::handle,
                (viewer, InputEvent::KeyDown { key: Key::Left, repeat }),
                command,
            ) ==> (command matches ViewCommand::PanBy { dx, dy } && dx == 72 && dy == 0),
        forall|viewer: &mut Viewer, command: ViewCommand| #[trigger]
            call_ensures(
                Viewer::handle,
                (viewer, InputEvent::KeyDown { key: Key::Right, repeat }),
                command,
            ) ==> (command matches ViewCommand::PanBy { dx, dy } && dx == -72 && dy == 0),
        forall|viewer: &mut Viewer, command: ViewCommand| #[trigger]
            call_ensures(
                Viewer::handle,
                (viewer, InputEvent::KeyDown { key: Key::Up, repeat }),
                command,
            ) ==> (command matches ViewCommand::PanBy { dx, dy } && dx == 0 && dy == 72),
        forall|viewer: &mut Viewer, command: ViewCommand| #[trigger]
            call_ensures(
                Viewer::handle,
                (viewer, InputEvent::KeyDown { key: Key::Down, repeat }),
                command,
            ) ==> (command matches ViewCommand::PanBy { dx, dy } && dx == 0 && dy == -72),
{
}

/// Pressing the spotlight's key switches it, and nothing else of the state, and hides the
/// mouse cursor just if the spotlight is then on. Holding the key does nothing.
pub proof fn law_the_spotlight_key_switches(repeat: bool)
    ensures
        forall|viewer: &mut Viewer, command: ViewCommand| #[trigger]
            call_ensures(
                Viewer::handle,
                (viewer, InputEvent::KeyDown { key: Key::F, repeat }),
                command,
            ) ==> {
                &&& !repeat ==> final(viewer).spotlight != viewer.spotlight
                &&& !repeat ==> command == (ViewCommand::ShowCursor {
                    visible: !final(viewer).spotlight,
                })
                &&& repeat ==> final(viewer).spotlight == viewer.spotlight
                &&& repeat ==> command == ViewCommand::Nothing
                &&& *final(viewer) == (Viewer { spotlight: final(viewer).spotlight, ..*viewer })
            },
{
}

/// In every state the wheel zooms by the finer amount if there is one, by the whole steps that
/// it turned otherwise, and not at all if it did not turn. It changes nothing else.
pub proof fn law_the_wheel_zooms(steps: i32, precise: bool)
    ensures
        forall|viewer: &mut Viewer, command: ViewCommand| #[trigger]
            call_ensures(
                Viewer::handle,
                (viewer, InputEvent::MouseWheel { steps, precise }),
                command,
            ) ==> {
                &&& precise <==> command == ViewCommand::ZoomByPreciseWheel
                &&& !precise && steps != 0 <==> command is ZoomByWheelSteps
                &&& command matches ViewCommand::ZoomByWheelSteps { steps: by } ==> by == steps
                &&& !precise && steps == 0 <==> command == ViewCommand::Nothing
                &&& *final(viewer) == *viewer
            },
{
}

/// In every state pressing the left button starts dragging, and does nothing else; pressing
/// another button does nothing.
pub proof fn law_the_left_button_starts_dragging(left: bool)
    ensures
        forall|viewer: &mut Viewer, command: ViewCommand| #[trigger]
            call_ensures(
                Viewer::handle,
                (viewer, InputEvent::MouseButtonDown { left }),
                command,
            ) ==> {
                &&& command == ViewCommand::Nothing
                &&& final(viewer).dragging <==> left || viewer.dragging
                &&& *final(viewer) == (Viewer { dragging: final(viewer).dragging, ..*viewer })
            },
{
}

/// In every state releasing the left button ends dragging, and does nothing else; releasing
/// another button does nothing.
pub proof fn law_the_left_button_ends_dragging(left: bool)
    ensures
        forall|viewer: &mut Viewer, command: ViewCommand| #[trigger]
            call_ensures(
                Viewer::handle,
                (viewer, InputEvent::MouseButtonUp { left }),
                command,
            ) ==> {
                &&& command == ViewCommand::Nothing
                &&& final(viewer).dragging <==> !left && viewer.dragging
                &&& *final(viewer) == (Viewer { dragging: final(viewer).dragging, ..*viewer })
            },
{
}

/// In every state the cursor goes where the mouse moves, and the picture by as much as the
/// mouse if it is dragged; nothing else changes.
pub proof fn law_motion_moves_the_cursor(x: i32, y: i32, xrel: i32, yrel: i32)
    ensures
        forall|viewer: &mut Viewer, command: ViewCommand| #[trigger]
            call_ensures(
                Viewer::handle,
                (viewer, InputEvent::MouseMotion { x, y, xrel, yrel }),
                command,
            ) ==> {
                &&& final(viewer).cursor_x2 == 2 * x
                &&& final(viewer).cursor_y2 == 2 * y
                &&& *final(viewer) == (Viewer {
                    cursor_x2: final(viewer).cursor_x2,
                    cursor_y2: final(viewer).cursor_y2,
                    ..*viewer
                })
                &&& viewer.dragging <==> command is PanBy
                &&& command matches ViewCommand::PanBy { dx, dy } ==> dx == xrel && dy == yrel
                &&& !viewer.dragging <==> command == ViewCommand::Nothing
            },
{
}

/// Closing the window leaves, and any other event does nothing, in every state, which stays
/// as it is.
pub proof fn law_closing_leaves()
    ensures
        forall|viewer: &mut Viewer, command: ViewCommand| #[trigger]
            call_ensures(Viewer::handle, (viewer, InputEvent::Quit), command) ==> {
                &&& command == ViewCommand::Quit
                &&& *final(viewer) == *viewer
            },
        forall|viewer: &mut Viewer, command: ViewCommand| #[trigger]
            call_ensures(Viewer::handle, (viewer, InputEvent::Other), command) ==> {
                &&& command == ViewCommand::Nothing
                &&& *final(viewer) == *viewer
            },
{
}

/// Asking for events comes to the same as handling those that there are: from the same state
/// the step is to do what the event asks for, and the state becomes the same. Without an event
/// the step is to draw, which changes nothing.
pub proof fn law_asking_is_handling(event: InputEvent)
    ensures
        forall|asked: &mut Viewer, step: LoopStep, viewer: &mut Viewer, command: ViewCommand|
            #[trigger] call_ensures(Viewer::poll, (asked, Some(event)), step)
                && #[trigger] call_ensures(Viewer::handle, (viewer, event), command) && *asked
                == *viewer ==> {
                &&& step == LoopStep::Handle(command)
                &&& *final(asked) == *final(viewer)
            },
        forall|asked: &mut Viewer, step: LoopStep| #[trigger]
            call_ensures(Viewer::poll, (asked, None::<InputEvent>), step) ==> {
                &&& step == LoopStep::Draw
                &&& *final(asked) == *asked
            },
{
}

/// A viewer opens on the whole screenshot with the cursor in the middle of the window, the
/// spotlight off and the picture at rest.
pub proof fn law_viewers_open_at_rest(
    screenshot: Screenshot,
    width: u32,
    height: u32,
    viewer: Viewer,
)
    requires
        call_ensures(Viewer::new, (&screenshot, width, height), viewer),
    ensures
        viewer.image_width == screenshot.width,
        viewer.image_height == screenshot.height,
        viewer.cursor_x2 == width,
        viewer.cursor_y2 == height,
        !viewer.dragging,
        !viewer.spotlight,
{
}

/// Turning the spotlight on or off sets it and nothing else, and the mouse cursor shows just
/// while it is off; leaving shows it in every state.
pub proof fn law_leaving_shows_the_cursor(enabled: bool)
    ensures
        forall|viewer: &mut Viewer, command: ViewCommand| #[trigger]
            call_ensures(Viewer::set_spotlight, (viewer, enabled), command) ==> {
                &&& command == (ViewCommand::ShowCursor { visible: !enabled })
                &&& *final(viewer) == (Viewer { spotlight: enabled, ..*viewer })
            },
        forall|viewer: Viewer, command: ViewCommand| #[trigger]
            call_ensures(Viewer::close, (&viewer,), command) ==> command == (
            ViewCommand::ShowCursor { visible: true }),
{
}

/// The area to draw on is as large as the window's, and never empty.
pub proof fn law_drawable_areas_are_not_empty(width: u32, height: u32, size: (u32, u32))
    requires
        call_ensures(drawable_size, (width, height), size),
    ensures
        size.0 >= 1,
        size.1 >= 1,
        width >= 1 ==> size.0 == width,
        height >= 1 ==> size.1 == height,
        width < 1 ==> size.0 == 1,
        height < 1 ==> size.1 == 1,
{
}

} // verus!
