//! Window events, as the viewer sees them, and the command each one asks for.
use vstd::prelude::*;

verus! {

/// The keys that the viewer reacts to.
#[derive(Clone, Copy, Debug, PartialEq, Eq, Structural)]
pub enum Key {
    Escape,
    W,
    A,
    S,
    D,
    Other,
}

/// One step of panning, in the direction the view moves.
#[derive(Clone, Copy, Debug, PartialEq, Eq, Structural)]
pub enum PanStep {
    Up,
    Down,
    Left,
    Right,
}

/// Unit offset of a pan step, `(x, y)`, with `y` growing upwards.
pub open spec fn pan_offset(step: PanStep) -> (int, int) {
    match step {
        PanStep::Up => (0, 1),
        PanStep::Down => (0, -1),
        PanStep::Left => (-1, 0),
        PanStep::Right => (1, 0),
    }
}

/// The pan step that a key asks for: W up, S down, A left, D right.
pub open spec fn pan_step_of(key: Key) -> Option<PanStep> {
    match key {
        Key::W => Some(PanStep::Up),
        Key::S => Some(PanStep::Down),
        Key::A => Some(PanStep::Left),
        Key::D => Some(PanStep::Right),
        _ => None,
    }
}

impl PanStep {
    /// Unit offset of this step along x and y.
    pub fn offset(self) -> (r: (i8, i8))
        ensures
            (r.0 as int, r.1 as int) == pan_offset(self),
    {
        match self {
            PanStep::Up => (0, 1),
            PanStep::Down => (0, -1),
            PanStep::Left => (-1, 0),
            PanStep::Right => (1, 0),
        }
    }
}

/// The pan step bound to a key, if any.
pub fn pan_step_for(key: Key) -> (r: Option<PanStep>)
    ensures
        r == pan_step_of(key),
{
    match key {
        Key::W => Some(PanStep::Up),
        Key::S => Some(PanStep::Down),
        Key::A => Some(PanStep::Left),
        Key::D => Some(PanStep::Right),
        _ => None,
    }
}

/// Direction of one zoom step. `Out` widens the visible region (the zoom
/// factor grows by a tenth), `In` narrows it (the factor shrinks by a tenth).
#[derive(Clone, Copy, Debug, PartialEq, Eq, Structural)]
pub enum ZoomStep {
    Out,
    In,
}

/// A window event, reduced to what the viewer decides on.
#[derive(Clone, Copy, Debug, PartialEq, Eq, Structural)]
pub enum InputEvent {
    /// The user asked to close the window.
    CloseRequested,
    /// The window needs a new frame.
    RedrawRequested,
    /// A scroll-wheel movement; `backward` when its vertical delta is negative.
    Wheel { backward: bool },
    /// The cursor moved inside the window.
    CursorMoved,
    /// A keyboard key changed state.
    KeyInput { pressed: bool, key: Key },
    /// Anything else.
    Other,
}

/// What the viewer does in answer to an event.
#[derive(Clone, Copy, Debug, PartialEq, Eq, Structural)]
pub enum Command {
    /// Leave the event loop.
    Exit,
    /// Render a frame and ask for the next one.
    Redraw,
    /// Zoom about the point under the cursor.
    Zoom(ZoomStep),
    /// Remember the new cursor position.
    TrackCursor,
    /// Move the view by one step.
    Pan(PanStep),
    /// Leave everything as it is.
    Nothing,
}

/// An event that ends the session: a close request, or Escape pressed.
pub open spec fn is_exit_request(event: InputEvent) -> bool {
    ||| event is CloseRequested
    ||| event == (InputEvent::KeyInput { pressed: true, key: Key::Escape })
}

/// A key press whose key is bound to a pan step.
pub open spec fn is_pan_request(event: InputEvent) -> bool {
    event matches InputEvent::KeyInput { pressed, key } && pressed && pan_step_of(key) is Some
}

/// The command for `event`; a redraw happens only once a renderer exists.
pub fn command_for(event: InputEvent, renderer_ready: bool) -> (c: Command)
    ensures
        c is Exit <==> is_exit_request(event),
        c is Redraw <==> (event is RedrawRequested && renderer_ready),
        c == Command::Zoom(ZoomStep::Out) <==> event == (InputEvent::Wheel { backward: true }),
        c == Command::Zoom(ZoomStep::In) <==> event == (InputEvent::Wheel { backward: false }),
        c is TrackCursor <==> event is CursorMoved,
        c is Pan <==> is_pan_request(event),
        c is Pan ==> (event matches InputEvent::KeyInput { key, .. } && pan_step_of(key) == Some(
            c->Pan_0,
        )),
{
    match event {
        InputEvent::CloseRequested => Command::Exit,
        InputEvent::RedrawRequested => {
            if renderer_ready {
                Command::Redraw
            } else {
                Command::Nothing
            }
        },
        InputEvent::Wheel { backward } => {
            if backward {
                Command::Zoom(ZoomStep::Out)
            } else {
                Command::Zoom(ZoomStep::In)
            }
        },
        InputEvent::CursorMoved => Command::TrackCursor,
        InputEvent::KeyInput { pressed, key } => {
            if !pressed {
                Command::Nothing
            } else if key == Key::Escape {
                Command::Exit
            } else {
                match pan_step_for(key) {
                    Some(step) => Command::Pan(step),
                    None => Command::Nothing,
                }
            }
        },
        InputEvent::Other => Command::Nothing,
    }
}

} // verus!
