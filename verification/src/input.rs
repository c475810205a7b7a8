//! Window events, and what the view makes of them.

use crate::view::{Keys, RenderView};
use vstd::prelude::*;

verus! {

/// A key, as far as the view itself tells keys apart.
#[derive(Debug, Clone, Copy, PartialEq, Eq, Structural)]
pub enum Key {
    /// The key that switches the rotation on and off.
    R,
    /// Any other key.
    Other,
}

/// A mouse button.
#[derive(Debug, Clone, Copy, PartialEq, Eq, Structural)]
pub enum MouseButton {
    Left,
    Right,
    Middle,
    Other,
}

/// An event of the window, reduced to what the view reads of it.
#[derive(Debug, Clone, Copy, PartialEq, Eq, Structural)]
pub enum WindowInput {
    /// A key with a known code went down or up.
    Keyboard { key: Key, pressed: bool },
    /// The mouse wheel turned.
    MouseWheel,
    /// A mouse button went down or up.
    MouseInput { button: MouseButton, pressed: bool },
    /// Anything else.
    Other,
}

/// What became of an event.
#[derive(Debug, Clone, Copy, PartialEq, Eq, Structural)]
pub enum Dispatch {
    /// The view has dealt with the event.
    Consumed,
    /// The key belongs to the camera controller, which says whether it
    /// deals with it.
    CameraKey,
    /// The scroll belongs to the camera controller, which deals with it.
    CameraScroll,
    /// The event is not for the view.
    Ignored,
}

/// The view after an event. Pressing `R` switches the rotation over, and
/// the left mouse button is held for as long as it is down. Nothing else
/// changes the view.
pub open spec fn after_event(view: RenderView, event: WindowInput) -> RenderView {
    match event {
        WindowInput::Keyboard { key: Key::R, pressed: true } => RenderView {
            keys: Keys { rotation: !view.keys.rotation },
            ..view
        },
        WindowInput::MouseInput { button: MouseButton::Left, pressed } => RenderView {
            mouse_pressed: pressed,
            ..view
        },
        _ => view,
    }
}

/// Where an event goes: `R` and the left mouse button to the view, every
/// other key and the wheel to the camera controller, the rest nowhere.
pub open spec fn dispatch_of(event: WindowInput) -> Dispatch {
    match event {
        WindowInput::Keyboard { key: Key::R, .. } => Dispatch::Consumed,
        WindowInput::Keyboard { key: Key::Other, .. } => Dispatch::CameraKey,
        WindowInput::MouseWheel => Dispatch::CameraScroll,
        WindowInput::MouseInput { button: MouseButton::Left, .. } => Dispatch::Consumed,
        _ => Dispatch::Ignored,
    }
}

/// Applies a window event to the view and says where the event goes.
pub fn process_event(view: &mut RenderView, event: &WindowInput) -> (dispatch: Dispatch)
    ensures
        *final(view) == after_event(*old(view), *event),
        dispatch == dispatch_of(*event),
        old(view).wf() ==> final(view).wf(),
{
    match event {
        WindowInput::Keyboard { key, pressed } => {
            match key {
                Key::R => {
                    if *pressed {
                        view.keys.rotation = !view.keys.rotation;
                    }
                    Dispatch::Consumed
                },
                Key::Other => Dispatch::CameraKey,
            }
        },
        WindowInput::MouseWheel => Dispatch::CameraScroll,
        WindowInput::MouseInput { button, pressed } => {
            match button {
                MouseButton::Left => {
                    view.mouse_pressed = *pressed;
                    Dispatch::Consumed
                },
                _ => Dispatch::Ignored,
            }
        },
        WindowInput::Other => Dispatch::Ignored,
    }
}

/// Pressing `R` twice leaves the view as it was.
pub proof fn lemma_rotation_toggles(view: RenderView)
    ensures
        after_event(
            after_event(view, WindowInput::Keyboard { key: Key::R, pressed: true }),
            WindowInput::Keyboard { key: Key::R, pressed: true },
        ) == view,
{
}

} // verus!
