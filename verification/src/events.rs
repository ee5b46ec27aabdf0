//! The event-loop decisions: which action the harness takes for each
//! window event. The loop itself (waiting on the platform, performing the
//! actions) lives outside the library; this module fixes what it must do.

use vstd::prelude::*;
use crate::Extent;

verus! {

/// A window event the harness reacts to. Anything else the platform
/// reports is `Other`.
#[derive(Clone, Copy, Debug, PartialEq, Eq, Structural)]
pub enum WindowEvent {
    /// The window's drawable area changed to the given extent.
    Resized(Extent),
    /// The platform asked for the window's contents to be drawn.
    RedrawRequested,
    /// The user asked to close the window.
    CloseRequested,
    /// Any other event.
    Other,
}

/// What the event loop must do next. `Reconfigure` carries the new extent
/// and asks for both a surface reconfiguration and a follow-up redraw
/// request; `Render` clears and presents one frame; `Exit` terminates the
/// loop; `Ignore` does nothing.
#[derive(Clone, Copy, Debug, PartialEq, Eq, Structural)]
pub enum Action {
    Reconfigure(Extent),
    Render,
    Exit,
    Ignore,
}

/// The action owed to each event.
pub open spec fn action_for(event: WindowEvent) -> Action {
    match event {
        WindowEvent::Resized(size) => Action::Reconfigure(size),
        WindowEvent::RedrawRequested => Action::Render,
        WindowEvent::CloseRequested => Action::Exit,
        WindowEvent::Other => Action::Ignore,
    }
}

/// Decides the event loop's next action. A close request always exits and
/// never renders; only a redraw request ever acquires a frame.
pub fn dispatch(event: &WindowEvent) -> (action: Action)
    ensures
        action == action_for(*event),
{
    match event {
        WindowEvent::Resized(size) => Action::Reconfigure(*size),
        WindowEvent::RedrawRequested => Action::Render,
        WindowEvent::CloseRequested => Action::Exit,
        WindowEvent::Other => Action::Ignore,
    }
}

} // verus!
