//! The per-event decision of the render loop.
//!
//! The event loop of the sample reacts to a handful of window events:
//! it exits on a close request, rebuilds the drawable surface and the
//! uniform buffer when the window is resized or its scale factor
//! changes, draws on a redraw request, and asks for a new redraw when
//! the loop is about to go idle. Everything else is ignored. The loop
//! itself runs outside the library; it reduces each platform event to
//! a [`LoopEvent`], asks [`respond`] what to do, and performs the
//! returned [`LoopAction`].

use vstd::prelude::*;

verus! {

/// A platform event, reduced to what the render loop distinguishes.
#[derive(Clone, Copy, Debug, PartialEq, Eq, Structural)]
pub enum LoopEvent {
    /// The user asked to close the window.
    CloseRequested,
    /// The window was resized.
    Resized,
    /// The monitor scale factor of the window changed.
    ScaleFactorChanged,
    /// The platform asked for the window to be redrawn.
    RedrawRequested,
    /// The event loop is about to wait for new events.
    AboutToWait,
    /// Any other window event.
    OtherWindow,
    /// Any other event.
    Other,
}

/// What the render loop does in reaction to one event.
#[derive(Clone, Copy, Debug, PartialEq, Eq, Structural)]
pub enum LoopAction {
    /// Leave the event loop.
    Exit,
    /// Resize the drawable, rebuild the depth texture and refresh the
    /// uniform buffer for the new aspect ratio.
    RebuildSurface,
    /// Encode and submit one frame.
    Draw,
    /// Request one more redraw.
    RequestRedraw,
    /// Do nothing.
    Ignore,
}

/// The decision table of the render loop.
pub open spec fn action_for(e: LoopEvent) -> LoopAction {
    match e {
        LoopEvent::CloseRequested => LoopAction::Exit,
        LoopEvent::Resized => LoopAction::RebuildSurface,
        LoopEvent::ScaleFactorChanged => LoopAction::RebuildSurface,
        LoopEvent::RedrawRequested => LoopAction::Draw,
        LoopEvent::AboutToWait => LoopAction::RequestRedraw,
        LoopEvent::OtherWindow => LoopAction::Ignore,
        LoopEvent::Other => LoopAction::Ignore,
    }
}

/// Decide what the render loop does for one event.
pub fn respond(e: LoopEvent) -> (a: LoopAction)
    ensures
        a == action_for(e),
{
    match e {
        LoopEvent::CloseRequested => LoopAction::Exit,
        LoopEvent::Resized => LoopAction::RebuildSurface,
        LoopEvent::ScaleFactorChanged => LoopAction::RebuildSurface,
        LoopEvent::RedrawRequested => LoopAction::Draw,
        LoopEvent::AboutToWait => LoopAction::RequestRedraw,
        LoopEvent::OtherWindow => LoopAction::Ignore,
        LoopEvent::Other => LoopAction::Ignore,
    }
}

} // verus!
