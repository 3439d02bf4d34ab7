use vstd::prelude::*;

verus! {

/// A notification delivered by the windowing system's event loop, reduced to
/// what the lifecycle reacts to. `exiting` reports whether a close was
/// already requested when the redraw arrived.
#[derive(Clone, Copy, Debug, PartialEq, Eq, Structural)]
pub enum LoopEvent {
    /// All pending events were processed; the next redraw may be requested.
    AboutToWait,
    /// The window asks for a frame.
    RedrawRequested { exiting: bool },
    /// The user asked to close the window.
    CloseRequested,
    /// Anything else; the lifecycle ignores it.
    Other,
}

/// What the event loop driver must do in response to an event.
#[derive(Clone, Copy, Debug, PartialEq, Eq, Structural)]
pub enum Action {
    /// Ask the window for the next redraw.
    RequestRedraw,
    /// Render one frame; a failed frame is fatal.
    Render,
    /// Stop the event loop and destroy the application, exactly once.
    DestroyAndExit,
    /// Do nothing.
    Ignore,
}

/// The dispatch decision: render on redraw only while not exiting (a close
/// request short-circuits further redraw dispatch), destroy and exit on a
/// close request, request the next redraw after each processed batch.
pub open spec fn spec_dispatch(event: LoopEvent) -> Action {
    match event {
        LoopEvent::AboutToWait => Action::RequestRedraw,
        LoopEvent::RedrawRequested { exiting } => if exiting {
            Action::Ignore
        } else {
            Action::Render
        },
        LoopEvent::CloseRequested => Action::DestroyAndExit,
        LoopEvent::Other => Action::Ignore,
    }
}

/// Decides how the driver must react to a windowing event.
pub fn dispatch(event: &LoopEvent) -> (a: Action)
    ensures
        a == spec_dispatch(*event),
{
    match event {
        LoopEvent::AboutToWait => Action::RequestRedraw,
        LoopEvent::RedrawRequested { exiting } => if *exiting {
            Action::Ignore
        } else {
            Action::Render
        },
        LoopEvent::CloseRequested => Action::DestroyAndExit,
        LoopEvent::Other => Action::Ignore,
    }
}

} // verus!
