//! What the application does about each event that the window system
//! delivers.

use vstd::prelude::*;

verus! {

/// An event of the window system, as far as the application tells events
/// apart.
#[derive(Clone, Copy, Debug, PartialEq, Eq)]
pub enum LoopEvent {
    /// Every pending event has been delivered.
    EventsCleared,
    /// The window has to be drawn again.
    RedrawRequested,
    /// The user asked for the window to be closed.
    CloseRequested,
    /// Any other event.
    Other,
}

/// How the event loop goes on.
#[derive(Clone, Copy, Debug, PartialEq, Eq)]
pub enum ControlFlow {
    /// Look for the next event at once.
    Poll,
    /// Leave the loop.
    Exit,
}

/// What the application does about one event.
#[derive(Clone, Copy, Debug, PartialEq, Eq)]
pub struct Reaction {
    /// Ask the window system to have the window drawn again.
    pub request_redraw: bool,
    /// Draw a frame.
    pub draw_frame: bool,
    /// How the loop goes on; nothing where that stays as it was.
    pub control_flow: Option<ControlFlow>,
}

/// The reaction to each event: a redraw is asked for once the events are
/// cleared, a frame is drawn and the loop left when the window is closed, and
/// after any other event but a redraw request the loop polls.
pub open spec fn reaction_to(event: LoopEvent) -> Reaction {
    match event {
        LoopEvent::EventsCleared => Reaction {
            request_redraw: true,
            draw_frame: false,
            control_flow: None,
        },
        LoopEvent::RedrawRequested => Reaction {
            request_redraw: false,
            draw_frame: false,
            control_flow: None,
        },
        LoopEvent::CloseRequested => Reaction {
            request_redraw: false,
            draw_frame: true,
            control_flow: Some(ControlFlow::Exit),
        },
        LoopEvent::Other => Reaction {
            request_redraw: false,
            draw_frame: false,
            control_flow: Some(ControlFlow::Poll),
        },
    }
}

/// Decides what to do about an event.
pub fn react(event: LoopEvent) -> (r: Reaction)
    ensures
        r == reaction_to(event),
{
    match event {
        LoopEvent::EventsCleared => Reaction {
            request_redraw: true,
            draw_frame: false,
            control_flow: None,
        },
        LoopEvent::RedrawRequested => Reaction {
            request_redraw: false,
            draw_frame: false,
            control_flow: None,
        },
        LoopEvent::CloseRequested => Reaction {
            request_redraw: false,
            draw_frame: true,
            control_flow: Some(ControlFlow::Exit),
        },
        LoopEvent::Other => Reaction {
            request_redraw: false,
            draw_frame: false,
            control_flow: Some(ControlFlow::Poll),
        },
    }
}

} // verus!
