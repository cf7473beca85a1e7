use vstd::prelude::*;
use crate::size::PhysicalSize;

verus! {

/// A platform window event, reduced to the cases the frame loop reacts to.
/// Any event outside this closed set is `Other` and is ignored.
#[derive(Clone, Copy, Debug, PartialEq, Eq, Structural)]
pub enum WindowEvent {
    /// The user asked to close the window.
    CloseRequested,
    /// A key changed state: `pressed` is true on the pressed edge, false
    /// on release; `escape` says whether the key is Escape.
    Keyboard { pressed: bool, escape: bool },
    /// The window was resized to the given physical size.
    Resized(PhysicalSize),
    /// The scale factor changed; the size is the platform-supplied
    /// post-scale inner size.
    ScaleFactorChanged(PhysicalSize),
    /// Any other window event.
    Other,
}

/// An error reported by the renderer's `render`.
#[derive(Debug)]
pub enum RenderError {
    /// The surface (swap chain) was lost and must be recreated; the loop
    /// heals it in place.
    SurfaceLost,
    /// The system is out of memory; fatal, the loop exits.
    OutOfMemory,
    /// Any other render error, with its diagnostic text; transient, only
    /// reported.
    Other(String),
}

/// True for the events that end the loop when the renderer has not
/// consumed them: a close request, or the pressed edge of Escape.
pub open spec fn exits(e: WindowEvent) -> bool {
    ||| e is CloseRequested
    ||| e == (WindowEvent::Keyboard { pressed: true, escape: true })
}

/// The size the renderer must be resized to for this event, if any: the
/// new size of a resize, or the post-scale size of a scale change.
pub open spec fn resize_target(e: WindowEvent) -> Option<PhysicalSize> {
    match e {
        WindowEvent::Resized(s) => Some(s),
        WindowEvent::ScaleFactorChanged(s) => Some(s),
        _ => None,
    }
}

/// One stimulus from the platform for one loop tick.
#[derive(Debug)]
pub enum TickInput {
    /// A window event aimed at this window, with `handled` the verdict
    /// the renderer's `input` gave on it.
    Window { event: WindowEvent, handled: bool },
    /// The platform drained all queued events for this tick; the loop ran
    /// `update` and `render`, and `render` reported this outcome.
    EventsCleared { render: Result<(), RenderError> },
    /// Any other platform event; only frame accounting runs.
    Other,
}

/// One loop tick: its stimulus and the whole seconds elapsed since loop
/// start when it was processed.
#[derive(Debug)]
pub struct Tick {
    pub input: TickInput,
    pub now: u64,
}

} // verus!
