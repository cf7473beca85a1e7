use vstd::prelude::*;
use crate::events::{exits, resize_target, RenderError, WindowEvent};
use crate::fps::{record_step, FpsCounter};
use crate::size::PhysicalSize;

verus! {

/// The two control-flow states of the frame loop: it keeps iterating
/// while `Running` and stops at the first transition to `Exiting`.
#[derive(Clone, Copy, Debug, PartialEq, Eq, Structural)]
pub enum ControlState {
    Running,
    Exiting,
}

/// What the loop must do after `update` and `render` on an idle tick.
#[derive(Clone, Copy, Debug, PartialEq, Eq, Structural)]
pub enum FrameAction {
    /// Render succeeded: invoke the `during` callback, if one is present.
    During,
    /// The surface was lost: recreate it by resizing the renderer to the
    /// given (current) size.
    Recreate(PhysicalSize),
    /// A transient render error: report its diagnostic and carry on.
    Report,
    /// Nothing further this tick.
    Proceed,
}

/// The window-event step. With `handled` the renderer's verdict on the
/// event: a consumed event does nothing; otherwise a close request or an
/// Escape press exits, and a resize or scale change yields the size the
/// renderer must be resized to.
pub open spec fn window_step(s: ControlState, e: WindowEvent, handled: bool) -> (
    ControlState,
    Option<PhysicalSize>,
) {
    if handled {
        (s, None)
    } else if exits(e) {
        (ControlState::Exiting, None)
    } else {
        (s, resize_target(e))
    }
}

/// The idle-tick step, from the outcome `render` reported: success
/// invokes `during`; a lost surface is recreated at the current size; out
/// of memory exits; any other error is only reported.
pub open spec fn frame_step(
    s: ControlState,
    outcome: Result<(), RenderError>,
    current: PhysicalSize,
) -> (ControlState, FrameAction) {
    match outcome {
        Ok(()) => (s, FrameAction::During),
        Err(RenderError::SurfaceLost) => (s, FrameAction::Recreate(current)),
        Err(RenderError::OutOfMemory) => (ControlState::Exiting, FrameAction::Proceed),
        Err(RenderError::Other(_)) => (s, FrameAction::Report),
    }
}

/// The frame-loop controller: the control-flow state together with the
/// frame accounting. The platform shell owns the window, the renderer and
/// the clock, and feeds this controller one tick at a time.
#[derive(Clone, Copy, Debug, PartialEq, Eq, Structural)]
pub struct Controller {
    pub state: ControlState,
    pub fps: FpsCounter,
}

impl Controller {
    /// The state a controller starts a run in.
    pub open spec fn initial() -> Controller {
        Controller { state: ControlState::Running, fps: FpsCounter { second: 0, frames: 0 } }
    }

    /// A fresh controller, running, with nothing counted yet.
    pub fn new() -> (c: Controller)
        ensures
            c == Controller::initial(),
    {
        Controller { state: ControlState::Running, fps: FpsCounter::new() }
    }

    /// Whether the loop should keep iterating.
    pub fn running(&self) -> (r: bool)
        ensures
            r == (self.state is Running),
    {
        match self.state {
            ControlState::Running => true,
            ControlState::Exiting => false,
        }
    }

    /// Classifies one window event after the renderer's `input` saw it;
    /// returns the size the shell must pass to the renderer's `resize`,
    /// if the event calls for one.
    pub fn on_window_event(&mut self, event: WindowEvent, handled: bool) -> (resize: Option<
        PhysicalSize,
    >)
        ensures
            final(self).fps == old(self).fps,
            (final(self).state, resize) == window_step(old(self).state, event, handled),
    {
        if handled {
            None
        } else {
            match event {
                WindowEvent::CloseRequested => {
                    self.state = ControlState::Exiting;
                    None
                },
                WindowEvent::Keyboard { pressed, escape } => {
                    if pressed && escape {
                        self.state = ControlState::Exiting;
                    }
                    None
                },
                WindowEvent::Resized(s) => Some(s),
                WindowEvent::ScaleFactorChanged(s) => Some(s),
                WindowEvent::Other => None,
            }
        }
    }

    /// Digests the outcome of this tick's `render`, given the renderer's
    /// current size; returns what the shell must do next. When the action
    /// is `Report`, the shell logs the error it is holding.
    pub fn on_frame(&mut self, outcome: &Result<(), RenderError>, current: PhysicalSize) -> (action:
        FrameAction)
        ensures
            final(self).fps == old(self).fps,
            (final(self).state, action) == frame_step(old(self).state, *outcome, current),
    {
        match outcome {
            Ok(_) => FrameAction::During,
            Err(RenderError::SurfaceLost) => FrameAction::Recreate(current),
            Err(RenderError::OutOfMemory) => {
                self.state = ControlState::Exiting;
                FrameAction::Proceed
            },
            Err(RenderError::Other(_)) => FrameAction::Report,
        }
    }

    /// Frame accounting, run once at the end of every tick whatever the
    /// tick carried; returns the count to report if a new second opened.
    pub fn end_tick(&mut self, now: u64) -> (report: Option<u64>)
        requires
            old(self).fps.frames < u64::MAX,
        ensures
            final(self).state == old(self).state,
            (final(self).fps, report) == record_step(old(self).fps, now),
    {
        self.fps.record(now)
    }
}

/// An event the renderer consumed gets no window-level classification:
/// the state is unchanged and no resize is requested, whatever the event
/// and whatever the prior state.
pub proof fn lemma_consumed_event_is_inert(s: ControlState, e: WindowEvent)
    ensures
        window_step(s, e, true) == ((s, Option::<PhysicalSize>::None)),
{
}

/// An unconsumed Escape press always moves the loop to `Exiting`,
/// whatever state it was in; an Escape release never does anything.
pub proof fn lemma_escape_pressed_exits(s: ControlState)
    ensures
        window_step(s, WindowEvent::Keyboard { pressed: true, escape: true }, false).0
            is Exiting,
        window_step(s, WindowEvent::Keyboard { pressed: false, escape: true }, false) == ((
            s,
            Option::<PhysicalSize>::None,
        )),
{
}

/// A close request always moves the loop to `Exiting`; a resize never
/// changes the state and requests exactly one resize, to the event's own
/// size.
pub proof fn lemma_close_exits_resize_does_not(s: ControlState, sz: PhysicalSize)
    ensures
        window_step(s, WindowEvent::CloseRequested, false).0 is Exiting,
        window_step(s, WindowEvent::Resized(sz), false) == ((s, Some(sz))),
{
}

/// A lost surface is healed in place: exactly one resize to the current
/// size, and the loop stays in the state it was in.
pub proof fn lemma_surface_lost_recovers(s: ControlState, current: PhysicalSize)
    ensures
        frame_step(s, Err(RenderError::SurfaceLost), current) == ((
            s,
            FrameAction::Recreate(current),
        )),
{
}

/// Out of memory is fatal: the loop moves to `Exiting`, and `during` is
/// not invoked for that frame.
pub proof fn lemma_out_of_memory_exits(s: ControlState, current: PhysicalSize)
    ensures
        frame_step(s, Err(RenderError::OutOfMemory), current) == ((
            ControlState::Exiting,
            FrameAction::Proceed,
        )),
{
}

} // verus!
