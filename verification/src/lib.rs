//! A verified frame-loop controller for a windowed real-time rendering
//! host.
//!
//! The library models the control core of the host: classifying platform
//! window events, reacting to render outcomes (including swap-chain loss
//! and out-of-memory), accounting loop ticks per second, and sequencing
//! the `before` / `during` / `after` lifecycle callbacks. The platform
//! window, the event loop and the GPU renderer are external
//! collaborators: a thin unverified shell drives them and feeds this
//! controller plain values, doing exactly what the controller tells it.

mod controller;
mod events;
mod fps;
mod size;
mod trace;

pub use controller::{
    frame_step, lemma_close_exits_resize_does_not, lemma_consumed_event_is_inert,
    lemma_escape_pressed_exits, lemma_out_of_memory_exits, lemma_surface_lost_recovers,
    window_step, ControlState, Controller, FrameAction,
};
pub use events::{exits, resize_target, RenderError, Tick, TickInput, WindowEvent};
pub use fps::{
    const_times, lemma_run_counter_boundary, lemma_run_counter_concat, lemma_run_counter_steady,
    lemma_three_second_run, record_step, run_counter, FpsCounter,
};
pub use size::PhysicalSize;
pub use trace::{
    action_trace, dispatch, is_lifecycle, lemma_escape_ends_run, lemma_exit_stops_loop,
    lemma_lifecycle, lemma_loop_trace_no_lifecycle, lemma_tick_step_no_lifecycle, loop_trace,
    run_trace, simulate, tick_step, Callbacks, SimState, TraceEvent,
};
