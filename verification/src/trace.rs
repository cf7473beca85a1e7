use vstd::prelude::*;
use crate::controller::{frame_step, window_step, Controller, FrameAction};
use crate::events::{Tick, TickInput, WindowEvent};
use crate::fps::record_step;
use crate::size::PhysicalSize;

verus! {

/// Which lifecycle callbacks the window configuration carries; absence
/// of any of them is a valid configuration, not an error.
#[derive(Clone, Copy, Debug, PartialEq, Eq, Structural)]
pub struct Callbacks {
    pub before: bool,
    pub during: bool,
    pub after: bool,
}

/// One observable call a run of the loop makes.
#[derive(Clone, Copy, Debug, PartialEq, Eq, Structural)]
pub enum TraceEvent {
    /// The `before` callback, ahead of the first tick.
    CallBefore,
    /// The renderer's `input`, on every window event, before any
    /// classification.
    CallInput,
    /// The renderer's `update`, on every idle tick.
    CallUpdate,
    /// The renderer's `render`, right after `update`.
    CallRender,
    /// The renderer's `resize`, with the size passed to it.
    CallResize(PhysicalSize),
    /// The `during` callback, after a successful render.
    CallDuring,
    /// A transient render error reported on the console.
    ReportError,
    /// A frames-per-second report for a finished second.
    ReportFps(u64),
    /// The `after` callback, once the loop has stopped.
    CallAfter,
}

/// A simulation state: the controller together with the renderer's
/// current size, which resize calls keep up to date.
#[derive(Clone, Copy, Debug, PartialEq, Eq, Structural)]
pub struct SimState {
    pub ctrl: Controller,
    pub size: PhysicalSize,
}

/// The calls a frame action gives rise to.
pub open spec fn action_trace(cb: Callbacks, a: FrameAction) -> Seq<TraceEvent> {
    match a {
        FrameAction::During => if cb.during {
            seq![TraceEvent::CallDuring]
        } else {
            Seq::<TraceEvent>::empty()
        },
        FrameAction::Recreate(sz) => seq![TraceEvent::CallResize(sz)],
        FrameAction::Report => seq![TraceEvent::ReportError],
        FrameAction::Proceed => Seq::<TraceEvent>::empty(),
    }
}

/// What one stimulus does, before frame accounting: the state after it
/// and the calls it makes, in order.
pub open spec fn dispatch(cb: Callbacks, s: SimState, input: TickInput) -> (
    SimState,
    Seq<TraceEvent>,
) {
    match input {
        TickInput::Window { event, handled } => {
            let stepped = window_step(s.ctrl.state, event, handled);
            let ctrl = Controller { state: stepped.0, fps: s.ctrl.fps };
            match stepped.1 {
                Some(sz) => (
                    SimState { ctrl, size: sz },
                    seq![TraceEvent::CallInput, TraceEvent::CallResize(sz)],
                ),
                None => (SimState { ctrl, size: s.size }, seq![TraceEvent::CallInput]),
            }
        },
        TickInput::EventsCleared { render } => {
            let stepped = frame_step(s.ctrl.state, render, s.size);
            let ctrl = Controller { state: stepped.0, fps: s.ctrl.fps };
            (
                SimState { ctrl, size: s.size },
                seq![TraceEvent::CallUpdate, TraceEvent::CallRender] + action_trace(
                    cb,
                    stepped.1,
                ),
            )
        },
        TickInput::Other => (s, Seq::<TraceEvent>::empty()),
    }
}

/// One whole tick: the stimulus, then frame accounting at `t.now`.
pub open spec fn tick_step(cb: Callbacks, s: SimState, t: Tick) -> (SimState, Seq<TraceEvent>) {
    let dispatched = dispatch(cb, s, t.input);
    let counted = record_step(dispatched.0.ctrl.fps, t.now);
    let ctrl = Controller { state: dispatched.0.ctrl.state, fps: counted.0 };
    let evs = match counted.1 {
        Some(v) => dispatched.1 + seq![TraceEvent::ReportFps(v)],
        None => dispatched.1,
    };
    (SimState { ctrl, size: dispatched.0.size }, evs)
}

/// The loop proper: it consumes ticks while the controller is running
/// and stops right after the tick that leaves `Exiting` behind.
pub open spec fn loop_trace(cb: Callbacks, s: SimState, ticks: Seq<Tick>) -> Seq<TraceEvent>
    decreases ticks.len(),
{
    if ticks.len() == 0 || !(s.ctrl.state is Running) {
        Seq::<TraceEvent>::empty()
    } else {
        let stepped = tick_step(cb, s, ticks[0]);
        stepped.1 + loop_trace(cb, stepped.0, ticks.skip(1))
    }
}

/// A whole run: `before` if configured, then the loop over the ticks the
/// platform delivers, then `after` if configured once the loop stops.
pub open spec fn run_trace(cb: Callbacks, start_size: PhysicalSize, ticks: Seq<Tick>) -> Seq<
    TraceEvent,
> {
    let head = if cb.before {
        seq![TraceEvent::CallBefore]
    } else {
        Seq::<TraceEvent>::empty()
    };
    let tail = if cb.after {
        seq![TraceEvent::CallAfter]
    } else {
        Seq::<TraceEvent>::empty()
    };
    head + loop_trace(cb, SimState { ctrl: Controller::initial(), size: start_size }, ticks) + tail
}

/// Replays a whole run of the frame loop against a pre-recorded stream
/// of platform ticks and an injected clock, and returns every observable
/// call the loop makes, in order. This is the loop of the live shell,
/// with the window, renderer and clock replaced by the recording.
pub fn simulate(cb: Callbacks, start_size: PhysicalSize, ticks: &Vec<Tick>) -> (trace: Vec<
    TraceEvent,
>)
    ensures
        trace@ == run_trace(cb, start_size, ticks@),
{
    let ghost head: Seq<TraceEvent> = if cb.before {
        seq![TraceEvent::CallBefore]
    } else {
        Seq::<TraceEvent>::empty()
    };
    let ghost start = SimState { ctrl: Controller::initial(), size: start_size };

    let mut trace: Vec<TraceEvent> = Vec::new();
    if cb.before {
        trace.push(TraceEvent::CallBefore);
    }
    let mut ctrl = Controller::new();
    let mut size = start_size;
    let mut running: bool = true;
    let mut i: usize = 0;

    assert(trace@ =~= head);
    assert(ticks@.skip(0) =~= ticks@);

    while running && i < ticks.len()
        invariant
            i <= ticks.len(),
            running == (ctrl.state is Running),
            ctrl.fps.frames as int <= i as int,
            head + loop_trace(cb, start, ticks@) =~= trace@ + loop_trace(
                cb,
                SimState { ctrl, size },
                ticks@.skip(i as int),
            ),
        decreases ticks.len() - i,
    {
        let ghost pre = SimState { ctrl, size };
        let ghost pre_trace = trace@;
        let ghost rest = ticks@.skip(i as int);
        let t: &Tick = &ticks[i];
        assert(rest[0] == ticks@[i as int]);
        assert(rest.skip(1) =~= ticks@.skip(i as int + 1));

        match &t.input {
            TickInput::Window { event, handled } => {
                trace.push(TraceEvent::CallInput);
                match ctrl.on_window_event(*event, *handled) {
                    Some(sz) => {
                        trace.push(TraceEvent::CallResize(sz));
                        size = sz;
                    },
                    None => {},
                }
            },
            TickInput::EventsCleared { render } => {
                trace.push(TraceEvent::CallUpdate);
                trace.push(TraceEvent::CallRender);
                match ctrl.on_frame(render, size) {
                    FrameAction::During => {
                        if cb.during {
                            trace.push(TraceEvent::CallDuring);
                        }
                    },
                    FrameAction::Recreate(sz) => {
                        trace.push(TraceEvent::CallResize(sz));
                        size = sz;
                    },
                    FrameAction::Report => {
                        trace.push(TraceEvent::ReportError);
                    },
                    FrameAction::Proceed => {},
                }
            },
            TickInput::Other => {},
        }
        assert(SimState { ctrl, size } == dispatch(cb, pre, ticks@[i as int].input).0);
        assert(trace@ =~= pre_trace + dispatch(cb, pre, ticks@[i as int].input).1);

        match ctrl.end_tick(t.now) {
            Some(v) => {
                trace.push(TraceEvent::ReportFps(v));
            },
            None => {},
        }
        assert(SimState { ctrl, size } == tick_step(cb, pre, ticks@[i as int]).0);
        assert(trace@ =~= pre_trace + tick_step(cb, pre, ticks@[i as int]).1);

        running = ctrl.running();
        i = i + 1;

        proof {
            assert(loop_trace(cb, pre, rest) =~= tick_step(cb, pre, rest[0]).1 + loop_trace(
                cb,
                tick_step(cb, pre, rest[0]).0,
                rest.skip(1),
            ));
            assert(head + loop_trace(cb, start, ticks@) =~= trace@ + loop_trace(
                cb,
                SimState { ctrl, size },
                ticks@.skip(i as int),
            ));
        }
    }

    proof {
        if i == ticks.len() {
            assert(ticks@.skip(i as int) =~= Seq::<Tick>::empty());
        }
        assert(loop_trace(cb, SimState { ctrl, size }, ticks@.skip(i as int))
            =~= Seq::<TraceEvent>::empty());
        assert(trace@ =~= head + loop_trace(cb, start, ticks@));
    }
    if cb.after {
        trace.push(TraceEvent::CallAfter);
    }
    assert(trace@ =~= run_trace(cb, start_size, ticks@));
    trace
}

/// True of the two events that only a run's opening and closing may
/// carry: the `before` and `after` calls.
pub open spec fn is_lifecycle(e: TraceEvent) -> bool {
    e == TraceEvent::CallBefore || e == TraceEvent::CallAfter
}

/// No single tick ever calls `before` or `after`.
pub proof fn lemma_tick_step_no_lifecycle(cb: Callbacks, s: SimState, t: Tick)
    ensures
        forall|i: int|
            0 <= i < tick_step(cb, s, t).1.len() ==> !is_lifecycle(tick_step(cb, s, t).1[i]),
{
    let d = dispatch(cb, s, t.input);
    assert forall|i: int| 0 <= i < d.1.len() implies !is_lifecycle(d.1[i]) by {
        match t.input {
            TickInput::Window { event, handled } => {
                match window_step(s.ctrl.state, event, handled).1 {
                    Some(sz) => {
                        assert(d.1 =~= seq![TraceEvent::CallInput, TraceEvent::CallResize(sz)]);
                    },
                    None => {
                        assert(d.1 =~= seq![TraceEvent::CallInput]);
                    },
                }
            },
            TickInput::EventsCleared { render } => {
                let act = frame_step(s.ctrl.state, render, s.size).1;
                assert(d.1 =~= seq![TraceEvent::CallUpdate, TraceEvent::CallRender] + action_trace(
                    cb,
                    act,
                ));
                if 2 <= i {
                    assert(d.1[i] == action_trace(cb, act)[i - 2]);
                }
            },
            TickInput::Other => {},
        }
    }
    let evs = tick_step(cb, s, t).1;
    assert forall|i: int| 0 <= i < evs.len() implies !is_lifecycle(evs[i]) by {
        match record_step(d.0.ctrl.fps, t.now).1 {
            Some(v) => {
                assert(evs =~= d.1 + seq![TraceEvent::ReportFps(v)]);
                if i < d.1.len() {
                    assert(evs[i] == d.1[i]);
                }
            },
            None => {
                assert(evs =~= d.1);
            },
        }
    }
}

/// The loop between `before` and `after` never calls either of them.
pub proof fn lemma_loop_trace_no_lifecycle(cb: Callbacks, s: SimState, ticks: Seq<Tick>)
    ensures
        forall|i: int|
            0 <= i < loop_trace(cb, s, ticks).len() ==> !is_lifecycle(loop_trace(cb, s, ticks)[i]),
    decreases ticks.len(),
{
    if ticks.len() == 0 || !(s.ctrl.state is Running) {
    } else {
        let stepped = tick_step(cb, s, ticks[0]);
        lemma_tick_step_no_lifecycle(cb, s, ticks[0]);
        lemma_loop_trace_no_lifecycle(cb, stepped.0, ticks.skip(1));
        let l = loop_trace(cb, s, ticks);
        assert forall|i: int| 0 <= i < l.len() implies !is_lifecycle(l[i]) by {
            if i < stepped.1.len() {
                assert(l[i] == stepped.1[i]);
            } else {
                assert(l[i] == loop_trace(cb, stepped.0, ticks.skip(1))[i - stepped.1.len()]);
            }
        }
    }
}

/// The lifecycle law. Over any run: when `before` is configured it is
/// called exactly once and strictly before any tick work, and never
/// otherwise; when `after` is configured it is called exactly once,
/// strictly after everything else, and never otherwise.
pub proof fn lemma_lifecycle(cb: Callbacks, start_size: PhysicalSize, ticks: Seq<Tick>)
    ensures
        cb.before ==> run_trace(cb, start_size, ticks).len() >= 1 && run_trace(
            cb,
            start_size,
            ticks,
        )[0] == TraceEvent::CallBefore,
        forall|i: int|
            0 <= i < run_trace(cb, start_size, ticks).len() && run_trace(cb, start_size, ticks)[i]
                == TraceEvent::CallBefore ==> cb.before && i == 0,
        cb.after ==> run_trace(cb, start_size, ticks).len() >= 1 && run_trace(
            cb,
            start_size,
            ticks,
        )[run_trace(cb, start_size, ticks).len() - 1] == TraceEvent::CallAfter,
        forall|i: int|
            0 <= i < run_trace(cb, start_size, ticks).len() && run_trace(cb, start_size, ticks)[i]
                == TraceEvent::CallAfter ==> cb.after && i == run_trace(
                cb,
                start_size,
                ticks,
            ).len() - 1,
{
    let head = if cb.before {
        seq![TraceEvent::CallBefore]
    } else {
        Seq::<TraceEvent>::empty()
    };
    let tail = if cb.after {
        seq![TraceEvent::CallAfter]
    } else {
        Seq::<TraceEvent>::empty()
    };
    let start = SimState { ctrl: Controller::initial(), size: start_size };
    let mid = loop_trace(cb, start, ticks);
    let t = run_trace(cb, start_size, ticks);
    lemma_loop_trace_no_lifecycle(cb, start, ticks);
    assert(t =~= head + mid + tail);
    assert forall|i: int| 0 <= i < t.len() implies (t[i] == TraceEvent::CallBefore ==> cb.before
        && i == 0) && (t[i] == TraceEvent::CallAfter ==> cb.after && i == t.len() - 1) by {
        if i < head.len() {
            assert(t[i] == head[i]);
        } else if i < head.len() + mid.len() {
            assert(t[i] == mid[i - head.len()]);
            assert(!is_lifecycle(t[i]));
        } else {
            assert(t[i] == tail[i - head.len() - mid.len()]);
        }
    }
}

/// A tick that leaves the controller `Exiting` — an unconsumed close
/// request or Escape press, or an out-of-memory render — is the last
/// tick the loop processes: the ticks after it contribute nothing.
pub proof fn lemma_exit_stops_loop(cb: Callbacks, s: SimState, ticks: Seq<Tick>)
    requires
        ticks.len() > 0,
        s.ctrl.state is Running,
        !(tick_step(cb, s, ticks[0]).0.ctrl.state is Running),
    ensures
        loop_trace(cb, s, ticks) == tick_step(cb, s, ticks[0]).1,
{
    let stepped = tick_step(cb, s, ticks[0]);
    assert(loop_trace(cb, stepped.0, ticks.skip(1)) =~= Seq::<TraceEvent>::empty());
    assert(stepped.1 + Seq::<TraceEvent>::empty() =~= stepped.1);
}

/// An unconsumed Escape press ends the run, whatever state preceded it
/// inside the tick: the loop stops with that very tick, and when `after`
/// is configured the trace then closes with exactly one `after` call.
pub proof fn lemma_escape_ends_run(cb: Callbacks, s: SimState, ticks: Seq<Tick>)
    requires
        ticks.len() > 0,
        s.ctrl.state is Running,
        ticks[0].input == (TickInput::Window {
            event: WindowEvent::Keyboard { pressed: true, escape: true },
            handled: false,
        }),
    ensures
        !(tick_step(cb, s, ticks[0]).0.ctrl.state is Running),
        loop_trace(cb, s, ticks) == tick_step(cb, s, ticks[0]).1,
{
    lemma_exit_stops_loop(cb, s, ticks);
}

} // verus!
