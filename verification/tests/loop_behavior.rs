use frame_loop::{
    simulate, Callbacks, ControlState, Controller, FrameAction, PhysicalSize, RenderError, Tick,
    TickInput, TraceEvent, WindowEvent,
};

fn size(w: u32, h: u32) -> PhysicalSize {
    PhysicalSize::new(w, h)
}

fn window_tick(event: WindowEvent, handled: bool, now: u64) -> Tick {
    Tick { input: TickInput::Window { event, handled }, now }
}

fn frame_tick(render: Result<(), RenderError>, now: u64) -> Tick {
    Tick { input: TickInput::EventsCleared { render }, now }
}

fn all_callbacks() -> Callbacks {
    Callbacks { before: true, during: true, after: true }
}

#[test]
fn consumed_event_is_not_classified() {
    let mut c = Controller::new();
    let r = c.on_window_event(WindowEvent::CloseRequested, true);
    assert_eq!(r, None);
    assert_eq!(c.state, ControlState::Running);
    let r = c.on_window_event(WindowEvent::Keyboard { pressed: true, escape: true }, true);
    assert_eq!(r, None);
    assert_eq!(c.state, ControlState::Running);
    let r = c.on_window_event(WindowEvent::Resized(size(10, 20)), true);
    assert_eq!(r, None);
    assert_eq!(c.state, ControlState::Running);
}

#[test]
fn escape_press_exits_and_release_does_not() {
    let mut c = Controller::new();
    let r = c.on_window_event(WindowEvent::Keyboard { pressed: false, escape: true }, false);
    assert_eq!(r, None);
    assert_eq!(c.state, ControlState::Running);
    let r = c.on_window_event(WindowEvent::Keyboard { pressed: true, escape: false }, false);
    assert_eq!(r, None);
    assert_eq!(c.state, ControlState::Running);
    let r = c.on_window_event(WindowEvent::Keyboard { pressed: true, escape: true }, false);
    assert_eq!(r, None);
    assert_eq!(c.state, ControlState::Exiting);
}

#[test]
fn close_request_exits() {
    let mut c = Controller::new();
    let r = c.on_window_event(WindowEvent::CloseRequested, false);
    assert_eq!(r, None);
    assert_eq!(c.state, ControlState::Exiting);
}

#[test]
fn resize_resizes_and_never_exits() {
    let mut c = Controller::new();
    let r = c.on_window_event(WindowEvent::Resized(size(800, 600)), false);
    assert_eq!(r, Some(size(800, 600)));
    assert_eq!(c.state, ControlState::Running);
    let r = c.on_window_event(WindowEvent::ScaleFactorChanged(size(1600, 1200)), false);
    assert_eq!(r, Some(size(1600, 1200)));
    assert_eq!(c.state, ControlState::Running);
}

#[test]
fn other_window_event_is_ignored() {
    let mut c = Controller::new();
    let r = c.on_window_event(WindowEvent::Other, false);
    assert_eq!(r, None);
    assert_eq!(c.state, ControlState::Running);
}

#[test]
fn successful_render_invokes_during() {
    let mut c = Controller::new();
    let a = c.on_frame(&Ok(()), size(100, 100));
    assert_eq!(a, FrameAction::During);
    assert_eq!(c.state, ControlState::Running);
}

#[test]
fn surface_lost_recreates_at_current_size() {
    let mut c = Controller::new();
    let a = c.on_frame(&Err(RenderError::SurfaceLost), size(640, 480));
    assert_eq!(a, FrameAction::Recreate(size(640, 480)));
    assert_eq!(c.state, ControlState::Running);
}

#[test]
fn out_of_memory_exits_without_during() {
    let mut c = Controller::new();
    let a = c.on_frame(&Err(RenderError::OutOfMemory), size(640, 480));
    assert_eq!(a, FrameAction::Proceed);
    assert_eq!(c.state, ControlState::Exiting);
}

#[test]
fn transient_error_is_only_reported() {
    let mut c = Controller::new();
    let a = c.on_frame(
        &Err(RenderError::Other(String::from("timeout"))),
        size(640, 480),
    );
    assert_eq!(a, FrameAction::Report);
    assert_eq!(c.state, ControlState::Running);
}

#[test]
fn fps_counts_ticks_and_reports_on_second_boundaries() {
    let mut c = Controller::new();
    assert_eq!(c.end_tick(0), None);
    assert_eq!(c.end_tick(0), None);
    assert_eq!(c.fps.frames, 2);
    // The boundary tick reports the finished second and is attributed to
    // the new one.
    assert_eq!(c.end_tick(1), Some(2));
    assert_eq!(c.fps.second, 1);
    assert_eq!(c.fps.frames, 0);
    assert_eq!(c.end_tick(1), None);
    assert_eq!(c.end_tick(2), Some(1));
}

#[test]
fn three_second_run_reports_each_seconds_count() {
    // Seconds 0, 1 and 2 carry 2, 3 and 1 counted ticks; a boundary tick
    // opens each following second. Exactly three reports come out.
    let mut ticks: Vec<Tick> = Vec::new();
    for _ in 0..2 {
        ticks.push(Tick { input: TickInput::Other, now: 0 });
    }
    ticks.push(Tick { input: TickInput::Other, now: 1 });
    for _ in 0..3 {
        ticks.push(Tick { input: TickInput::Other, now: 1 });
    }
    ticks.push(Tick { input: TickInput::Other, now: 2 });
    ticks.push(Tick { input: TickInput::Other, now: 2 });
    ticks.push(Tick { input: TickInput::Other, now: 3 });

    let cb = Callbacks { before: false, during: false, after: false };
    let trace = simulate(cb, size(100, 100), &ticks);
    let reports: Vec<u64> = trace
        .iter()
        .filter_map(|e| match e {
            TraceEvent::ReportFps(v) => Some(*v),
            _ => None,
        })
        .collect();
    assert_eq!(reports, vec![2, 3, 1]);
}

#[test]
fn before_runs_once_first_and_after_once_last() {
    let ticks = vec![
        frame_tick(Ok(()), 0),
        window_tick(WindowEvent::CloseRequested, false, 0),
    ];
    let trace = simulate(all_callbacks(), size(32, 32), &ticks);
    assert_eq!(trace[0], TraceEvent::CallBefore);
    assert_eq!(*trace.last().unwrap(), TraceEvent::CallAfter);
    let befores = trace.iter().filter(|e| **e == TraceEvent::CallBefore).count();
    let afters = trace.iter().filter(|e| **e == TraceEvent::CallAfter).count();
    assert_eq!(befores, 1);
    assert_eq!(afters, 1);
}

#[test]
fn absent_callbacks_are_never_invoked() {
    let cb = Callbacks { before: false, during: false, after: false };
    let ticks = vec![
        frame_tick(Ok(()), 0),
        window_tick(WindowEvent::CloseRequested, false, 0),
    ];
    let trace = simulate(cb, size(32, 32), &ticks);
    assert!(!trace.contains(&TraceEvent::CallBefore));
    assert!(!trace.contains(&TraceEvent::CallDuring));
    assert!(!trace.contains(&TraceEvent::CallAfter));
}

#[test]
fn exit_event_stops_the_loop() {
    // The second tick carries a close request: the render tick after it
    // must never run, and `after` closes the trace.
    let ticks = vec![
        frame_tick(Ok(()), 0),
        window_tick(WindowEvent::CloseRequested, false, 0),
        frame_tick(Ok(()), 0),
        frame_tick(Ok(()), 0),
    ];
    let trace = simulate(all_callbacks(), size(32, 32), &ticks);
    let updates = trace.iter().filter(|e| **e == TraceEvent::CallUpdate).count();
    assert_eq!(updates, 1);
    assert_eq!(*trace.last().unwrap(), TraceEvent::CallAfter);
}

#[test]
fn consumed_escape_does_not_stop_the_loop() {
    let ticks = vec![
        window_tick(WindowEvent::Keyboard { pressed: true, escape: true }, true, 0),
        frame_tick(Ok(()), 0),
    ];
    let cb = Callbacks { before: false, during: true, after: false };
    let trace = simulate(cb, size(32, 32), &ticks);
    assert_eq!(
        trace,
        vec![
            TraceEvent::CallInput,
            TraceEvent::CallUpdate,
            TraceEvent::CallRender,
            TraceEvent::CallDuring,
        ]
    );
}

#[test]
fn surface_lost_tick_resizes_once_and_continues() {
    let ticks = vec![
        frame_tick(Err(RenderError::SurfaceLost), 0),
        frame_tick(Ok(()), 0),
    ];
    let cb = Callbacks { before: false, during: true, after: false };
    let trace = simulate(cb, size(300, 200), &ticks);
    assert_eq!(
        trace,
        vec![
            TraceEvent::CallUpdate,
            TraceEvent::CallRender,
            TraceEvent::CallResize(size(300, 200)),
            TraceEvent::CallUpdate,
            TraceEvent::CallRender,
            TraceEvent::CallDuring,
        ]
    );
}

#[test]
fn recreate_uses_the_latest_size() {
    // A resize event updates the size the self-healing recreate uses.
    let ticks = vec![
        window_tick(WindowEvent::Resized(size(1024, 768)), false, 0),
        frame_tick(Err(RenderError::SurfaceLost), 0),
    ];
    let cb = Callbacks { before: false, during: false, after: false };
    let trace = simulate(cb, size(300, 200), &ticks);
    assert_eq!(
        trace,
        vec![
            TraceEvent::CallInput,
            TraceEvent::CallResize(size(1024, 768)),
            TraceEvent::CallUpdate,
            TraceEvent::CallRender,
            TraceEvent::CallResize(size(1024, 768)),
        ]
    );
}

#[test]
fn out_of_memory_tick_exits_without_during() {
    let ticks = vec![
        frame_tick(Err(RenderError::OutOfMemory), 0),
        frame_tick(Ok(()), 0),
    ];
    let trace = simulate(all_callbacks(), size(32, 32), &ticks);
    assert_eq!(
        trace,
        vec![
            TraceEvent::CallBefore,
            TraceEvent::CallUpdate,
            TraceEvent::CallRender,
            TraceEvent::CallAfter,
        ]
    );
}

#[test]
fn transient_error_tick_reports_and_continues() {
    let ticks = vec![
        frame_tick(Err(RenderError::Other(String::from("outdated"))), 0),
        frame_tick(Ok(()), 0),
    ];
    let cb = Callbacks { before: false, during: true, after: false };
    let trace = simulate(cb, size(32, 32), &ticks);
    assert_eq!(
        trace,
        vec![
            TraceEvent::CallUpdate,
            TraceEvent::CallRender,
            TraceEvent::ReportError,
            TraceEvent::CallUpdate,
            TraceEvent::CallRender,
            TraceEvent::CallDuring,
        ]
    );
}

#[test]
fn accounting_runs_on_every_tick_kind() {
    // A window tick, an idle tick and an ignored tick all count toward
    // the open second.
    let ticks = vec![
        window_tick(WindowEvent::Other, false, 0),
        frame_tick(Ok(()), 0),
        Tick { input: TickInput::Other, now: 0 },
        Tick { input: TickInput::Other, now: 1 },
    ];
    let cb = Callbacks { before: false, during: false, after: false };
    let trace = simulate(cb, size(32, 32), &ticks);
    let reports: Vec<u64> = trace
        .iter()
        .filter_map(|e| match e {
            TraceEvent::ReportFps(v) => Some(*v),
            _ => None,
        })
        .collect();
    assert_eq!(reports, vec![3]);
}
