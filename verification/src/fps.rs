use vstd::prelude::*;

verus! {

/// Loop-tick throughput accounting: `second` is the last whole second
/// (since loop start) that has been opened, `frames` the ticks counted
/// inside it so far.
#[derive(Clone, Copy, Debug, PartialEq, Eq, Structural)]
pub struct FpsCounter {
    pub second: u64,
    pub frames: u64,
}

/// One accounting step at `now` whole elapsed seconds: entering a later
/// second emits the finished second's count and restarts at zero, so the
/// tick sitting exactly on the boundary is attributed to the new second;
/// any other tick is counted toward the open second.
pub open spec fn record_step(c: FpsCounter, now: u64) -> (FpsCounter, Option<u64>) {
    if c.second < now {
        (FpsCounter { second: now, frames: 0 }, Some(c.frames))
    } else {
        (FpsCounter { second: c.second, frames: (c.frames + 1) as u64 }, None)
    }
}

impl FpsCounter {
    /// A fresh counter, at second zero with nothing counted.
    pub fn new() -> (c: FpsCounter)
        ensures
            c == (FpsCounter { second: 0, frames: 0 }),
    {
        FpsCounter { second: 0, frames: 0 }
    }

    /// Runs one accounting step; returns the count to report, if a new
    /// second was entered.
    pub fn record(&mut self, now: u64) -> (report: Option<u64>)
        requires
            old(self).frames < u64::MAX,
        ensures
            (*final(self), report) == record_step(*old(self), now),
    {
        if self.second < now {
            let report = self.frames;
            self.second = now;
            self.frames = 0;
            Some(report)
        } else {
            self.frames = self.frames + 1;
            None
        }
    }
}

/// Folds the accounting over a whole sequence of tick times, yielding the
/// final counter and every report emitted, in order.
pub open spec fn run_counter(c: FpsCounter, times: Seq<u64>) -> (FpsCounter, Seq<u64>)
    decreases times.len(),
{
    if times.len() == 0 {
        (c, Seq::<u64>::empty())
    } else {
        let stepped = record_step(c, times[0]);
        let rest = run_counter(stepped.0, times.skip(1));
        match stepped.1 {
            Some(v) => (rest.0, seq![v] + rest.1),
            None => rest,
        }
    }
}

/// `n` ticks all falling inside the same whole second `t`.
pub open spec fn const_times(n: nat, t: u64) -> Seq<u64> {
    Seq::new(n, |i: int| t)
}

/// Ticks that never enter a later second emit no report and are all
/// counted toward the open second.
pub proof fn lemma_run_counter_steady(c: FpsCounter, n: nat, t: u64)
    requires
        t <= c.second,
        c.frames + n <= u64::MAX,
    ensures
        run_counter(c, const_times(n, t)) == ((
            FpsCounter { second: c.second, frames: (c.frames + n) as u64 },
            Seq::<u64>::empty(),
        )),
    decreases n,
{
    if n == 0 {
        assert(const_times(0, t).len() == 0);
        assert(run_counter(c, const_times(n, t)) == (c, Seq::<u64>::empty()));
    } else {
        let c1 = FpsCounter { second: c.second, frames: (c.frames + 1) as u64 };
        assert(const_times(n, t)[0] == t);
        assert(record_step(c, t) == ((c1, Option::<u64>::None)));
        assert(const_times(n, t).skip(1) =~= const_times((n - 1) as nat, t));
        lemma_run_counter_steady(c1, (n - 1) as nat, t);
    }
}

/// A tick that enters a later second emits exactly one report, carrying
/// the finished second's count, and restarts the count at zero.
pub proof fn lemma_run_counter_boundary(c: FpsCounter, t: u64)
    requires
        c.second < t,
    ensures
        run_counter(c, seq![t]) == ((FpsCounter { second: t, frames: 0 }, seq![c.frames])),
{
    let stepped = record_step(c, t);
    assert(seq![t].len() == 1);
    assert(seq![t][0] == t);
    assert(seq![t].skip(1) =~= Seq::<u64>::empty());
    assert(run_counter(stepped.0, Seq::<u64>::empty()) == ((stepped.0, Seq::<u64>::empty())));
    assert(seq![c.frames] + Seq::<u64>::empty() =~= seq![c.frames]);
    assert(run_counter(c, seq![t]).1 == seq![c.frames] + Seq::<u64>::empty());
}

/// Frame accounting over three simulated seconds: with `n1`, `n2` and
/// `n3` ticks counted inside seconds 0, 1 and 2, and the tick that opens
/// each following second attributed to that new second, exactly three
/// reports come out, carrying n1, n2 and n3 in order.
pub proof fn lemma_three_second_run(n1: u64, n2: u64, n3: u64)
    ensures
        run_counter(
            FpsCounter { second: 0, frames: 0 },
            const_times(n1 as nat, 0) + seq![1u64] + const_times(n2 as nat, 1) + seq![2u64]
                + const_times(n3 as nat, 2) + seq![3u64],
        ).1 == seq![n1, n2, n3],
{
    let c0 = FpsCounter { second: 0, frames: 0 };
    let a = const_times(n1 as nat, 0);
    let b = seq![1u64];
    let c = const_times(n2 as nat, 1);
    let d = seq![2u64];
    let e = const_times(n3 as nat, 2);
    let f = seq![3u64];

    lemma_run_counter_steady(c0, n1 as nat, 0);
    let s1 = run_counter(c0, a).0;
    assert(s1 == (FpsCounter { second: 0, frames: n1 }));
    lemma_run_counter_concat(c0, a, b);
    lemma_run_counter_boundary(s1, 1);
    let s2 = run_counter(c0, a + b).0;
    assert(s2 == (FpsCounter { second: 1, frames: 0 }));
    assert(run_counter(c0, a + b).1 =~= seq![n1]);

    lemma_run_counter_concat(c0, a + b, c);
    lemma_run_counter_steady(s2, n2 as nat, 1);
    let s3 = run_counter(c0, a + b + c).0;
    assert(s3 == (FpsCounter { second: 1, frames: n2 }));
    assert(run_counter(c0, a + b + c).1 =~= seq![n1]);

    lemma_run_counter_concat(c0, a + b + c, d);
    lemma_run_counter_boundary(s3, 2);
    let s4 = run_counter(c0, a + b + c + d).0;
    assert(s4 == (FpsCounter { second: 2, frames: 0 }));
    assert(run_counter(c0, a + b + c + d).1 =~= seq![n1, n2]);

    lemma_run_counter_concat(c0, a + b + c + d, e);
    lemma_run_counter_steady(s4, n3 as nat, 2);
    let s5 = run_counter(c0, a + b + c + d + e).0;
    assert(s5 == (FpsCounter { second: 2, frames: n3 }));
    assert(run_counter(c0, a + b + c + d + e).1 =~= seq![n1, n2]);

    lemma_run_counter_concat(c0, a + b + c + d + e, f);
    lemma_run_counter_boundary(s5, 3);
    assert(run_counter(c0, a + b + c + d + e + f).1 =~= seq![n1, n2, n3]);
}

/// Splitting a run of ticks in two: the second part starts from the
/// counter the first part left, and the reports concatenate in order.
pub proof fn lemma_run_counter_concat(c: FpsCounter, a: Seq<u64>, b: Seq<u64>)
    ensures
        run_counter(c, a + b).0 == run_counter(run_counter(c, a).0, b).0,
        run_counter(c, a + b).1 == run_counter(c, a).1 + run_counter(run_counter(c, a).0, b).1,
    decreases a.len(),
{
    if a.len() == 0 {
        assert(a + b =~= b);
        assert(run_counter(c, a) == (c, Seq::<u64>::empty()));
        assert(Seq::<u64>::empty() + run_counter(c, b).1 =~= run_counter(c, b).1);
    } else {
        let stepped = record_step(c, a[0]);
        assert((a + b)[0] == a[0]);
        assert((a + b).skip(1) =~= a.skip(1) + b);
        lemma_run_counter_concat(stepped.0, a.skip(1), b);
        match stepped.1 {
            Some(v) => {
                assert(seq![v] + (run_counter(stepped.0, a.skip(1)).1 + run_counter(
                    run_counter(stepped.0, a.skip(1)).0,
                    b,
                ).1) =~= (seq![v] + run_counter(stepped.0, a.skip(1)).1) + run_counter(
                    run_counter(stepped.0, a.skip(1)).0,
                    b,
                ).1);
            },
            None => {},
        }
    }
}

} // verus!
