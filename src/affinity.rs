use vstd::prelude::*;

verus! {

/// How long after launch a file request may still target the startup window, in nanoseconds.
pub const STARTUP_DURATION_NANOS: u64 = 500_000_000;

/// Where a newly observed file path is inspected.
#[derive(Debug, Clone, Copy, PartialEq, Eq, Structural)]
pub enum Target {
    /// The window that was opened at launch.
    StartupWindow,
    /// A window created for this path.
    NewWindow,
}

/// The mathematical view of a [`StartupInspect`]: times are nanoseconds on the host's
/// monotonic clock.
pub struct AffinityModel {
    pub startup_time: int,
    pub startup_used: bool,
}

/// The process-wide choice between the startup window and a new one. There is no signal that
/// tells a request made during launch from a later one, so only the first request within a
/// short grace period after launch goes to the startup window.
pub struct StartupInspect {
    startup_time: u64,
    startup_used: bool,
}

impl View for StartupInspect {
    type V = AffinityModel;

    closed spec fn view(&self) -> AffinityModel {
        AffinityModel { startup_time: self.startup_time as int, startup_used: self.startup_used }
    }
}

/// The time from `start` to `now`, or zero where `now` is earlier.
pub open spec fn elapsed(start: int, now: int) -> int {
    if now >= start {
        now - start
    } else {
        0
    }
}

/// Where a path observed at `now` goes.
pub open spec fn target_at(s: AffinityModel, now: int) -> Target {
    if !s.startup_used && elapsed(s.startup_time, now) < STARTUP_DURATION_NANOS {
        Target::StartupWindow
    } else {
        Target::NewWindow
    }
}

/// The state after a path observed at `now` is dispatched.
pub open spec fn after_dispatch(s: AffinityModel, now: int) -> AffinityModel {
    AffinityModel {
        startup_used: s.startup_used || target_at(s, now) == Target::StartupWindow,
        ..s
    }
}

/// The targets of paths observed at the given times, dispatched one after another.
pub open spec fn targets_of(s: AffinityModel, times: Seq<int>) -> Seq<Target>
    decreases times.len(),
{
    if times.len() == 0 {
        seq![]
    } else {
        seq![target_at(s, times[0])] + targets_of(after_dispatch(s, times[0]), times.drop_first())
    }
}

/// The state after paths observed at the given times are dispatched one after another.
pub open spec fn affinity_after(s: AffinityModel, times: Seq<int>) -> AffinityModel
    decreases times.len(),
{
    if times.len() == 0 {
        s
    } else {
        affinity_after(after_dispatch(s, times[0]), times.drop_first())
    }
}

impl StartupInspect {
    /// The state at launch, at `startup_time`, before any request.
    pub fn new(startup_time: u64) -> (r: StartupInspect)
        ensures
            r@ == (AffinityModel { startup_time: startup_time as int, startup_used: false }),
    {
        StartupInspect { startup_time, startup_used: false }
    }

    /// Whether a request has already gone to the startup window.
    pub fn is_startup_used(&self) -> (r: bool)
        ensures
            r == self@.startup_used,
    {
        self.startup_used
    }

    /// Decides where a path observed at `now` goes. The check and the claim of the startup
    /// window are one step, so of two requests only one can win it.
    pub fn dispatch(&mut self, now: u64) -> (t: Target)
        ensures
            t == target_at(old(self)@, now as int),
            final(self)@ == after_dispatch(old(self)@, now as int),
    {
        let elapsed: u64 = if now >= self.startup_time {
            now - self.startup_time
        } else {
            0
        };
        if !self.startup_used && elapsed < STARTUP_DURATION_NANOS {
            self.startup_used = true;
            Target::StartupWindow
        } else {
            Target::NewWindow
        }
    }
}

/// Once the startup window has been used, every later path, whenever it comes, gets a new
/// window.
pub proof fn lemma_used_means_new_window(s: AffinityModel, times: Seq<int>)
    requires
        s.startup_used,
    ensures
        targets_of(s, times).len() == times.len(),
        forall|i: int| 0 <= i < times.len() ==> targets_of(s, times)[i] == Target::NewWindow,
    decreases times.len(),
{
    if times.len() > 0 {
        let rest = times.drop_first();
        lemma_used_means_new_window(after_dispatch(s, times[0]), rest);
        assert forall|i: int| 0 <= i < times.len() implies targets_of(s, times)[i]
            == Target::NewWindow by {
            if i > 0 {
                assert(targets_of(s, times)[i] == targets_of(after_dispatch(s, times[0]), rest)[i
                    - 1]);
            }
        }
    }
}

/// Of any run of dispatched paths, at most one goes to the startup window; where the startup
/// window is still free and the first path comes within the grace period, that path is the
/// one; and the startup window ends up marked used exactly when it was used before or one of
/// the paths went to it.
pub proof fn lemma_startup_window_won_once(s: AffinityModel, times: Seq<int>)
    ensures
        targets_of(s, times).len() == times.len(),
        forall|i: int, j: int|
            0 <= i < times.len() && 0 <= j < times.len() && targets_of(s, times)[i]
                == Target::StartupWindow && targets_of(s, times)[j] == Target::StartupWindow
                ==> i == j,
        times.len() > 0 && !s.startup_used && elapsed(s.startup_time, times[0])
            < STARTUP_DURATION_NANOS ==> targets_of(s, times)[0] == Target::StartupWindow,
        affinity_after(s, times).startup_time == s.startup_time,
        affinity_after(s, times).startup_used == (s.startup_used || exists|i: int|
            0 <= i < times.len() && targets_of(s, times)[i] == Target::StartupWindow),
    decreases times.len(),
{
    if times.len() > 0 {
        let next = after_dispatch(s, times[0]);
        let rest = times.drop_first();
        lemma_startup_window_won_once(next, rest);
        let ts = targets_of(s, times);
        assert forall|i: int| 0 < i < times.len() implies ts[i] == targets_of(next, rest)[i - 1] by {}
        if ts[0] == Target::StartupWindow {
            lemma_used_means_new_window(next, rest);
        }
        assert forall|i: int, j: int|
            0 <= i < times.len() && 0 <= j < times.len() && ts[i] == Target::StartupWindow
                && ts[j] == Target::StartupWindow implies i == j by {
            if i > 0 && j > 0 {
                assert(targets_of(next, rest)[i - 1] == Target::StartupWindow);
                assert(targets_of(next, rest)[j - 1] == Target::StartupWindow);
            }
        }
        if ts[0] == Target::StartupWindow {
            assert(ts[0] == Target::StartupWindow);
        } else if exists|k: int| 0 <= k < rest.len() && targets_of(next, rest)[k]
            == Target::StartupWindow {
            let k = choose|k: int|
                0 <= k < rest.len() && targets_of(next, rest)[k] == Target::StartupWindow;
            assert(ts[k + 1] == Target::StartupWindow);
        } else {
            assert forall|i: int| 0 <= i < times.len() implies ts[i] != Target::StartupWindow by {
                if i > 0 {
                    assert(ts[i] == targets_of(next, rest)[i - 1]);
                }
            }
        }
    }
}

/// Once the startup window has been used, a further path gets a new window, whatever the
/// time.
pub proof fn lemma_after_startup_always_new_window(s: AffinityModel, now: int)
    requires
        s.startup_used,
    ensures
        target_at(s, now) == Target::NewWindow,
        after_dispatch(s, now) == s,
{
}

} // verus!
