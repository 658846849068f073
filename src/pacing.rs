use vstd::prelude::*;

verus! {

/// Longest single sleep, in microseconds, between two looks at the
/// cancellation flag.
pub const CHECK_INTERVAL_US: u64 = 10_000;

/// A wait of `us` microseconds is slept as `us * 10 / 11`: playback runs
/// about ten percent fast to make up for the time spent handling events.
pub open spec fn paced_spec(us: nat) -> nat {
    us * 10 / 11
}

/// `us * 10 / 11`, computed without overflow.
pub fn paced_duration(us: u64) -> (r: u64)
    ensures
        r == paced_spec(us as nat),
{
    let q: u64 = us / 11;
    let m: u64 = us % 11;
    proof {
        assert(us == 11 * q + m);
        assert(us * 10 == 11 * (10 * q) + 10 * m) by (nonlinear_arith)
            requires us == 11 * q + m;
        assert((11 * (10 * q) + 10 * m) / 11 == 10 * q + (10 * m) / 11) by (nonlinear_arith)
            requires m < 11;
        assert(10 * q <= us) by (nonlinear_arith)
            requires q == us / 11;
    }
    10 * q + (10 * m) / 11
}

/// What to sleep for an event due `total` microseconds after the last
/// checkpoint, when `elapsed` microseconds have already gone by since it.
/// `None`: the event is already due, return at once without sleeping.
/// `Some(d)`: a cancellable wait of `d` microseconds.
pub fn wait_for(total: u64, elapsed: u64) -> (r: Option<u64>)
    ensures
        r is None <==> elapsed >= total,
        r matches Some(d) ==> d == paced_spec((total - elapsed) as nat),
{
    if elapsed >= total {
        None
    } else {
        Some(paced_duration(total - elapsed))
    }
}

/// One look at the cancellation flag during a wait.
#[derive(Clone, Copy, Debug, PartialEq, Eq, Structural)]
pub enum WaitStep {
    /// Sleep `duration` microseconds, then look again with `rest` left.
    Sleep { duration: u64, rest: u64 },
    /// The wait is over.
    Done,
    /// Cancellation was seen: stop waiting and silence the device.
    Cancelled,
}

/// The step taken with `remaining` microseconds left to wait, `running`
/// being the flag's value at this look.
pub open spec fn wait_step_spec(remaining: u64, running: bool) -> WaitStep {
    if !running {
        WaitStep::Cancelled
    } else if remaining == 0 {
        WaitStep::Done
    } else if remaining <= CHECK_INTERVAL_US {
        WaitStep::Sleep { duration: remaining, rest: 0 }
    } else {
        WaitStep::Sleep {
            duration: CHECK_INTERVAL_US,
            rest: (remaining - CHECK_INTERVAL_US) as u64,
        }
    }
}

/// Decides the next step of a cancellable wait. The flag is looked at before
/// each sub-interval and once more after the last one.
pub fn wait_step(remaining: u64, running: bool) -> (r: WaitStep)
    ensures
        r == wait_step_spec(remaining, running),
        !running ==> r == WaitStep::Cancelled,
        r matches WaitStep::Sleep { duration, rest } ==> 0 < duration <= CHECK_INTERVAL_US
            && duration + rest == remaining,
{
    if !running {
        WaitStep::Cancelled
    } else if remaining == 0 {
        WaitStep::Done
    } else if remaining <= CHECK_INTERVAL_US {
        WaitStep::Sleep { duration: remaining, rest: 0 }
    } else {
        WaitStep::Sleep { duration: CHECK_INTERVAL_US, rest: remaining - CHECK_INTERVAL_US }
    }
}

/// The sleeps of a wait of `remaining` microseconds, `flags[i]` being the
/// flag's value at the i-th look (the run stops when the looks run out).
pub open spec fn wait_sleeps(remaining: u64, flags: Seq<bool>) -> Seq<u64>
    decreases flags.len(),
{
    if flags.len() == 0 {
        Seq::empty()
    } else {
        match wait_step_spec(remaining, flags[0]) {
            WaitStep::Sleep { duration, rest } => seq![duration].add(
                wait_sleeps(rest, flags.drop_first()),
            ),
            _ => Seq::empty(),
        }
    }
}

/// How a wait ends: with `Done`, `Cancelled`, or (when the looks run out
/// first) with the sleep still going.
pub open spec fn wait_end(remaining: u64, flags: Seq<bool>) -> Option<WaitStep>
    decreases flags.len(),
{
    if flags.len() == 0 {
        None
    } else {
        match wait_step_spec(remaining, flags[0]) {
            WaitStep::Sleep { duration, rest } => wait_end(rest, flags.drop_first()),
            s => Some(s),
        }
    }
}

/// Cancellation latency: when the flag reads "stopped" from the `k`-th look
/// on, a wait sleeps at most `k` sub-intervals, none longer than
/// `CHECK_INTERVAL_US`, and if it has not finished by then it ends
/// cancelled. So a stop request made during a sleep costs at most what is
/// left of that one sub-interval.
pub proof fn lemma_cancel_latency(remaining: u64, flags: Seq<bool>, k: int)
    requires
        0 <= k < flags.len(),
        forall|i: int| k <= i < flags.len() ==> !flags[i],
    ensures
        wait_sleeps(remaining, flags).len() <= k,
        forall|i: int| 0 <= i < wait_sleeps(remaining, flags).len()
            ==> 0 < #[trigger] wait_sleeps(remaining, flags)[i] <= CHECK_INTERVAL_US,
        wait_end(remaining, flags) == Some(WaitStep::Done)
            || wait_end(remaining, flags) == Some(WaitStep::Cancelled),
        wait_sleeps(remaining, flags).len() == k ==> wait_end(remaining, flags) == Some(
            WaitStep::Cancelled,
        ),
    decreases flags.len(),
{
    if k > 0 {
        match wait_step_spec(remaining, flags[0]) {
            WaitStep::Sleep { duration, rest } => {
                let tail = flags.drop_first();
                assert forall|i: int| k - 1 <= i < tail.len() implies !tail[i] by {
                    assert(tail[i] == flags[i + 1]);
                }
                lemma_cancel_latency(rest, tail, k - 1);
                let s = wait_sleeps(remaining, flags);
                assert(s == seq![duration].add(wait_sleeps(rest, tail)));
                assert forall|i: int| 0 <= i < s.len() implies 0 < #[trigger] s[i]
                    <= CHECK_INTERVAL_US by {
                    if i > 0 {
                        assert(s[i] == wait_sleeps(rest, tail)[i - 1]);
                    }
                }
            },
            _ => {},
        }
    }
}

} // verus!
