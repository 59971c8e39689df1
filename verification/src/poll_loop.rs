use std::time::Duration;
use vstd::prelude::*;

verus! {

/// Where the pause after each run of the task comes from.
#[derive(Debug, Clone, Copy, PartialEq, Eq)]
pub enum IntervalSource {
    /// The same interval after every run.
    Fixed(Duration),
    /// A fresh interval is fetched after every run.
    Fetched,
    /// The current interval, which a run of the task may replace.
    SelfUpdating(Duration),
}

/// What the polling loop is doing.
#[derive(Debug, Clone, Copy, PartialEq, Eq)]
pub enum Phase {
    /// The task is running.
    Running,
    /// The interval is being fetched.
    Fetching,
    /// The loop sleeps until the interval elapses or the owner asks it to stop.
    Waiting,
    /// The loop has exited and said so.
    Finished,
}

/// What the loop's driver reports back.
#[derive(Debug, Clone, Copy, PartialEq, Eq)]
pub enum PollEvent {
    /// The task returned; `Some(d)` when it set a new interval.
    TaskFinished(Option<Duration>),
    /// The interval fetcher returned.
    IntervalFetched(Duration),
    /// The whole interval elapsed with the task still active.
    WaitElapsed,
    /// The wait ended because the owner asked the task to stop.
    StopObserved,
}

/// What the loop's driver must do next.
#[derive(Debug, Clone, Copy, PartialEq, Eq)]
pub enum PollAction {
    /// Run the task once.
    RunTask,
    /// Run a self-updating task once, handing it this interval, which the run
    /// may replace.
    RunTaskWith(Duration),
    /// Ask the fetcher for the next interval.
    FetchInterval,
    /// Sleep this long, waking early if the owner asks the task to stop.
    WaitFor(Duration),
    /// Tell the owner that the loop has exited; nothing follows.
    SignalExit,
}

/// The abstract state of a polling loop.
pub struct LoopState {
    pub source: IntervalSource,
    pub phase: Phase,
}

/// The decision core of a polling loop: from the state and the latest event,
/// the next state and action.
pub struct PollLoop {
    source: IntervalSource,
    phase: Phase,
}

impl View for PollLoop {
    type V = LoopState;

    closed spec fn view(&self) -> LoopState {
        LoopState { source: self.source, phase: self.phase }
    }
}

/// Only a loop that fetches its interval is ever found fetching it.
pub open spec fn loop_wf(s: LoopState) -> bool {
    s.phase is Fetching ==> s.source is Fetched
}

/// The action that runs the task: a self-updating task is handed its current
/// interval.
pub open spec fn run_action(source: IntervalSource) -> PollAction {
    match source {
        IntervalSource::SelfUpdating(d) => PollAction::RunTaskWith(d),
        _ => PollAction::RunTask,
    }
}

/// Whether an action runs the task.
pub open spec fn is_run(a: PollAction) -> bool {
    a is RunTask || a is RunTaskWith
}

/// A new loop runs its task at once.
pub open spec fn start_spec(source: IntervalSource) -> (LoopState, PollAction) {
    (LoopState { source, phase: Phase::Running }, run_action(source))
}

/// One transition. An event that the phase does not expect changes nothing and
/// asks for nothing.
pub open spec fn step_spec(s: LoopState, e: PollEvent) -> (LoopState, Option<PollAction>) {
    match s.phase {
        Phase::Running => match e {
            PollEvent::TaskFinished(reported) => match s.source {
                IntervalSource::Fixed(d) => (
                    LoopState { source: s.source, phase: Phase::Waiting },
                    Some(PollAction::WaitFor(d)),
                ),
                IntervalSource::Fetched => (
                    LoopState { source: s.source, phase: Phase::Fetching },
                    Some(PollAction::FetchInterval),
                ),
                IntervalSource::SelfUpdating(current) => {
                    let next = match reported {
                        Some(d) => d,
                        None => current,
                    };
                    (
                        LoopState { source: IntervalSource::SelfUpdating(next), phase: Phase::Waiting },
                        Some(PollAction::WaitFor(next)),
                    )
                },
            },
            _ => (s, None),
        },
        Phase::Fetching => match e {
            PollEvent::IntervalFetched(d) => (
                LoopState { source: s.source, phase: Phase::Waiting },
                Some(PollAction::WaitFor(d)),
            ),
            _ => (s, None),
        },
        Phase::Waiting => match e {
            PollEvent::WaitElapsed => (
                LoopState { source: s.source, phase: Phase::Running },
                Some(run_action(s.source)),
            ),
            PollEvent::StopObserved => (
                LoopState { source: s.source, phase: Phase::Finished },
                Some(PollAction::SignalExit),
            ),
            _ => (s, None),
        },
        Phase::Finished => (s, None),
    }
}

/// The state reached and the actions asked for along a sequence of events.
pub open spec fn run_spec(s: LoopState, events: Seq<PollEvent>) -> (LoopState, Seq<PollAction>)
    decreases events.len(),
{
    if events.len() == 0 {
        (s, Seq::empty())
    } else {
        let (s1, a) = step_spec(s, events[0]);
        let (s2, rest) = run_spec(s1, events.drop_first());
        match a {
            Some(x) => (s2, seq![x] + rest),
            None => (s2, rest),
        }
    }
}

/// How many times the actions run the task.
pub open spec fn count_runs(acts: Seq<PollAction>) -> nat
    decreases acts.len(),
{
    if acts.len() == 0 {
        0
    } else {
        (if is_run(acts[0]) {
            1nat
        } else {
            0nat
        }) + count_runs(acts.drop_first())
    }
}

/// How many waits the actions hold.
pub open spec fn count_waits(acts: Seq<PollAction>) -> nat
    decreases acts.len(),
{
    if acts.len() == 0 {
        0
    } else {
        (if acts[0] is WaitFor {
            1nat
        } else {
            0nat
        }) + count_waits(acts.drop_first())
    }
}

/// How many exit signals the actions hold.
pub open spec fn count_exits(acts: Seq<PollAction>) -> nat
    decreases acts.len(),
{
    if acts.len() == 0 {
        0
    } else {
        (if acts[0] is SignalExit {
            1nat
        } else {
            0nat
        }) + count_exits(acts.drop_first())
    }
}

/// One when a run of the task is under way (running, or fetching the interval
/// that follows it) and its wait has not begun yet.
pub open spec fn run_pending(s: LoopState) -> nat {
    if s.phase is Running || s.phase is Fetching {
        1
    } else {
        0
    }
}

/// One once the loop has exited.
pub open spec fn finished(s: LoopState) -> nat {
    if s.phase is Finished {
        1
    } else {
        0
    }
}

impl PollLoop {
    /// Starts a loop over the given interval source: the first action runs the
    /// task.
    pub fn start(source: IntervalSource) -> (r: (PollLoop, PollAction))
        ensures
            (r.0@, r.1) == start_spec(source),
    {
        (PollLoop { source, phase: Phase::Running }, Self::run_action(source))
    }

    /// The action that runs the task under the given interval source.
    fn run_action(source: IntervalSource) -> (a: PollAction)
        ensures
            a == run_action(source),
    {
        match source {
            IntervalSource::SelfUpdating(d) => PollAction::RunTaskWith(d),
            _ => PollAction::RunTask,
        }
    }

    /// Takes the driver's report of what happened and says what to do next.
    pub fn on_event(&mut self, event: PollEvent) -> (a: Option<PollAction>)
        ensures
            (final(self)@, a) == step_spec(old(self)@, event),
    {
        match self.phase {
            Phase::Running => match event {
                PollEvent::TaskFinished(reported) => match self.source {
                    IntervalSource::Fixed(d) => {
                        self.phase = Phase::Waiting;
                        Some(PollAction::WaitFor(d))
                    },
                    IntervalSource::Fetched => {
                        self.phase = Phase::Fetching;
                        Some(PollAction::FetchInterval)
                    },
                    IntervalSource::SelfUpdating(current) => {
                        let next = match reported {
                            Some(d) => d,
                            None => current,
                        };
                        self.source = IntervalSource::SelfUpdating(next);
                        self.phase = Phase::Waiting;
                        Some(PollAction::WaitFor(next))
                    },
                },
                _ => None,
            },
            Phase::Fetching => match event {
                PollEvent::IntervalFetched(d) => {
                    self.phase = Phase::Waiting;
                    Some(PollAction::WaitFor(d))
                },
                _ => None,
            },
            Phase::Waiting => match event {
                PollEvent::WaitElapsed => {
                    self.phase = Phase::Running;
                    Some(Self::run_action(self.source))
                },
                PollEvent::StopObserved => {
                    self.phase = Phase::Finished;
                    Some(PollAction::SignalExit)
                },
                _ => None,
            },
            Phase::Finished => None,
        }
    }

    /// The current phase.
    pub fn phase(&self) -> (p: Phase)
        ensures
            p == self@.phase,
    {
        self.phase
    }

    /// Whether the loop has exited.
    pub fn is_finished(&self) -> (b: bool)
        ensures
            b == (self@.phase is Finished),
    {
        match self.phase {
            Phase::Finished => true,
            _ => false,
        }
    }

    /// The interval source, with the current interval of a self-updating one.
    pub fn source(&self) -> (src: IntervalSource)
        ensures
            src == self@.source,
    {
        self.source
    }
}

/// Counting one action in front of others adds that action's own count.
proof fn lemma_counts_prepend(x: PollAction, rest: Seq<PollAction>)
    ensures
        count_runs(seq![x] + rest) == (if is_run(x) { 1nat } else { 0nat }) + count_runs(rest),
        count_waits(seq![x] + rest) == (if x is WaitFor { 1nat } else { 0nat }) + count_waits(rest),
        count_exits(seq![x] + rest) == (if x is SignalExit { 1nat } else { 0nat }) + count_exits(
            rest,
        ),
{
    let all = seq![x] + rest;
    assert(all.drop_first() =~= rest);
    assert(all[0] == x);
}

/// Every loop starts well formed and every step keeps it so.
pub proof fn lemma_loop_stays_wf(s: LoopState, e: PollEvent, source: IntervalSource)
    ensures
        loop_wf(start_spec(source).0),
        loop_wf(s) ==> loop_wf(step_spec(s, e).0),
{
}

/// A new polling task runs its task immediately.
pub proof fn lemma_starts_by_running_task(source: IntervalSource)
    ensures
        start_spec(source).1 == run_action(source),
        is_run(start_spec(source).1),
        start_spec(source).0.phase == Phase::Running,
        start_spec(source).0.source == source,
{
}

/// Once the loop has exited it stays exited and asks for nothing more,
/// whatever is reported to it.
pub proof fn lemma_finished_is_final(s: LoopState, events: Seq<PollEvent>)
    requires
        s.phase is Finished,
    ensures
        run_spec(s, events).0 == s,
        run_spec(s, events).1.len() == 0,
    decreases events.len(),
{
    if events.len() > 0 {
        lemma_finished_is_final(s, events.drop_first());
    }
}

/// Runs of the task and waits alternate: along any sequence of events, the
/// runs asked for equal the waits asked for, but for the run still under way
/// at either end; and the loop signals its exit once, when it finishes.
pub proof fn lemma_runs_alternate_with_waits(s: LoopState, events: Seq<PollEvent>)
    ensures
        ({
            let (t, acts) = run_spec(s, events);
            &&& count_runs(acts) + run_pending(s) == count_waits(acts) + run_pending(t)
            &&& count_exits(acts) + finished(s) == finished(t)
        }),
    decreases events.len(),
{
    if events.len() > 0 {
        let (s1, a) = step_spec(s, events[0]);
        lemma_runs_alternate_with_waits(s1, events.drop_first());
        let (s2, rest) = run_spec(s1, events.drop_first());
        match a {
            Some(x) => {
                lemma_counts_prepend(x, rest);
            },
            None => {},
        }
    }
}

/// From the start, the task has run exactly once more than the loop has waited
/// while a run is under way, as often as it has waited otherwise, and the exit
/// signal has gone out exactly when the loop has finished.
pub proof fn lemma_loop_from_start(source: IntervalSource, events: Seq<PollEvent>)
    ensures
        ({
            let (s0, a0) = start_spec(source);
            let (t, acts) = run_spec(s0, events);
            let all = seq![a0] + acts;
            &&& count_runs(all) == count_waits(all) + run_pending(t)
            &&& count_exits(all) == finished(t)
        }),
{
    let (s0, a0) = start_spec(source);
    let (t, acts) = run_spec(s0, events);
    lemma_runs_alternate_with_waits(s0, events);
    lemma_counts_prepend(a0, acts);
}

/// Nothing follows the exit signal: it can only be the last action asked for.
pub proof fn lemma_exit_is_last(s: LoopState, events: Seq<PollEvent>)
    ensures
        ({
            let (t, acts) = run_spec(s, events);
            forall|i: int| 0 <= i < acts.len() && (#[trigger] acts[i]) is SignalExit ==> i == acts.len() - 1
        }),
    decreases events.len(),
{
    if events.len() > 0 {
        let (s1, a) = step_spec(s, events[0]);
        lemma_exit_is_last(s1, events.drop_first());
        let (s2, rest) = run_spec(s1, events.drop_first());
        match a {
            Some(x) => {
                if x is SignalExit {
                    lemma_finished_is_final(s1, events.drop_first());
                }
                let acts = seq![x] + rest;
                assert forall|i: int| 0 <= i < acts.len() && (#[trigger] acts[i]) is SignalExit implies i
                    == acts.len() - 1 by {
                    if i > 0 {
                        assert(acts[i] == rest[i - 1]);
                    }
                }
            },
            None => {},
        }
    }
}

/// With a fixed interval every wait is for that interval, and the interval
/// never changes.
pub proof fn lemma_fixed_interval_every_wait(s: LoopState, events: Seq<PollEvent>, d: Duration)
    requires
        loop_wf(s),
        s.source == IntervalSource::Fixed(d),
    ensures
        ({
            let (t, acts) = run_spec(s, events);
            &&& t.source == IntervalSource::Fixed(d)
            &&& forall|i: int|
                0 <= i < acts.len() && (#[trigger] acts[i]) is WaitFor ==> acts[i]
                    == PollAction::WaitFor(d)
        }),
    decreases events.len(),
{
    if events.len() > 0 {
        let (s1, a) = step_spec(s, events[0]);
        lemma_fixed_interval_every_wait(s1, events.drop_first(), d);
        let (s2, rest) = run_spec(s1, events.drop_first());
        match a {
            Some(x) => {
                let acts = seq![x] + rest;
                assert forall|i: int|
                    0 <= i < acts.len() && (#[trigger] acts[i]) is WaitFor implies acts[i]
                        == PollAction::WaitFor(d) by {
                    if i > 0 {
                        assert(acts[i] == rest[i - 1]);
                    }
                }
            },
            None => {},
        }
    }
}

/// With a fetched interval, every run of the task is followed by a fetch, and
/// the wait that follows is for exactly the interval fetched.
pub proof fn lemma_fetched_every_iteration(reported: Option<Duration>, d: Duration)
    ensures
        ({
            let s = LoopState { source: IntervalSource::Fetched, phase: Phase::Running };
            let (s1, a1) = step_spec(s, PollEvent::TaskFinished(reported));
            let (s2, a2) = step_spec(s1, PollEvent::IntervalFetched(d));
            &&& a1 == Some(PollAction::FetchInterval)
            &&& a2 == Some(PollAction::WaitFor(d))
            &&& s2.source == IntervalSource::Fetched
        }),
{
}

/// A self-updating task's next wait is the interval that its run set, or the
/// interval in force when the run set none; and that interval stays in force.
pub proof fn lemma_self_updating_uses_reported(current: Duration, reported: Option<Duration>)
    ensures
        ({
            let s = LoopState { source: IntervalSource::SelfUpdating(current), phase: Phase::Running };
            let (s1, a1) = step_spec(s, PollEvent::TaskFinished(reported));
            let next = match reported {
                Some(d) => d,
                None => current,
            };
            &&& a1 == Some(PollAction::WaitFor(next))
            &&& s1.source == IntervalSource::SelfUpdating(next)
        }),
{
}

/// A stop request seen while waiting ends the loop at once: the exit is
/// signalled and the task does not run again. A wait that elapses runs the
/// task again.
pub proof fn lemma_wait_outcomes(s: LoopState)
    requires
        s.phase is Waiting,
    ensures
        step_spec(s, PollEvent::StopObserved) == (LoopState { source: s.source, phase: Phase::Finished }, Some(PollAction::SignalExit)),
        step_spec(s, PollEvent::WaitElapsed) == (LoopState { source: s.source, phase: Phase::Running }, Some(run_action(s.source))),
{
}

/// A run that hands over an interval can only come from a self-updating loop
/// that is waiting with that interval in force.
proof fn lemma_handing_run_comes_from_wait(s: LoopState, events: Seq<PollEvent>)
    ensures
        ({
            let acts = run_spec(s, events).1;
            acts.len() > 0 && acts[0] is RunTaskWith ==> s.phase is Waiting && s.source
                == IntervalSource::SelfUpdating(acts[0]->RunTaskWith_0)
        }),
    decreases events.len(),
{
    if events.len() > 0 {
        let (s1, a) = step_spec(s, events[0]);
        lemma_handing_run_comes_from_wait(s1, events.drop_first());
        let rest = run_spec(s1, events.drop_first()).1;
        match a {
            Some(x) => {
                assert((seq![x] + rest)[0] == x);
            },
            None => {},
        }
    }
}

/// A self-updating task hands each value on: every run after the first is
/// handed exactly the interval that the wait before it lasted, which is the
/// interval that the previous run left (see
/// `lemma_self_updating_uses_reported`).
pub proof fn lemma_self_updating_hand_back(s: LoopState, events: Seq<PollEvent>)
    requires
        loop_wf(s),
    ensures
        ({
            let acts = run_spec(s, events).1;
            forall|i: int|
                0 < i < acts.len() && (#[trigger] acts[i]) is RunTaskWith ==> acts[i - 1]
                    == PollAction::WaitFor(acts[i]->RunTaskWith_0)
        }),
    decreases events.len(),
{
    if events.len() > 0 {
        let (s1, a) = step_spec(s, events[0]);
        lemma_self_updating_hand_back(s1, events.drop_first());
        lemma_handing_run_comes_from_wait(s1, events.drop_first());
        let rest = run_spec(s1, events.drop_first()).1;
        match a {
            Some(x) => {
                let acts = seq![x] + rest;
                assert forall|i: int|
                    0 < i < acts.len() && (#[trigger] acts[i]) is RunTaskWith implies acts[i - 1]
                        == PollAction::WaitFor(acts[i]->RunTaskWith_0) by {
                    assert(acts[i] == rest[i - 1]);
                    if i > 1 {
                        assert(acts[i - 1] == rest[i - 2]);
                    } else {
                        assert(acts[0] == x);
                    }
                }
            },
            None => {},
        }
    }
}

/// From the start of a self-updating loop with interval `i0`: the first run is
/// handed `i0`, and every later run is handed the interval that the wait
/// before it lasted.
pub proof fn lemma_self_updating_from_start(i0: Duration, events: Seq<PollEvent>)
    ensures
        ({
            let (s0, a0) = start_spec(IntervalSource::SelfUpdating(i0));
            let all = seq![a0] + run_spec(s0, events).1;
            &&& all[0] == PollAction::RunTaskWith(i0)
            &&& forall|i: int|
                0 < i < all.len() && (#[trigger] all[i]) is RunTaskWith ==> all[i - 1]
                    == PollAction::WaitFor(all[i]->RunTaskWith_0)
        }),
{
    let (s0, a0) = start_spec(IntervalSource::SelfUpdating(i0));
    let acts = run_spec(s0, events).1;
    lemma_self_updating_hand_back(s0, events);
    lemma_handing_run_comes_from_wait(s0, events);
    let all = seq![a0] + acts;
    assert forall|i: int|
        0 < i < all.len() && (#[trigger] all[i]) is RunTaskWith implies all[i - 1]
            == PollAction::WaitFor(all[i]->RunTaskWith_0) by {
        assert(all[i] == acts[i - 1]);
        if i > 1 {
            assert(all[i - 1] == acts[i - 2]);
        }
    }
}

/// After a run the loop always goes on, whatever the run reported: with a
/// fixed interval it waits exactly that interval, with a fetched one it asks
/// for the interval, and a self-updating one waits for the interval in force
/// after the run. A finished run is never ignored.
pub proof fn lemma_run_is_always_followed(source: IntervalSource, reported: Option<Duration>)
    ensures
        ({
            let (s1, a) = step_spec(
                LoopState { source, phase: Phase::Running },
                PollEvent::TaskFinished(reported),
            );
            &&& a is Some
            &&& s1.phase is Waiting || s1.phase is Fetching
            &&& (source matches IntervalSource::Fixed(d) ==> a == Some(PollAction::WaitFor(d))
                && s1 == LoopState { source: IntervalSource::Fixed(d), phase: Phase::Waiting })
            &&& (source is Fetched ==> a == Some(PollAction::FetchInterval) && s1 == LoopState {
                source: IntervalSource::Fetched,
                phase: Phase::Fetching,
            })
            &&& (source matches IntervalSource::SelfUpdating(c) ==> s1.phase is Waiting && a
                == Some(PollAction::WaitFor(s1.source->SelfUpdating_0)) && (reported is None
                ==> s1.source == source))
        }),
{
}

/// `n` rounds in which the task finishes and its whole interval elapses.
pub open spec fn undisturbed_rounds(n: nat) -> Seq<PollEvent>
    decreases n,
{
    if n == 0 {
        Seq::empty()
    } else {
        seq![PollEvent::TaskFinished(None), PollEvent::WaitElapsed] + undisturbed_rounds(
            (n - 1) as nat,
        )
    }
}

/// Until it is stopped, a task with a fixed interval polls forever: over any
/// number of rounds it waits that interval after every run and then runs
/// again, and is still running at the end.
pub proof fn lemma_fixed_loop_polls_until_stopped(d: Duration, n: nat)
    ensures
        ({
            let (t, acts) = run_spec(
                LoopState { source: IntervalSource::Fixed(d), phase: Phase::Running },
                undisturbed_rounds(n),
            );
            &&& t == LoopState { source: IntervalSource::Fixed(d), phase: Phase::Running }
            &&& acts.len() == 2 * n
            &&& forall|i: int|
                0 <= i < acts.len() ==> #[trigger] acts[i] == (if i % 2 == 0 {
                    PollAction::WaitFor(d)
                } else {
                    PollAction::RunTask
                })
        }),
    decreases n,
{
    let s = LoopState { source: IntervalSource::Fixed(d), phase: Phase::Running };
    if n > 0 {
        let m = (n - 1) as nat;
        lemma_fixed_loop_polls_until_stopped(d, m);
        let rest = undisturbed_rounds(m);
        let evs = undisturbed_rounds(n);
        assert(evs == seq![PollEvent::TaskFinished(None), PollEvent::WaitElapsed] + rest);
        assert(evs[0] == PollEvent::TaskFinished(None));
        let evs1 = evs.drop_first();
        assert(evs1 =~= seq![PollEvent::WaitElapsed] + rest);
        assert(evs1[0] == PollEvent::WaitElapsed);
        assert(evs1.drop_first() =~= rest);
        let w = LoopState { source: IntervalSource::Fixed(d), phase: Phase::Waiting };
        assert(step_spec(s, evs[0]) == (w, Some(PollAction::WaitFor(d))));
        assert(step_spec(w, evs1[0]) == (s, Some(PollAction::RunTask)));
        let (t, racts) = run_spec(s, rest);
        assert(run_spec(w, evs1) == (t, seq![PollAction::RunTask] + racts));
        assert(run_spec(s, evs) == (t, seq![PollAction::WaitFor(d)] + (seq![PollAction::RunTask]
            + racts)));
        let acts = seq![PollAction::WaitFor(d)] + (seq![PollAction::RunTask] + racts);
        assert forall|i: int| 0 <= i < acts.len() implies #[trigger] acts[i] == (if i % 2 == 0 {
            PollAction::WaitFor(d)
        } else {
            PollAction::RunTask
        }) by {
            if i >= 2 {
                assert(acts[i] == racts[i - 2]);
                assert((i - 2) % 2 == i % 2);
            }
        }
    } else {
        assert(undisturbed_rounds(0) =~= Seq::<PollEvent>::empty());
    }
}

} // verus!
