//! The launch sequence as a state machine.
//!
//! `NotStarted -> Launching -> Waiting -> ShellRunning`, or
//! `Launching -> Aborted` when the server cannot be spawned. The machine only
//! decides: each step takes what happened (an [`Event`]) and returns what to
//! do next (an [`Action`]); the host program spawns, sleeps, starts the shell
//! or aborts, and reports back.
use vstd::prelude::*;

verus! {

/// How long the launcher waits after spawning the server before it starts
/// the shell, in milliseconds.
pub const STARTUP_DELAY_MS: u64 = 3000;

/// Where the launch sequence stands.
#[derive(Clone, Copy, Debug, PartialEq, Eq, Structural)]
pub enum Stage {
    NotStarted,
    /// The server process is being spawned.
    Launching,
    /// The server was spawned; the fixed delay is running.
    Waiting,
    /// The shell has been started and owns the rest of the run.
    ShellRunning,
    /// The server could not be spawned; the run ends with a fatal error.
    Aborted,
}

/// What the host program reports to the launcher.
#[derive(Clone, Copy, Debug, PartialEq, Eq, Structural)]
pub enum Event {
    /// Start the launch sequence.
    Begin,
    /// The server process was spawned and a handle to it is held.
    Spawned,
    /// The server process could not be spawned.
    SpawnFailed,
    /// The host slept for this many milliseconds.
    Slept(u64),
}

/// What the launcher asks the host program to do.
#[derive(Clone, Copy, Debug, PartialEq, Eq, Structural)]
pub enum Action {
    /// Spawn the server process with the platform's launch command.
    Spawn,
    /// Block the calling thread for this many milliseconds.
    Sleep(u64),
    /// Start the application shell; control does not come back.
    StartShell,
    /// End the run with a fatal error; the shell must not be started.
    Abort,
    /// Nothing: the event does not apply in the current stage.
    Idle,
}

/// The model of a launcher.
pub struct LaunchState {
    pub stage: Stage,
    /// How much of the fixed delay has elapsed.
    pub waited_ms: nat,
    /// How many server process handles have been created.
    pub children: nat,
}

pub open spec fn initial_state() -> LaunchState {
    LaunchState { stage: Stage::NotStarted, waited_ms: 0, children: 0 }
}

/// What holds of every state the machine can reach.
pub open spec fn consistent(s: LaunchState) -> bool {
    &&& s.children <= 1
    &&& (s.children == 1 <==> (s.stage == Stage::Waiting || s.stage == Stage::ShellRunning))
    &&& s.stage == Stage::Waiting ==> s.waited_ms < STARTUP_DELAY_MS
    &&& s.stage == Stage::ShellRunning ==> s.waited_ms == STARTUP_DELAY_MS
    &&& (s.stage != Stage::Waiting && s.stage != Stage::ShellRunning) ==> s.waited_ms == 0
}

/// One transition: the next state and the action for the host.
pub open spec fn next(s: LaunchState, e: Event) -> (LaunchState, Action) {
    match (s.stage, e) {
        (Stage::NotStarted, Event::Begin) => (LaunchState { stage: Stage::Launching, ..s }, Action::Spawn),
        (Stage::Launching, Event::Spawned) => (
            LaunchState { stage: Stage::Waiting, waited_ms: 0, children: s.children + 1 },
            Action::Sleep(STARTUP_DELAY_MS),
        ),
        (Stage::Launching, Event::SpawnFailed) => (LaunchState { stage: Stage::Aborted, ..s }, Action::Abort),
        (Stage::Waiting, Event::Slept(ms)) => {
            if s.waited_ms + ms >= STARTUP_DELAY_MS {
                (
                    LaunchState { stage: Stage::ShellRunning, waited_ms: STARTUP_DELAY_MS as nat, ..s },
                    Action::StartShell,
                )
            } else {
                (
                    LaunchState { waited_ms: (s.waited_ms + ms) as nat, ..s },
                    Action::Sleep((STARTUP_DELAY_MS - (s.waited_ms + ms)) as u64),
                )
            }
        },
        _ => (s, Action::Idle),
    }
}

/// The transitions preserve the consistency of the state.
pub proof fn lemma_next_consistent(s: LaunchState, e: Event)
    requires
        consistent(s),
    ensures
        consistent(next(s, e).0),
{
}

/// The final state and the actions when `evs` are fed to the machine from `s`.
pub open spec fn run(s: LaunchState, evs: Seq<Event>) -> (LaunchState, Seq<Action>)
    decreases evs.len(),
{
    if evs.len() == 0 {
        (s, Seq::empty())
    } else {
        let (s1, a) = next(s, evs[0]);
        let (sf, rest) = run(s1, evs.drop_first());
        (sf, seq![a] + rest)
    }
}

/// How many of the actions ask for a server process to be spawned.
pub open spec fn spawn_count(actions: Seq<Action>) -> nat
    decreases actions.len(),
{
    if actions.len() == 0 {
        0
    } else {
        (if actions[0] == Action::Spawn { 1nat } else { 0nat }) + spawn_count(actions.drop_first())
    }
}

/// The total time the host reports having slept in `evs`.
pub open spec fn slept_total(evs: Seq<Event>) -> nat
    decreases evs.len(),
{
    if evs.len() == 0 {
        0
    } else {
        (match evs[0] {
            Event::Slept(ms) => ms as nat,
            _ => 0nat,
        }) + slept_total(evs.drop_first())
    }
}

proof fn lemma_run_facts(s: LaunchState, evs: Seq<Event>)
    requires
        consistent(s),
    ensures
        consistent(run(s, evs).0),
        run(s, evs).1.len() == evs.len(),
        spawn_count(run(s, evs).1) <= (if s.stage == Stage::NotStarted { 1nat } else { 0nat }),
        forall|i: int|
            0 <= i < evs.len() && #[trigger] run(s, evs).1[i] == Action::StartShell ==> s.waited_ms
                + slept_total(evs.take(i + 1)) >= STARTUP_DELAY_MS,
        run(s, evs).0.stage == Stage::ShellRunning ==> s.stage == Stage::ShellRunning || s.waited_ms
            + slept_total(evs) >= STARTUP_DELAY_MS,
    decreases evs.len(),
{
    if evs.len() > 0 {
        let (s1, a) = next(s, evs[0]);
        let tail = evs.drop_first();
        lemma_next_consistent(s, evs[0]);
        lemma_run_facts(s1, tail);
        let acts = run(s, evs).1;
        assert(acts.drop_first() =~= run(s1, tail).1);
        assert forall|i: int|
            0 <= i < evs.len() && #[trigger] acts[i] == Action::StartShell implies s.waited_ms
                + slept_total(evs.take(i + 1)) >= STARTUP_DELAY_MS by {
            assert(evs.take(i + 1).drop_first() =~= tail.take(i));
            assert(evs.take(i + 1)[0] == evs[0]);
            if i > 0 {
                assert(acts[i] == run(s1, tail).1[i - 1]);
            }
        }
    }
}

/// At most one server process is spawned, and at most one handle to one is
/// held, in any run of the launcher, whatever the host reports.
pub proof fn lemma_at_most_one_child(evs: Seq<Event>)
    ensures
        spawn_count(run(initial_state(), evs).1) <= 1,
        run(initial_state(), evs).0.children <= 1,
{
    lemma_run_facts(initial_state(), evs);
}

/// The shell is started only once the host has slept for the whole fixed
/// delay since the launch began. Nothing the launcher is told about the
/// server, including that it was spawned, cuts the wait short.
pub proof fn lemma_shell_waits_for_delay(evs: Seq<Event>)
    ensures
        forall|i: int|
            0 <= i < evs.len() && #[trigger] run(initial_state(), evs).1[i] == Action::StartShell
                ==> slept_total(evs.take(i + 1)) >= STARTUP_DELAY_MS,
        run(initial_state(), evs).0.stage == Stage::ShellRunning ==> slept_total(evs)
            >= STARTUP_DELAY_MS,
{
    lemma_run_facts(initial_state(), evs);
}

proof fn lemma_aborted_is_final(s: LaunchState, evs: Seq<Event>)
    requires
        s.stage == Stage::Aborted,
    ensures
        run(s, evs).0 == s,
        run(s, evs).1.len() == evs.len(),
        forall|i: int| 0 <= i < evs.len() ==> #[trigger] run(s, evs).1[i] == Action::Idle,
    decreases evs.len(),
{
    if evs.len() > 0 {
        lemma_aborted_is_final(s, evs.drop_first());
        assert(run(s, evs).1.drop_first() =~= run(s, evs.drop_first()).1);
        assert forall|i: int| 0 <= i < evs.len() implies #[trigger] run(s, evs).1[i] == Action::Idle by {
            if i > 0 {
                assert(run(s, evs).1[i] == run(s, evs.drop_first()).1[i - 1]);
            }
        }
    }
}

/// When the server cannot be spawned the run ends with a fatal error: the
/// launcher asks for an abort right away, ends in the aborted stage, holds no
/// server handle and never asks for the shell to be started.
pub proof fn lemma_spawn_failure_is_fatal(evs: Seq<Event>)
    requires
        evs.len() >= 2,
        evs[0] == Event::Begin,
        evs[1] == Event::SpawnFailed,
    ensures
        run(initial_state(), evs).1[1] == Action::Abort,
        run(initial_state(), evs).0.stage == Stage::Aborted,
        run(initial_state(), evs).0.children == 0,
        forall|i: int| 0 <= i < evs.len() ==> #[trigger] run(initial_state(), evs).1[i] != Action::StartShell,
{
    let s0 = initial_state();
    let s1 = next(s0, evs[0]).0;
    let s2 = next(s1, evs[1]).0;
    let rest = evs.drop_first().drop_first();
    lemma_aborted_is_final(s2, rest);
    lemma_run_facts(s0, evs);
    lemma_run_facts(s1, evs.drop_first());
    lemma_run_facts(s2, rest);
    assert(evs.drop_first().drop_first() =~= evs.subrange(2, evs.len() as int));
    let acts = run(s0, evs).1;
    assert(acts.drop_first() =~= run(s1, evs.drop_first()).1);
    assert(run(s1, evs.drop_first()).1.drop_first() =~= run(s2, rest).1);
    assert forall|i: int| 0 <= i < evs.len() implies #[trigger] acts[i] != Action::StartShell by {
        if i >= 2 {
            assert(acts[i] == run(s2, rest).1[i - 2]);
        }
    }
}

/// Drives the launch sequence. The host creates one per run.
pub struct Launcher {
    stage: Stage,
    waited_ms: u64,
    children: u64,
}

impl View for Launcher {
    type V = LaunchState;

    closed spec fn view(&self) -> LaunchState {
        LaunchState { stage: self.stage, waited_ms: self.waited_ms as nat, children: self.children as nat }
    }
}

impl Launcher {
    pub closed spec fn wf(&self) -> bool {
        consistent(self@)
    }

    /// A launcher that has not started yet.
    pub fn new() -> (r: Launcher)
        ensures
            r.wf(),
            r@ == initial_state(),
    {
        Launcher { stage: Stage::NotStarted, waited_ms: 0, children: 0 }
    }

    /// The current stage.
    pub fn stage(&self) -> (r: Stage)
        ensures
            r == self@.stage,
    {
        self.stage
    }

    /// How much of the fixed delay has elapsed, in milliseconds.
    pub fn waited_ms(&self) -> (r: u64)
        ensures
            r == self@.waited_ms,
    {
        self.waited_ms
    }

    /// How many server process handles the run has created.
    pub fn child_handles(&self) -> (r: u64)
        ensures
            r == self@.children,
    {
        self.children
    }

    /// Takes one event and returns the action the host must perform.
    pub fn step(&mut self, e: Event) -> (a: Action)
        requires
            old(self).wf(),
        ensures
            final(self).wf(),
            (final(self)@, a) == next(old(self)@, e),
    {
        proof {
            lemma_next_consistent(self@, e);
        }
        match (self.stage, e) {
            (Stage::NotStarted, Event::Begin) => {
                self.stage = Stage::Launching;
                Action::Spawn
            },
            (Stage::Launching, Event::Spawned) => {
                self.stage = Stage::Waiting;
                self.waited_ms = 0;
                self.children = self.children + 1;
                Action::Sleep(STARTUP_DELAY_MS)
            },
            (Stage::Launching, Event::SpawnFailed) => {
                self.stage = Stage::Aborted;
                Action::Abort
            },
            (Stage::Waiting, Event::Slept(ms)) => {
                let remaining = STARTUP_DELAY_MS - self.waited_ms;
                if ms >= remaining {
                    self.stage = Stage::ShellRunning;
                    self.waited_ms = STARTUP_DELAY_MS;
                    Action::StartShell
                } else {
                    self.waited_ms = self.waited_ms + ms;
                    Action::Sleep(remaining - ms)
                }
            },
            _ => Action::Idle,
        }
    }
}

} // verus!
