//! The process-toggle state machine.
//!
//! On each decoded input event the controller decides whether to spawn the
//! configured command, terminate the tracked child, or do nothing. The
//! caller performs the decided action against the OS and reports the outcome
//! back, so the machine itself stays free of process plumbing.

use vstd::prelude::*;

verus! {

/// A decoded input event as the device layer hands it over. Only keyboard
/// key-state events matter to the toggle; every other category is carried as
/// `Other` and ignored explicitly.
#[derive(Clone, Copy, Debug, PartialEq, Eq, Structural)]
pub enum Event {
    /// A key went down; carries the key code.
    KeyPress(u32),
    /// A key came up; carries the key code.
    KeyRelease(u32),
    /// Any other event category (pointer motion, device add/remove, ...).
    Other,
}

/// The controller's persistent state: either no child is believed to be
/// running, or exactly one is tracked, identified by its process id.
#[derive(Clone, Copy, Debug, PartialEq, Eq, Structural)]
pub enum ToggleState {
    Idle,
    Running(u32),
}

/// What the caller must do next with the OS.
#[derive(Clone, Copy, Debug, PartialEq, Eq, Structural)]
pub enum Action {
    /// Leave everything as it is.
    Ignore,
    /// Spawn a new child from the configured command.
    Spawn,
    /// Run the termination protocol against the tracked child's id.
    Terminate(u32),
}

/// An event triggers a toggle exactly when it is a key press whose code
/// equals the configured target.
pub open spec fn qualifying(e: Event, target: u32) -> bool {
    e matches Event::KeyPress(code) && code == target
}

/// The transition table's action column: non-qualifying events are ignored;
/// a qualifying press spawns from `Idle`, terminates a live child, and
/// respawns over a child that already exited on its own.
pub open spec fn spec_decide(s: ToggleState, e: Event, target: u32, alive: bool) -> Action {
    if !qualifying(e, target) {
        Action::Ignore
    } else {
        match s {
            ToggleState::Idle => Action::Spawn,
            ToggleState::Running(pid) => if alive {
                Action::Terminate(pid)
            } else {
                Action::Spawn
            },
        }
    }
}

/// The state an action leaves behind once the caller has carried it out;
/// `new_pid` is the id of the child a spawn produced.
pub open spec fn spec_apply(s: ToggleState, a: Action, new_pid: u32) -> ToggleState {
    match a {
        Action::Ignore => s,
        Action::Spawn => ToggleState::Running(new_pid),
        Action::Terminate(_) => ToggleState::Idle,
    }
}

/// The action owed at shutdown: a tracked child is terminated, an idle
/// machine has nothing to clean up.
pub open spec fn spec_shutdown(s: ToggleState) -> Action {
    match s {
        ToggleState::Idle => Action::Ignore,
        ToggleState::Running(pid) => Action::Terminate(pid),
    }
}

/// The toggle controller: the configured target key code and the current
/// state. At most one child is ever tracked, by the shape of `ToggleState`.
#[derive(Clone, Copy, Debug, PartialEq, Eq, Structural)]
pub struct Controller {
    pub target: u32,
    pub state: ToggleState,
}

impl Controller {
    /// A fresh controller starts with nothing running.
    pub fn new(target: u32) -> (c: Controller)
        ensures
            c.target == target,
            c.state == ToggleState::Idle,
    {
        Controller { target, state: ToggleState::Idle }
    }

    /// Decide what to do with `e`. `alive` is the caller's answer to the
    /// liveness check on the tracked child; it is only consulted when the
    /// state is `Running` and the event qualifies.
    pub fn decide(&self, e: &Event, alive: bool) -> (a: Action)
        ensures
            a == spec_decide(self.state, *e, self.target, alive),
    {
        match e {
            Event::KeyPress(code) => {
                if *code == self.target {
                    match self.state {
                        ToggleState::Idle => Action::Spawn,
                        ToggleState::Running(pid) => if alive {
                            Action::Terminate(pid)
                        } else {
                            Action::Spawn
                        },
                    }
                } else {
                    Action::Ignore
                }
            },
            Event::KeyRelease(_) => Action::Ignore,
            Event::Other => Action::Ignore,
        }
    }

    /// The action owed at shutdown, before the process may exit.
    pub fn shutdown_action(&self) -> (a: Action)
        ensures
            a == spec_shutdown(self.state),
    {
        match self.state {
            ToggleState::Idle => Action::Ignore,
            ToggleState::Running(pid) => Action::Terminate(pid),
        }
    }

    /// Record that a decided spawn produced a child with id `pid`.
    pub fn note_spawned(&mut self, pid: u32)
        ensures
            final(self).target == old(self).target,
            final(self).state == ToggleState::Running(pid),
            final(self).state == spec_apply(old(self).state, Action::Spawn, pid),
    {
        self.state = ToggleState::Running(pid);
    }

    /// Record that a decided termination was handed to the OS: the machine
    /// goes back to `Idle` at once, while the caller waits the child out.
    pub fn note_idle(&mut self)
        ensures
            final(self).target == old(self).target,
            final(self).state == ToggleState::Idle,
            forall|p: u32, q: u32|
                final(self).state == spec_apply(old(self).state, Action::Terminate(p), q),
    {
        self.state = ToggleState::Idle;
    }
}

/// At most one tracked process: every successor state is again exactly
/// `Idle` or `Running` of a single id, and a spawn is only ever decided when
/// no live child is tracked — so two live children can never be tracked at
/// once, for any sequence of events.
pub proof fn lemma_at_most_one_tracked(
    s: ToggleState,
    e: Event,
    target: u32,
    alive: bool,
    new_pid: u32,
)
    ensures
        spec_apply(s, spec_decide(s, e, target, alive), new_pid) is Idle || spec_apply(
            s,
            spec_decide(s, e, target, alive),
            new_pid,
        ) is Running,
        spec_decide(s, e, target, alive) == Action::Spawn ==> s is Idle || !alive,
{
}

/// Idempotent ignore: a key press with the wrong code, a key release, or any
/// non-keyboard event decides nothing and leaves every state unchanged.
pub proof fn lemma_non_qualifying_ignored(
    s: ToggleState,
    e: Event,
    target: u32,
    alive: bool,
    new_pid: u32,
)
    requires
        !qualifying(e, target),
    ensures
        spec_decide(s, e, target, alive) == Action::Ignore,
        spec_apply(s, spec_decide(s, e, target, alive), new_pid) == s,
{
}

/// Toggle cycle: from `Idle`, a qualifying press spawns and leaves
/// `Running(p)`; a second qualifying press while that child is still alive
/// terminates exactly `p` and leaves `Idle` again.
pub proof fn lemma_toggle_cycle(e: Event, target: u32, alive: bool, p: u32, q: u32)
    requires
        qualifying(e, target),
    ensures
        ({
            let a1 = spec_decide(ToggleState::Idle, e, target, alive);
            let s1 = spec_apply(ToggleState::Idle, a1, p);
            let a2 = spec_decide(s1, e, target, true);
            let s2 = spec_apply(s1, a2, q);
            a1 == Action::Spawn && s1 == ToggleState::Running(p) && a2 == Action::Terminate(p)
                && s2 == ToggleState::Idle
        }),
{
}

/// Relaunch after independent exit: a qualifying press over a tracked child
/// that is no longer alive decides a spawn — never a signal to the dead id —
/// and the state then tracks the freshly spawned child.
pub proof fn lemma_relaunch_after_exit(e: Event, target: u32, p: u32, q: u32)
    requires
        qualifying(e, target),
    ensures
        spec_decide(ToggleState::Running(p), e, target, false) == Action::Spawn,
        spec_apply(
            ToggleState::Running(p),
            spec_decide(ToggleState::Running(p), e, target, false),
            q,
        ) == ToggleState::Running(q),
{
}

} // verus!
