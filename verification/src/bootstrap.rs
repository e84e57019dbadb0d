//! The order in which the process starts up.
//!
//! Startup is a fixed list of actions. A `Bootstrap` counts how many of them
//! are done: it names the next one and moves on when told that it went well.
//! The first failure is fatal.

use vstd::prelude::*;

verus! {

/// A power that the application registers once at startup.
#[derive(Debug, Clone, Copy, PartialEq, Eq, Structural)]
pub enum Capability {
    Shell,
    Notification,
    Http,
    Store,
    Opener,
}

/// One action of the startup.
#[derive(Debug, Clone, Copy, PartialEq, Eq, Structural)]
pub enum BootAction {
    /// Set up the process-wide log sink.
    InitLogging,
    /// Register one capability with the application builder.
    Register(Capability),
    /// Bind the table of invocable operations.
    BindCommands,
    /// Start the event loop, which blocks until the application shuts down.
    StartEventLoop,
}

/// How far the startup has come.
#[derive(Debug, Clone, Copy, PartialEq, Eq, Structural)]
pub enum Phase {
    Uninitialized,
    LoggingReady,
    CapabilitiesRegistered,
    CommandsBound,
    Running,
}

/// What the program reports of the action it was told to perform.
#[derive(Debug, Clone, PartialEq, Eq)]
pub enum StepOutcome {
    Completed,
    Failed(String),
}

/// A failure during startup. The process ends with it.
#[derive(Debug, Clone, PartialEq, Eq)]
pub struct BootstrapFatal {
    /// The action that failed.
    pub action: BootAction,
    /// What the failing part said.
    pub diagnostic: String,
}

/// The capabilities, in the order in which they are registered.
pub open spec fn capabilities() -> Seq<Capability> {
    seq![
        Capability::Shell,
        Capability::Notification,
        Capability::Http,
        Capability::Store,
        Capability::Opener,
    ]
}

/// The actions of the startup, in order.
pub open spec fn boot_sequence() -> Seq<BootAction> {
    seq![
        BootAction::InitLogging,
        BootAction::Register(Capability::Shell),
        BootAction::Register(Capability::Notification),
        BootAction::Register(Capability::Http),
        BootAction::Register(Capability::Store),
        BootAction::Register(Capability::Opener),
        BootAction::BindCommands,
        BootAction::StartEventLoop,
    ]
}

/// The phase once `done` actions are completed.
pub open spec fn phase_at(done: nat) -> Phase {
    if done == 0 {
        Phase::Uninitialized
    } else if done <= 5 {
        Phase::LoggingReady
    } else if done == 6 {
        Phase::CapabilitiesRegistered
    } else if done == 7 {
        Phase::CommandsBound
    } else {
        Phase::Running
    }
}

/// How many capabilities are registered once `done` actions are completed.
pub open spec fn registered_at(done: nat) -> nat {
    if done == 0 {
        0
    } else if done <= 5 {
        (done - 1) as nat
    } else {
        5
    }
}

/// The state of the startup.
#[derive(Debug, Clone, Copy, PartialEq, Eq)]
pub struct Bootstrap {
    done: u8,
}

impl Bootstrap {
    #[verifier::type_invariant]
    spec fn in_range(self) -> bool {
        self.done <= 8
    }

    /// The number of startup actions that are completed, at most eight.
    pub closed spec fn completed(&self) -> nat {
        self.done as nat
    }

    /// The state before anything has been done.
    pub fn new() -> (state: Bootstrap)
        ensures
            state.completed() == 0,
    {
        Bootstrap { done: 0 }
    }

    /// The number of startup actions that are completed.
    pub fn steps_completed(&self) -> (done: u8)
        ensures
            done == self.completed(),
            done <= 8,
    {
        proof {
            use_type_invariant(self);
        }
        self.done
    }

    /// The phase that the startup is in.
    pub fn phase(&self) -> (phase: Phase)
        ensures
            phase == phase_at(self.completed()),
    {
        if self.done == 0 {
            Phase::Uninitialized
        } else if self.done <= 5 {
            Phase::LoggingReady
        } else if self.done == 6 {
            Phase::CapabilitiesRegistered
        } else if self.done == 7 {
            Phase::CommandsBound
        } else {
            Phase::Running
        }
    }

    /// The capabilities registered so far, oldest first. The list only grows.
    pub fn registered(&self) -> (list: Vec<Capability>)
        ensures
            list@ == capabilities().take(registered_at(self.completed()) as int),
    {
        proof {
            use_type_invariant(self);
        }
        let mut list: Vec<Capability> = Vec::new();
        if self.done >= 2 {
            list.push(Capability::Shell);
        }
        if self.done >= 3 {
            list.push(Capability::Notification);
        }
        if self.done >= 4 {
            list.push(Capability::Http);
        }
        if self.done >= 5 {
            list.push(Capability::Store);
        }
        if self.done >= 6 {
            list.push(Capability::Opener);
        }
        assert(list@ =~= capabilities().take(registered_at(self.completed()) as int));
        list
    }

    /// The action to perform next: none once the event loop runs.
    pub fn next_action(&self) -> (action: Option<BootAction>)
        ensures
            self.completed() <= 8,
            self.completed() < 8 ==> action == Some(boot_sequence()[self.completed() as int]),
            self.completed() == 8 ==> action is None,
    {
        proof {
            use_type_invariant(self);
        }
        if self.done == 0 {
            Some(BootAction::InitLogging)
        } else if self.done == 1 {
            Some(BootAction::Register(Capability::Shell))
        } else if self.done == 2 {
            Some(BootAction::Register(Capability::Notification))
        } else if self.done == 3 {
            Some(BootAction::Register(Capability::Http))
        } else if self.done == 4 {
            Some(BootAction::Register(Capability::Store))
        } else if self.done == 5 {
            Some(BootAction::Register(Capability::Opener))
        } else if self.done == 6 {
            Some(BootAction::BindCommands)
        } else if self.done == 7 {
            Some(BootAction::StartEventLoop)
        } else {
            None
        }
    }

    /// Takes the report on the action that `next_action` named. A completed
    /// action moves the startup one step on; a failed one is fatal and names
    /// that action. Once the event loop runs, nothing is pending and every
    /// report leaves the state as it is.
    pub fn advance(self, outcome: StepOutcome) -> (next: Result<Bootstrap, BootstrapFatal>)
        ensures
            self.completed() == 8 ==> next == Ok::<Bootstrap, BootstrapFatal>(self),
            self.completed() < 8 && outcome is Completed ==> next is Ok && next->Ok_0.completed()
                == self.completed() + 1,
            self.completed() < 8 && outcome is Failed ==> next == Err::<Bootstrap, BootstrapFatal>(
                BootstrapFatal {
                    action: boot_sequence()[self.completed() as int],
                    diagnostic: outcome->Failed_0,
                },
            ),
    {
        proof {
            use_type_invariant(self);
        }
        match self.next_action() {
            None => Ok(self),
            Some(action) => match outcome {
                StepOutcome::Completed => Ok(Bootstrap { done: self.done + 1 }),
                StepOutcome::Failed(diagnostic) => Err(BootstrapFatal { action, diagnostic }),
            },
        }
    }
}

/// The whole startup in order: the actions that a process performs, one after
/// the other, when each of them goes well.
pub fn run() -> (actions: Vec<BootAction>)
    ensures
        actions@ == boot_sequence(),
{
    let mut state = Bootstrap::new();
    let mut actions: Vec<BootAction> = Vec::new();
    let mut pending = state.next_action();
    while pending.is_some()
        invariant
            state.completed() <= 8,
            actions@ == boot_sequence().take(state.completed() as int),
            state.completed() < 8 ==> pending == Some(boot_sequence()[state.completed() as int]),
            state.completed() == 8 ==> pending is None,
        decreases 8 - state.completed(),
    {
        let action = pending.unwrap();
        let ghost before: nat = state.completed();
        match state.advance(StepOutcome::Completed) {
            Ok(next) => {
                state = next;
            },
            Err(_) => {},
        }
        actions.push(action);
        assert(actions@ =~= boot_sequence().take(before as int + 1));
        pending = state.next_action();
    }
    assert(actions@ =~= boot_sequence());
    actions
}

/// The log sink is set up before any capability registers.
pub proof fn lemma_logging_before_capabilities(i: int, j: int)
    requires
        0 <= i < boot_sequence().len(),
        0 <= j < boot_sequence().len(),
        boot_sequence()[i] == BootAction::InitLogging,
        boot_sequence()[j] is Register,
    ensures
        i < j,
        phase_at(j as nat) == Phase::LoggingReady,
{
}

/// Every capability is registered before the operations are bound.
pub proof fn lemma_capabilities_before_commands(c: Capability, j: int)
    requires
        0 <= j < boot_sequence().len(),
        boot_sequence()[j] == BootAction::BindCommands,
    ensures
        exists|i: int| 0 <= i < j && boot_sequence()[i] == BootAction::Register(c),
        registered_at(j as nat) == capabilities().len(),
        phase_at(j as nat) == Phase::CapabilitiesRegistered,
{
    let i: int = match c {
        Capability::Shell => 1,
        Capability::Notification => 2,
        Capability::Http => 3,
        Capability::Store => 4,
        Capability::Opener => 5,
    };
    assert(boot_sequence()[i] == BootAction::Register(c));
}

/// The event loop starts last: after the operations are bound, and with
/// nothing left to do once it runs.
pub proof fn lemma_event_loop_last(i: int, j: int)
    requires
        0 <= i < boot_sequence().len(),
        0 <= j < boot_sequence().len(),
        boot_sequence()[i] == BootAction::BindCommands,
        boot_sequence()[j] == BootAction::StartEventLoop,
    ensures
        i < j,
        j + 1 == boot_sequence().len(),
        phase_at(j as nat) == Phase::CommandsBound,
        phase_at((j + 1) as nat) == Phase::Running,
{
}

/// The set of registered capabilities only grows, and stays as it is once
/// all of them are registered.
pub proof fn lemma_registered_grows(earlier: nat, later: nat)
    requires
        earlier <= later,
    ensures
        registered_at(earlier) <= registered_at(later) <= capabilities().len(),
        capabilities().take(registered_at(earlier) as int) == capabilities().take(
            registered_at(later) as int,
        ).take(registered_at(earlier) as int),
        earlier >= 6 ==> registered_at(later) == registered_at(earlier),
{
    assert(capabilities().take(registered_at(earlier) as int) =~= capabilities().take(
        registered_at(later) as int,
    ).take(registered_at(earlier) as int));
}

/// Each capability is registered exactly once.
pub proof fn lemma_registered_once(i: int, j: int)
    requires
        0 <= i < boot_sequence().len(),
        0 <= j < boot_sequence().len(),
        boot_sequence()[i] is Register,
        boot_sequence()[i] == boot_sequence()[j],
    ensures
        i == j,
{
}

} // verus!
