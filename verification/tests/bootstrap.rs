use dock_badge::bootstrap::{
    run, BootAction, Bootstrap, BootstrapFatal, Capability, Phase, StepOutcome,
};

#[test]
fn run_lists_the_startup_in_order() {
    assert_eq!(
        run(),
        vec![
            BootAction::InitLogging,
            BootAction::Register(Capability::Shell),
            BootAction::Register(Capability::Notification),
            BootAction::Register(Capability::Http),
            BootAction::Register(Capability::Store),
            BootAction::Register(Capability::Opener),
            BootAction::BindCommands,
            BootAction::StartEventLoop,
        ]
    );
}

#[test]
fn logging_comes_before_capabilities_and_capabilities_before_commands() {
    let actions: Vec<BootAction> = run();
    let logging: usize = actions.iter().position(|a| *a == BootAction::InitLogging).unwrap();
    let bind: usize = actions.iter().position(|a| *a == BootAction::BindCommands).unwrap();
    let start: usize = actions.iter().position(|a| *a == BootAction::StartEventLoop).unwrap();
    let mut registrations: usize = 0;
    for (i, action) in actions.iter().enumerate() {
        if matches!(action, BootAction::Register(_)) {
            assert!(logging < i);
            assert!(i < bind);
            registrations += 1;
        }
    }
    assert_eq!(registrations, 5);
    assert!(bind < start);
    assert_eq!(start + 1, actions.len());
}

#[test]
fn new_bootstrap_is_uninitialized() {
    let state = Bootstrap::new();
    assert_eq!(state.phase(), Phase::Uninitialized);
    assert_eq!(state.steps_completed(), 0);
    assert_eq!(state.next_action(), Some(BootAction::InitLogging));
    assert_eq!(state.registered(), Vec::<Capability>::new());
}

#[test]
fn phases_follow_the_steps() {
    let mut state = Bootstrap::new();
    let mut phases: Vec<Phase> = vec![state.phase()];
    while state.next_action().is_some() {
        state = state.advance(StepOutcome::Completed).unwrap();
        phases.push(state.phase());
    }
    assert_eq!(
        phases,
        vec![
            Phase::Uninitialized,
            Phase::LoggingReady,
            Phase::LoggingReady,
            Phase::LoggingReady,
            Phase::LoggingReady,
            Phase::LoggingReady,
            Phase::CapabilitiesRegistered,
            Phase::CommandsBound,
            Phase::Running,
        ]
    );
    assert_eq!(state.steps_completed(), 8);
}

#[test]
fn registered_list_grows_one_by_one() {
    let mut state = Bootstrap::new();
    state = state.advance(StepOutcome::Completed).unwrap();
    assert_eq!(state.registered(), Vec::<Capability>::new());
    state = state.advance(StepOutcome::Completed).unwrap();
    assert_eq!(state.registered(), vec![Capability::Shell]);
    state = state.advance(StepOutcome::Completed).unwrap();
    assert_eq!(state.registered(), vec![Capability::Shell, Capability::Notification]);
    state = state.advance(StepOutcome::Completed).unwrap();
    state = state.advance(StepOutcome::Completed).unwrap();
    assert_eq!(state.phase(), Phase::LoggingReady);
    state = state.advance(StepOutcome::Completed).unwrap();
    assert_eq!(state.phase(), Phase::CapabilitiesRegistered);
    assert_eq!(
        state.registered(),
        vec![
            Capability::Shell,
            Capability::Notification,
            Capability::Http,
            Capability::Store,
            Capability::Opener,
        ]
    );
    assert_eq!(state.next_action(), Some(BootAction::BindCommands));
}

#[test]
fn failed_registration_is_fatal() {
    let mut state = Bootstrap::new();
    state = state.advance(StepOutcome::Completed).unwrap();
    state = state.advance(StepOutcome::Completed).unwrap();
    assert_eq!(
        state.advance(StepOutcome::Failed(String::from("plugin refused"))),
        Err(BootstrapFatal {
            action: BootAction::Register(Capability::Notification),
            diagnostic: String::from("plugin refused"),
        })
    );
}

#[test]
fn failed_event_loop_start_is_fatal() {
    let mut state = Bootstrap::new();
    for _ in 0..7 {
        state = state.advance(StepOutcome::Completed).unwrap();
    }
    assert_eq!(state.phase(), Phase::CommandsBound);
    assert_eq!(
        state.advance(StepOutcome::Failed(String::from("error while running"))),
        Err(BootstrapFatal {
            action: BootAction::StartEventLoop,
            diagnostic: String::from("error while running"),
        })
    );
}

#[test]
fn running_is_terminal() {
    let mut state = Bootstrap::new();
    for _ in 0..8 {
        state = state.advance(StepOutcome::Completed).unwrap();
    }
    assert_eq!(state.phase(), Phase::Running);
    assert_eq!(state.next_action(), None);
    assert_eq!(state.advance(StepOutcome::Completed), Ok(state));
    assert_eq!(state.advance(StepOutcome::Failed(String::from("late"))), Ok(state));
}

#[test]
fn run_is_reachable_from_the_crate_root() {
    assert_eq!(dock_badge::run(), run());
    assert_eq!(dock_badge::run().len(), 8);
}
