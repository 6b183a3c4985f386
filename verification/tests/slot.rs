use multi_isolate::config::{BootstrapConfig, PermissionSet};
use multi_isolate::loader::MainModuleLoader;
use multi_isolate::slot::{
    Slot, SlotAction, SlotError, SlotErrorKind, SlotEvent, SlotReport, SlotState,
};
use multi_isolate::source::ProgramSource;

fn a_loader() -> MainModuleLoader {
    MainModuleLoader::new(ProgramSource::script(String::from("1;"))).unwrap()
}

fn after_completions(identity: usize, done: usize) -> Slot {
    let mut slot = Slot::new(identity);
    for _ in 0..done {
        slot = slot.step(SlotEvent::Completed);
    }
    slot
}

fn same_config(a: &BootstrapConfig, b: &BootstrapConfig) -> bool {
    format!("{:?}", a) == format!("{:?}", b)
}

#[test]
fn a_new_slot_is_created() {
    let slot = Slot::new(2);
    assert_eq!(slot.identity, 2);
    assert!(matches!(slot.state, SlotState::Created));
    assert!(!slot.is_finished());
    assert!(slot.report().is_none());
}

#[test]
fn states_follow_in_order() {
    assert!(matches!(after_completions(1, 0).state, SlotState::Created));
    assert!(matches!(after_completions(1, 1).state, SlotState::Bootstrapped));
    assert!(matches!(after_completions(1, 2).state, SlotState::IdentityInjected));
    assert!(matches!(after_completions(1, 3).state, SlotState::MainModuleExecuting));
    assert!(matches!(after_completions(1, 4).state, SlotState::EventLoopDraining));
    assert!(matches!(after_completions(1, 5).state, SlotState::Terminated));
    assert!(matches!(after_completions(1, 6).state, SlotState::Terminated));
    assert!(matches!(after_completions(1, 9).state, SlotState::Terminated));
    for done in 0..5 {
        assert!(!after_completions(1, done).is_finished());
        assert!(after_completions(1, done).report().is_none());
    }
    assert!(after_completions(1, 5).is_finished());
    assert_eq!(after_completions(7, 5).identity, 7);
}

#[test]
fn actions_of_each_state() {
    let loader = a_loader();
    match after_completions(3, 0).next_action(&loader) {
        SlotAction::Bootstrap { config, permissions, main } => {
            assert!(same_config(&config, &BootstrapConfig::standard()));
            assert_eq!(permissions, PermissionSet::AllowAll);
            assert_eq!(main.as_str(), "test:main");
        }
        other => panic!("unexpected {:?}", other),
    }
    match after_completions(3, 1).next_action(&loader) {
        SlotAction::InjectIdentity { script_name, statement } => {
            assert_eq!(script_name, "test:init");
            assert_eq!(statement, "globalThis.runtimeNum = 3;");
        }
        other => panic!("unexpected {:?}", other),
    }
    match after_completions(3, 2).next_action(&loader) {
        SlotAction::ExecuteMainModule { identity } => assert_eq!(identity.as_str(), "test:main"),
        other => panic!("unexpected {:?}", other),
    }
    assert!(matches!(after_completions(3, 3).next_action(&loader), SlotAction::AwaitTopLevel));
    assert!(matches!(after_completions(3, 4).next_action(&loader), SlotAction::DrainEventLoop));
    match after_completions(3, 5).next_action(&loader) {
        SlotAction::ReportTerminated { slot, message } => {
            assert_eq!(slot, 3);
            assert_eq!(message, "Runtime 3 terminated!");
        }
        other => panic!("unexpected {:?}", other),
    }
}

#[test]
fn every_slot_is_bootstrapped_alike() {
    let loader = a_loader();
    let mut configs: Vec<String> = Vec::new();
    for identity in 1..=4usize {
        match Slot::new(identity).next_action(&loader) {
            SlotAction::Bootstrap { config, permissions, main } => {
                assert_eq!(permissions, PermissionSet::AllowAll);
                assert_eq!(main.as_str(), "test:main");
                configs.push(format!("{:?}", config));
            }
            other => panic!("unexpected {:?}", other),
        }
    }
    assert!(configs.iter().all(|c| c == &configs[0]));
}

#[test]
fn each_slot_is_injected_its_own_identity() {
    let loader = a_loader();
    let mut seen: Vec<String> = Vec::new();
    for identity in 1..=4usize {
        match after_completions(identity, 1).next_action(&loader) {
            SlotAction::InjectIdentity { statement, .. } => {
                assert_eq!(statement, format!("globalThis.runtimeNum = {};", identity));
                assert!(!seen.contains(&statement));
                seen.push(statement);
            }
            other => panic!("unexpected {:?}", other),
        }
    }
    assert_eq!(seen.len(), 4);
}

#[test]
fn a_fault_fails_the_slot_with_the_kind_of_its_step() {
    let kinds = [
        SlotErrorKind::Bootstrap,
        SlotErrorKind::Bootstrap,
        SlotErrorKind::Execution,
        SlotErrorKind::Execution,
        SlotErrorKind::Execution,
    ];
    for (done, kind) in kinds.iter().enumerate() {
        let slot = after_completions(5, done).step(SlotEvent::Faulted(String::from("boom")));
        assert!(slot.is_finished());
        assert_eq!(slot.identity, 5);
        match &slot.state {
            SlotState::Failed(error) => {
                assert_eq!(error.slot, 5);
                assert_eq!(error.kind, *kind);
                assert_eq!(error.message, "boom");
            }
            other => panic!("unexpected {:?}", other),
        }
        match slot.report() {
            Some(SlotReport::Failed(error)) => {
                assert_eq!(error.slot, 5);
                assert_eq!(error.kind, *kind);
                assert_eq!(error.message, "boom");
            }
            other => panic!("unexpected {:?}", other),
        }
        match slot.next_action(&a_loader()) {
            SlotAction::ReportFailure { error } => assert_eq!(error.message, "boom"),
            other => panic!("unexpected {:?}", other),
        }
    }
}

#[test]
fn a_failed_slot_stays_failed_with_its_first_error() {
    let mut slot = after_completions(2, 3).step(SlotEvent::Faulted(String::from("first")));
    slot = slot.step(SlotEvent::Completed);
    slot = slot.step(SlotEvent::Faulted(String::from("second")));
    slot = slot.step(SlotEvent::Completed);
    match &slot.state {
        SlotState::Failed(error) => {
            assert_eq!(error.message, "first");
            assert_eq!(error.kind, SlotErrorKind::Execution);
            assert_eq!(error.slot, 2);
        }
        other => panic!("unexpected {:?}", other),
    }
}

#[test]
fn a_terminated_slot_stays_terminated() {
    let slot = after_completions(2, 5).step(SlotEvent::Faulted(String::from("late")));
    assert!(matches!(slot.state, SlotState::Terminated));
    match slot.report() {
        Some(SlotReport::Terminated(identity)) => assert_eq!(identity, 2),
        other => panic!("unexpected {:?}", other),
    }
}

#[test]
fn duplicates_keep_the_fields() {
    let error = SlotError { slot: 9, kind: SlotErrorKind::Bootstrap, message: String::from("m") };
    let copy = error.duplicate();
    assert_eq!(copy.slot, 9);
    assert_eq!(copy.kind, SlotErrorKind::Bootstrap);
    assert_eq!(copy.message, "m");
    match SlotReport::Failed(error).duplicate() {
        SlotReport::Failed(e) => assert_eq!(e.message, "m"),
        other => panic!("unexpected {:?}", other),
    }
    match SlotReport::Terminated(4).duplicate() {
        SlotReport::Terminated(slot) => assert_eq!(slot, 4),
        other => panic!("unexpected {:?}", other),
    }
}
