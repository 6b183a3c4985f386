use multi_isolate::loader::MainModuleLoader;
use multi_isolate::orchestrator::{join_all, slot_identities, FailFastJoin, JoinOutcome};
use multi_isolate::slot::{Slot, SlotAction, SlotError, SlotErrorKind, SlotEvent, SlotReport};
use multi_isolate::source::ProgramSource;

fn failure(slot: usize, message: &str) -> SlotReport {
    SlotReport::Failed(SlotError {
        slot,
        kind: SlotErrorKind::Execution,
        message: String::from(message),
    })
}

/// Stands in for an isolate that runs a program which reads its injected
/// identity and throws if it is `forbidden`.
fn run_slot(identity: usize, loader: &MainModuleLoader, forbidden: Option<usize>) -> SlotReport {
    let mut slot = Slot::new(identity);
    let mut injected: Option<usize> = None;
    loop {
        let event = match slot.next_action(loader) {
            SlotAction::Bootstrap { .. } => SlotEvent::Completed,
            SlotAction::InjectIdentity { statement, .. } => {
                let number = statement
                    .strip_prefix("globalThis.runtimeNum = ")
                    .and_then(|rest| rest.strip_suffix(";"))
                    .unwrap();
                injected = Some(number.parse().unwrap());
                SlotEvent::Completed
            }
            SlotAction::ExecuteMainModule { identity } => {
                assert!(loader.load(&identity).is_ok());
                SlotEvent::Completed
            }
            SlotAction::AwaitTopLevel => {
                if injected == forbidden {
                    SlotEvent::Faulted(format!("Uncaught Error: runtime {}", injected.unwrap()))
                } else {
                    SlotEvent::Completed
                }
            }
            SlotAction::DrainEventLoop => SlotEvent::Completed,
            SlotAction::ReportTerminated { .. } | SlotAction::ReportFailure { .. } => {
                assert_eq!(injected, Some(identity));
                return slot.report().unwrap();
            }
        };
        slot = slot.step(event);
    }
}

#[test]
fn slots_are_started_in_ascending_order() {
    assert_eq!(slot_identities(4), vec![1, 2, 3, 4]);
    assert_eq!(slot_identities(1), vec![1]);
    assert_eq!(slot_identities(0), Vec::<usize>::new());
}

#[test]
fn four_slots_of_which_the_third_throws() {
    let loader = MainModuleLoader::new(ProgramSource::script(String::from("1;"))).unwrap();
    let reports: Vec<SlotReport> =
        slot_identities(4).into_iter().map(|id| run_slot(id, &loader, Some(3))).collect();
    match join_all(4, &reports) {
        JoinOutcome::Failure(error) => {
            assert_eq!(error.slot, 3);
            assert_eq!(error.kind, SlotErrorKind::Execution);
            assert_eq!(error.message, "Uncaught Error: runtime 3");
        }
        other => panic!("unexpected {:?}", other),
    }
    // The same reports in another order of completion: still the failure of slot 3.
    let reordered: Vec<SlotReport> =
        [3usize, 1, 4, 2].iter().map(|id| run_slot(*id, &loader, Some(3))).collect();
    match join_all(4, &reordered) {
        JoinOutcome::Failure(error) => assert_eq!(error.slot, 3),
        other => panic!("unexpected {:?}", other),
    }
}

#[test]
fn four_slots_that_all_terminate() {
    let loader = MainModuleLoader::new(ProgramSource::script(String::from("1;"))).unwrap();
    for order in [[1usize, 2, 3, 4], [4, 3, 2, 1], [2, 4, 1, 3]] {
        let mut join = FailFastJoin::new(4);
        for (seen, identity) in order.iter().enumerate() {
            assert!(matches!(join.outcome(), JoinOutcome::Pending));
            assert_eq!(join.terminated().len(), seen);
            join = join.observe(run_slot(*identity, &loader, None));
        }
        assert!(matches!(join.outcome(), JoinOutcome::Success));
        assert_eq!(join.terminated(), &order.to_vec());
        assert_eq!(join.terminated().len(), 4);
        assert_eq!(join.total(), 4);
        let reports: Vec<SlotReport> =
            order.iter().map(|id| run_slot(*id, &loader, None)).collect();
        assert!(matches!(join_all(4, &reports), JoinOutcome::Success));
    }
}

#[test]
fn the_first_failure_is_the_one_that_is_kept() {
    let reports = vec![
        SlotReport::Terminated(2),
        failure(4, "first"),
        failure(1, "second"),
        SlotReport::Terminated(3),
    ];
    match join_all(4, &reports) {
        JoinOutcome::Failure(error) => {
            assert_eq!(error.slot, 4);
            assert_eq!(error.message, "first");
        }
        other => panic!("unexpected {:?}", other),
    }
    let mut join = FailFastJoin::new(4);
    for report in reports {
        join = join.observe(report);
    }
    match join.outcome() {
        JoinOutcome::Failure(error) => assert_eq!(error.message, "first"),
        other => panic!("unexpected {:?}", other),
    }
    assert_eq!(join.terminated(), &vec![2]);
}

#[test]
fn a_run_is_pending_until_every_slot_has_terminated() {
    let reports = vec![SlotReport::Terminated(1), SlotReport::Terminated(2)];
    assert!(matches!(join_all(3, &reports), JoinOutcome::Pending));
    assert!(matches!(join_all(3, &Vec::new()), JoinOutcome::Pending));
    assert!(matches!(join_all(2, &reports), JoinOutcome::Success));
}

#[test]
fn a_termination_counts_once_and_only_for_a_slot_of_the_run() {
    let mut join = FailFastJoin::new(3);
    for slot in [2usize, 2, 0, 4, 2, 1] {
        join = join.observe(SlotReport::Terminated(slot));
    }
    assert!(matches!(join.outcome(), JoinOutcome::Pending));
    assert_eq!(join.terminated(), &vec![2, 1]);
    join = join.observe(SlotReport::Terminated(3));
    assert!(matches!(join.outcome(), JoinOutcome::Success));
    assert_eq!(join.terminated(), &vec![2, 1, 3]);
}

#[test]
fn a_run_that_has_succeeded_stays_so() {
    let mut join = FailFastJoin::new(2);
    join = join.observe(SlotReport::Terminated(2));
    join = join.observe(SlotReport::Terminated(1));
    join = join.observe(failure(1, "late"));
    join = join.observe(SlotReport::Terminated(1));
    assert!(matches!(join.outcome(), JoinOutcome::Success));
    assert_eq!(join.terminated(), &vec![2, 1]);
}

#[test]
fn a_run_without_slots_has_succeeded() {
    let join = FailFastJoin::new(0);
    assert!(matches!(join.outcome(), JoinOutcome::Success));
    assert!(matches!(join_all(0, &vec![failure(1, "x")]), JoinOutcome::Success));
}
