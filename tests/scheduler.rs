use executor::execution::Model;
use executor::service::{
    add_execution, get_execution_by_id, list_incomplete_executions, update_execution,
    DescribeOutcome,
};
use executor::status::{ExecutionStatus, RemoteStatus};
use executor::store::ExecutionStore;
use executor::workers::{Phase, SchedulerAction, SchedulerEvent, StatusScheduler};

fn seed(db: &mut ExecutionStore, ids: &[u128]) {
    for id in ids {
        let w = format!("wf-{}", id);
        let r = format!("run-{}", id);
        add_execution(db, *id, Ok((w, r))).unwrap();
    }
}

/// Drives one tick against `db`, answering each poll with `answer`.
fn drive_tick(
    sched: &mut StatusScheduler,
    db: &mut ExecutionStore,
    answer: &dyn Fn(&Model) -> DescribeOutcome,
) -> Vec<u128> {
    let mut polled = Vec::new();
    let mut action = sched.step(SchedulerEvent::Tick);
    loop {
        action = match action {
            SchedulerAction::Sleep => break,
            SchedulerAction::ListIncomplete => {
                sched.step(SchedulerEvent::Listed(list_incomplete_executions(db)))
            }
            SchedulerAction::Describe(m) => {
                polled.push(m.id);
                sched.step(SchedulerEvent::Described(answer(&m)))
            }
            SchedulerAction::Write(id, input) => {
                let _ = update_execution(db, id, input);
                sched.step(SchedulerEvent::Written)
            }
        };
    }
    polled
}

#[test]
fn scheduler_tick_updates_every_polled_record() {
    let mut db = ExecutionStore::new();
    seed(&mut db, &[1, 2, 3]);
    let mut sched = StatusScheduler::new();
    let polled = drive_tick(&mut sched, &mut db, &|m| {
        if m.id == 2 {
            DescribeOutcome::Unavailable
        } else {
            DescribeOutcome::Reported(RemoteStatus::Completed)
        }
    });
    assert_eq!(polled, vec![1, 2, 3]);
    assert_eq!(sched.phase(), Phase::Idle);
    assert_eq!(get_execution_by_id(&db, 1).unwrap().status, ExecutionStatus::Complete);
    assert_eq!(get_execution_by_id(&db, 2).unwrap().status, ExecutionStatus::Running);
    assert_eq!(get_execution_by_id(&db, 3).unwrap().status, ExecutionStatus::Complete);
    let polled = drive_tick(&mut sched, &mut db, &|_| DescribeOutcome::Reported(RemoteStatus::Running));
    assert_eq!(polled, vec![2]);
}

#[test]
fn scheduler_with_nothing_incomplete_sleeps() {
    let mut db = ExecutionStore::new();
    let mut sched = StatusScheduler::new();
    let polled = drive_tick(&mut sched, &mut db, &|_| DescribeOutcome::Unavailable);
    assert!(polled.is_empty());
    assert_eq!(sched.phase(), Phase::Idle);
}

#[test]
fn scheduler_list_failure_ends_tick() {
    let mut sched = StatusScheduler::new();
    assert!(matches!(sched.step(SchedulerEvent::Tick), SchedulerAction::ListIncomplete));
    assert_eq!(sched.phase(), Phase::Listing);
    assert!(matches!(sched.step(SchedulerEvent::ListFailed), SchedulerAction::Sleep));
    assert_eq!(sched.phase(), Phase::Idle);
}

#[test]
fn scheduler_ignores_out_of_phase_reports() {
    let mut sched = StatusScheduler::new();
    assert!(matches!(sched.step(SchedulerEvent::Written), SchedulerAction::Sleep));
    assert_eq!(sched.phase(), Phase::Idle);
    sched.step(SchedulerEvent::Tick);
    assert!(matches!(sched.step(SchedulerEvent::Tick), SchedulerAction::Sleep));
    assert_eq!(sched.phase(), Phase::Listing);
}

#[test]
fn scheduler_writes_polled_status_with_same_identifiers() {
    let mut db = ExecutionStore::new();
    seed(&mut db, &[8]);
    let mut sched = StatusScheduler::new();
    sched.step(SchedulerEvent::Tick);
    let a = sched.step(SchedulerEvent::Listed(list_incomplete_executions(&db)));
    assert!(matches!(a, SchedulerAction::Describe(ref m) if m.id == 8));
    match sched.step(SchedulerEvent::Described(DescribeOutcome::Reported(RemoteStatus::Terminated))) {
        SchedulerAction::Write(id, input) => {
            assert_eq!(id, 8);
            assert_eq!(input.workflow_id, "wf-8");
            assert_eq!(input.run_id, "run-8");
            assert_eq!(input.status, ExecutionStatus::Terminated);
        }
        _ => panic!("expected a write"),
    }
    assert_eq!(sched.phase(), Phase::Writing);
    assert!(matches!(sched.step(SchedulerEvent::Written), SchedulerAction::Sleep));
}
