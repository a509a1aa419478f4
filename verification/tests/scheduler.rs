//! The scheduler state machine, one pass and its cancellation boundary.

use plaza::cache::JobTitleCache;
use plaza::intranet::{IntranetError, IntranetUserDto};
use plaza::scheduler::{SyncAction, SyncEvent, SyncPhase, SyncScheduler};
use plaza::status::Status;
use plaza::SYNC_INTERVAL_SECONDS;

fn roster_record(id: i32, job_title: &str) -> IntranetUserDto {
    IntranetUserDto {
        id,
        hostname: format!("host-{id}"),
        email: format!("p{id}@x.com"),
        full_name: format!("Person {id}"),
        is_enabled: true,
        job_title: String::from(job_title),
        location: None,
        manager: None,
        registered_at: None,
    }
}

#[test]
fn one_pass_walks_all_phases_in_order() {
    let scheduler = SyncScheduler::new();
    assert_eq!(scheduler.phase(), SyncPhase::Idle);

    let (scheduler, action, events) = scheduler.step(SyncEvent::PassDue);
    assert_eq!(scheduler.phase(), SyncPhase::Downloading);
    assert!(matches!(action, SyncAction::FetchRoster));
    assert_eq!(events.len(), 1);
    assert!(matches!(events[0], Status::DownloadingIntranetUsers));

    let roster = vec![
        roster_record(1, "Engineer"),
        roster_record(2, "Manager"),
        roster_record(3, "Engineer"),
    ];
    let (scheduler, action, events) = scheduler.step(SyncEvent::FetchSucceeded(roster));
    assert_eq!(scheduler.phase(), SyncPhase::ReconcilingTitles);
    assert_eq!(events.len(), 1);
    assert!(matches!(events[0], Status::DownloadingIntranetUsersFinished));
    match action {
        SyncAction::ReconcileTitles { job_titles } => {
            assert_eq!(job_titles, vec!["Engineer", "Manager"]);
        }
        other => panic!("unexpected action: {other:?}"),
    }

    let (scheduler, action, events) = scheduler.step(SyncEvent::TitlesReconciled(
        JobTitleCache::new(),
    ));
    assert_eq!(scheduler.phase(), SyncPhase::ReconcilingUsers);
    assert!(events.is_empty());
    match action {
        SyncAction::ReconcileUsers { intranet_users, .. } => {
            assert_eq!(intranet_users.len(), 3);
            assert_eq!(intranet_users[0].id, 1);
        }
        other => panic!("unexpected action: {other:?}"),
    }

    let (scheduler, action, events) = scheduler.step(SyncEvent::UsersReconciled);
    assert_eq!(scheduler.phase(), SyncPhase::Waiting);
    assert!(events.is_empty());
    assert!(matches!(action, SyncAction::Wait { seconds } if seconds == SYNC_INTERVAL_SECONDS));

    // the interval elapses: the next pass begins
    let (scheduler, action, _events) = scheduler.step(SyncEvent::PassDue);
    assert_eq!(scheduler.phase(), SyncPhase::Downloading);
    assert!(matches!(action, SyncAction::FetchRoster));
}

#[test]
fn cancellation_boundary() {
    let scheduler = SyncScheduler::new();
    let (scheduler, _, _) = scheduler.step(SyncEvent::PassDue);
    let (scheduler, _, _) = scheduler.step(SyncEvent::FetchSucceeded(Vec::new()));
    let (scheduler, _, _) = scheduler.step(SyncEvent::TitlesReconciled(JobTitleCache::new()));
    let (scheduler, _, _) = scheduler.step(SyncEvent::UsersReconciled);
    assert_eq!(scheduler.phase(), SyncPhase::Waiting);

    // cancellation while waiting: the loop exits before the next
    // download and nothing more is published
    let (scheduler, action, events) = scheduler.step(SyncEvent::CancellationRequested);
    assert_eq!(scheduler.phase(), SyncPhase::Cancelled);
    assert!(matches!(action, SyncAction::Stop));
    assert!(events.is_empty());

    // cancelled is terminal: even a due pass moves nothing
    let (scheduler, action, events) = scheduler.step(SyncEvent::PassDue);
    assert_eq!(scheduler.phase(), SyncPhase::Cancelled);
    assert!(matches!(action, SyncAction::Stop));
    assert!(events.is_empty());
}

#[test]
fn fetch_failure_is_fatal_to_the_worker() {
    let scheduler = SyncScheduler::new();
    let (scheduler, _, _) = scheduler.step(SyncEvent::PassDue);
    let (scheduler, action, events) = scheduler.step(SyncEvent::FetchFailed(
        IntranetError::FailedToSendRequest(String::from("connection refused")),
    ));
    assert_eq!(scheduler.phase(), SyncPhase::Failed);
    assert!(matches!(action, SyncAction::Stop));
    assert_eq!(events.len(), 1);
    match &events[0] {
        Status::DownloadIntranetUsersError { error } => {
            assert!(matches!(
                error,
                IntranetError::FailedToSendRequest(message) if message == "connection refused"
            ));
        }
        other => panic!("unexpected event: {other:?}"),
    }

    let (scheduler, action, events) = scheduler.step(SyncEvent::PassDue);
    assert_eq!(scheduler.phase(), SyncPhase::Failed);
    assert!(matches!(action, SyncAction::Stop));
    assert!(events.is_empty());
}

#[test]
fn mid_pass_cancellation_is_not_honored() {
    let scheduler = SyncScheduler::new();
    let (scheduler, _, _) = scheduler.step(SyncEvent::PassDue);
    // the baseline design checks cancellation only at the waiting
    // boundary and at fetch start, never mid-pass
    let (scheduler, action, events) = scheduler.step(SyncEvent::CancellationRequested);
    assert_eq!(scheduler.phase(), SyncPhase::Downloading);
    assert!(matches!(action, SyncAction::Continue));
    assert!(events.is_empty());
}
