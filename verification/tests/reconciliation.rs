//! The two reconciliation stages over the in-memory store.

use plaza::cache::JobTitleCache;
use plaza::intranet::IntranetUserDto;
use plaza::job_title_sync::{dedup_labels, run_job_title_pass};
use plaza::status::{Status, StorageError, UserSynchronizationError, UserSynchronizationErrorWrapper};
use plaza::uow::{CreateUserArgs, LocalStore};
use plaza::user_sync::{
    decide_user_change, plan_user_sync, run_user_pass, UserChange, UserOutcome,
};

fn roster_record(id: i32, email: &str, full_name: &str, job_title: &str) -> IntranetUserDto {
    IntranetUserDto {
        id,
        hostname: format!("host-{id}"),
        email: String::from(email),
        full_name: String::from(full_name),
        is_enabled: true,
        job_title: String::from(job_title),
        location: None,
        manager: None,
        registered_at: None,
    }
}

/// One full pass: job titles first, then users through the fresh cache.
fn run_full_pass(
    store: &mut LocalStore,
    roster: &Vec<IntranetUserDto>,
) -> (JobTitleCache, Vec<UserOutcome>, Vec<Status>) {
    let labels = dedup_labels(roster);
    let (cache, mut events) = run_job_title_pass(store, &labels);
    let (outcomes, mut user_events) = run_user_pass(store, &cache, roster);
    events.append(&mut user_events);
    (cache, outcomes, events)
}

#[test]
fn cache_completeness_two_new_labels() {
    let mut store = LocalStore::new();
    let labels = vec![String::from("Engineer"), String::from("Manager")];
    let (cache, _events) = run_job_title_pass(&mut store, &labels);

    assert_eq!(cache.len(), 2);
    assert_eq!(store.job_titles().len(), 2);
    let engineer_id = cache.get(&String::from("Engineer")).unwrap();
    let manager_id = cache.get(&String::from("Manager")).unwrap();
    assert_ne!(engineer_id, manager_id);
    assert_eq!(store.job_titles()[0].intranet_name, "Engineer");
    assert_eq!(store.job_titles()[1].intranet_name, "Manager");
    assert!(cache.get(&String::from("Courier")).is_none());
}

#[test]
fn job_title_pass_creates_no_duplicate_rows() {
    let mut store = LocalStore::new();
    let labels = vec![String::from("Engineer")];
    let (first_cache, _) = run_job_title_pass(&mut store, &labels);
    let (second_cache, _) = run_job_title_pass(&mut store, &labels);
    assert_eq!(store.job_titles().len(), 1);
    assert_eq!(
        first_cache.get(&String::from("Engineer")),
        second_cache.get(&String::from("Engineer"))
    );
}

#[test]
fn dedup_labels_keeps_first_occurrences_in_order() {
    let roster = vec![
        roster_record(1, "a@x.com", "A", "B-label"),
        roster_record(2, "b@x.com", "B", "A-label"),
        roster_record(3, "c@x.com", "C", "B-label"),
        roster_record(4, "d@x.com", "D", "C-label"),
        roster_record(5, "e@x.com", "E", "A-label"),
    ];
    let labels = dedup_labels(&roster);
    assert_eq!(labels, vec!["B-label", "A-label", "C-label"]);
}

#[test]
fn new_hire_scenario() {
    let mut store = LocalStore::new();
    let roster = vec![roster_record(42, "a@x.com", "A B", "Courier")];
    let (cache, outcomes, _events) = run_full_pass(&mut store, &roster);

    let courier = store
        .get_job_title_by_intranet_name(&String::from("Courier"))
        .expect("the Courier job title to exist after the pass");
    assert_eq!(courier.intranet_name, "Courier");
    assert_eq!(cache.get(&String::from("Courier")), Some(courier.id));

    assert_eq!(outcomes, vec![UserOutcome::Created]);
    let user = store
        .find_user_by_ad_id(42)
        .expect("the new hire to exist after the pass");
    assert_eq!(user.ad_id, Some(42));
    assert_eq!(user.email.as_deref(), Some("a@x.com"));
    assert_eq!(user.full_name, "A B");
    assert_eq!(user.job_title_id, courier.id);
    assert_eq!(user.password, None);
}

#[test]
fn update_semantics_changed_full_name() {
    let mut store = LocalStore::new();
    let first_roster = vec![roster_record(7, "g@x.com", "Old Name", "Engineer")];
    run_full_pass(&mut store, &first_roster);

    // give the stored user a password, as a login flow would have
    let engineer_id = store
        .get_job_title_by_intranet_name(&String::from("Engineer"))
        .unwrap()
        .id;
    let keeper_id = store.create_user(&CreateUserArgs {
        ad_id: Some(8),
        email: Some(String::from("keeper@x.com")),
        hashed_password: Some(String::from("bcrypt-hash")),
        full_name: String::from("Keeper"),
        job_title_id: engineer_id,
        is_active: true,
    });

    let second_roster = vec![
        roster_record(7, "g@x.com", "New Name", "Engineer"),
        roster_record(8, "keeper@x.com", "Keeper Renamed", "Engineer"),
    ];
    let (_cache, outcomes, _events) = run_full_pass(&mut store, &second_roster);
    assert_eq!(outcomes, vec![UserOutcome::Updated, UserOutcome::Updated]);

    let renamed = store.find_user_by_ad_id(7).unwrap();
    assert_eq!(renamed.full_name, "New Name");
    assert_eq!(renamed.email.as_deref(), Some("g@x.com"));
    assert_eq!(renamed.job_title_id, engineer_id);

    let keeper = store.find_user_by_ad_id(8).unwrap();
    assert_eq!(keeper.id, keeper_id);
    assert_eq!(keeper.full_name, "Keeper Renamed");
    // the password hash is never touched by the engine
    assert_eq!(keeper.password.as_deref(), Some("bcrypt-hash"));
}

#[test]
fn idempotence_second_pass_writes_nothing() {
    let mut store = LocalStore::new();
    let roster = vec![
        roster_record(1, "a@x.com", "A", "Engineer"),
        roster_record(2, "b@x.com", "B", "Manager"),
        roster_record(3, "c@x.com", "C", "Engineer"),
    ];
    let (_, first_outcomes, _) = run_full_pass(&mut store, &roster);
    assert_eq!(
        first_outcomes,
        vec![UserOutcome::Created, UserOutcome::Created, UserOutcome::Created]
    );
    let titles_after_first = store.job_titles().len();
    let users_after_first = store.users().len();

    let (_, second_outcomes, _) = run_full_pass(&mut store, &roster);
    assert_eq!(
        second_outcomes,
        vec![UserOutcome::Unchanged, UserOutcome::Unchanged, UserOutcome::Unchanged]
    );
    assert_eq!(store.job_titles().len(), titles_after_first);
    assert_eq!(store.users().len(), users_after_first);
}

#[test]
fn cache_miss_propagation() {
    let mut store = LocalStore::new();
    // only the Engineer label is reconciled; the Manager label stays
    // out of the cache, as it would after a label-scoped failure
    let labels = vec![String::from("Engineer")];
    let (cache, _) = run_job_title_pass(&mut store, &labels);

    let roster = vec![
        roster_record(1, "a@x.com", "A", "Engineer"),
        roster_record(2, "b@x.com", "B", "Manager"),
        roster_record(3, "c@x.com", "C", "Engineer"),
    ];
    let (outcomes, events) = run_user_pass(&mut store, &cache, &roster);

    assert_eq!(
        outcomes,
        vec![UserOutcome::Created, UserOutcome::CacheMiss, UserOutcome::Created]
    );
    assert!(store.find_user_by_ad_id(1).is_some());
    assert!(store.find_user_by_ad_id(2).is_none());
    assert!(store.find_user_by_ad_id(3).is_some());

    let mut miss_errors = 0;
    for event in &events {
        if let Status::UserSynchronizationError { current_item, error, .. } = event {
            assert_eq!(*current_item, 2);
            assert_eq!(error.intranet_user.as_ref().unwrap().id, 2);
            assert!(matches!(
                error.error,
                UserSynchronizationError::FailedToGetJobTitleIdFromCache(ref label)
                    if label == "Manager"
            ));
            miss_errors += 1;
        }
    }
    assert_eq!(miss_errors, 1);
}

#[test]
fn fault_isolation_three_records() {
    let mut store = LocalStore::new();
    let first_roster = vec![
        roster_record(1, "a@x.com", "A", "Engineer"),
        roster_record(2, "b@x.com", "B", "Engineer"),
        roster_record(3, "c@x.com", "C", "Engineer"),
    ];
    run_full_pass(&mut store, &first_roster);

    // every record now needs an update; the second one's transaction is
    // simulated to fail, as the embedding application would experience it
    let renamed_roster = vec![
        roster_record(1, "a@x.com", "A2", "Engineer"),
        roster_record(2, "b@x.com", "B2", "Engineer"),
        roster_record(3, "c@x.com", "C2", "Engineer"),
    ];
    let labels = dedup_labels(&renamed_roster);
    let (cache, _) = run_job_title_pass(&mut store, &labels);

    let total = renamed_roster.len() as u32;
    let mut events: Vec<Status> = Vec::new();
    for (index, record) in renamed_roster.iter().enumerate() {
        let current_item = (index as u32) + 1;
        let job_title_id = match plan_user_sync(&cache, record) {
            Ok(id) => id,
            Err(error) => {
                events.push(Status::UserSynchronizationError { current_item, total, error });
                continue;
            }
        };
        let existing = store.find_user_by_ad_id(record.id);
        match decide_user_change(&existing, record, job_title_id) {
            UserChange::Update(args) => {
                if record.id == 2 {
                    // the simulated storage failure: report, do not apply
                    events.push(Status::UserSynchronizationError {
                        current_item,
                        total,
                        error: UserSynchronizationErrorWrapper {
                            user_entity: existing,
                            intranet_user: Some(record.clone()),
                            error: UserSynchronizationError::FailedToUpdateExistingUser {
                                args,
                                error: StorageError {
                                    message: String::from("connection reset"),
                                },
                            },
                        },
                    });
                } else {
                    store.update_user(&args);
                }
            }
            UserChange::Create(args) => {
                store.create_user(&args);
            }
            UserChange::NoChange => {}
        }
    }

    assert_eq!(store.find_user_by_ad_id(1).unwrap().full_name, "A2");
    assert_eq!(store.find_user_by_ad_id(2).unwrap().full_name, "B");
    assert_eq!(store.find_user_by_ad_id(3).unwrap().full_name, "C2");

    let error_events: Vec<&Status> = events
        .iter()
        .filter(|event| matches!(event, Status::UserSynchronizationError { .. }))
        .collect();
    assert_eq!(error_events.len(), 1);
    match error_events[0] {
        Status::UserSynchronizationError { current_item, error, .. } => {
            assert_eq!(*current_item, 2);
            assert_eq!(error.intranet_user.as_ref().unwrap().id, 2);
        }
        _ => unreachable!(),
    }
}

#[test]
fn decide_user_change_builds_exact_create_arguments() {
    let record = roster_record(11, "n@x.com", "N", "Engineer");
    match decide_user_change(&None, &record, 5) {
        UserChange::Create(args) => {
            assert_eq!(args.ad_id, Some(11));
            assert_eq!(args.email.as_deref(), Some("n@x.com"));
            assert_eq!(args.full_name, "N");
            assert_eq!(args.hashed_password, None);
            assert_eq!(args.job_title_id, 5);
            assert!(args.is_active);
        }
        other => panic!("unexpected change: {other:?}"),
    }
}

#[test]
fn decide_user_change_leaves_matching_rows_alone() {
    let mut store = LocalStore::new();
    let roster = vec![roster_record(12, "m@x.com", "M", "Engineer")];
    let (cache, _, _) = run_full_pass(&mut store, &roster);
    let job_title_id = cache.get(&String::from("Engineer")).unwrap();
    let existing = store.find_user_by_ad_id(12);
    assert!(matches!(
        decide_user_change(&existing, &roster[0], job_title_id),
        UserChange::NoChange
    ));
}

#[test]
fn decide_user_change_preserves_password_in_updates() {
    let mut store = LocalStore::new();
    let engineer_id = {
        let labels = vec![String::from("Engineer")];
        let (cache, _) = run_job_title_pass(&mut store, &labels);
        cache.get(&String::from("Engineer")).unwrap()
    };
    store.create_user(&CreateUserArgs {
        ad_id: Some(13),
        email: Some(String::from("old@x.com")),
        hashed_password: Some(String::from("hash-13")),
        full_name: String::from("Old"),
        job_title_id: engineer_id,
        is_active: true,
    });
    let record = roster_record(13, "new@x.com", "New", "Engineer");
    let existing = store.find_user_by_ad_id(13);
    match decide_user_change(&existing, &record, engineer_id) {
        UserChange::Update(args) => {
            assert_eq!(args.ad_id, Some(13));
            assert_eq!(args.email.as_deref(), Some("new@x.com"));
            assert_eq!(args.full_name, "New");
            assert_eq!(args.hashed_password.as_deref(), Some("hash-13"));
            assert_eq!(args.job_title_id, engineer_id);
        }
        other => panic!("unexpected change: {other:?}"),
    }
}
