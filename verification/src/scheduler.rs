//! The scheduler: the state machine that drives one reconciliation pass
//! after another until it is cancelled.
//!
//! The machine decides; the embedding application acts.  It feeds every
//! completed piece of outside work back as a [`SyncEvent`] and performs
//! the [`SyncAction`] that [`SyncScheduler::step`] returns: fetch the
//! roster, run the two reconciliation stages, wait out the interval, or
//! stop.  A fetch failure is fatal to the whole worker; cancellation is
//! honored at the waiting boundary and at fetch start, never mid-pass.

use vstd::prelude::*;

use crate::cache::JobTitleCache;
use crate::intranet::{IntranetError, IntranetErrorView, IntranetUserDto, IntranetUserView};
use crate::job_title_sync::{dedup_labels, roster_labels, spec_dedup};
use crate::status::{Status, StatusView};
use crate::SYNC_INTERVAL_SECONDS;

verus! {

/// Where the worker stands.  `Cancelled` and `Failed` are terminal:
/// `Cancelled` through the cancellation signal, `Failed` through a fetch
/// failure, which stops the worker entirely.
#[derive(Clone, Copy, Debug, PartialEq, Eq, Structural)]
pub enum SyncPhase {
    Idle,
    Downloading,
    ReconcilingTitles,
    ReconcilingUsers,
    Waiting,
    Cancelled,
    Failed,
}

/// What the outside world reports back to the machine.
#[derive(Debug)]
pub enum SyncEvent {
    PassDue,
    FetchSucceeded(Vec<IntranetUserDto>),
    FetchFailed(IntranetError),
    TitlesReconciled(JobTitleCache),
    UsersReconciled,
    CancellationRequested,
}

/// Mathematical image of a [`SyncEvent`].
pub enum SyncEventView {
    PassDue,
    FetchSucceeded(Seq<IntranetUserView>),
    FetchFailed(IntranetErrorView),
    TitlesReconciled(Map<Seq<char>, int>),
    UsersReconciled,
    CancellationRequested,
}

impl View for SyncEvent {
    type V = SyncEventView;

    open spec fn view(&self) -> SyncEventView {
        match self {
            SyncEvent::PassDue => SyncEventView::PassDue,
            SyncEvent::FetchSucceeded(users) => SyncEventView::FetchSucceeded(users.deep_view()),
            SyncEvent::FetchFailed(error) => SyncEventView::FetchFailed(error@),
            SyncEvent::TitlesReconciled(cache) => SyncEventView::TitlesReconciled(cache@),
            SyncEvent::UsersReconciled => SyncEventView::UsersReconciled,
            SyncEvent::CancellationRequested => SyncEventView::CancellationRequested,
        }
    }
}

/// What the embedding application must do next.
#[derive(Debug)]
pub enum SyncAction {
    FetchRoster,
    ReconcileTitles { job_titles: Vec<String> },
    ReconcileUsers { intranet_users: Vec<IntranetUserDto>, job_title_cache: JobTitleCache },
    Wait { seconds: u64 },
    Stop,
    Continue,
}

/// Mathematical image of a [`SyncAction`].
pub enum SyncActionView {
    FetchRoster,
    ReconcileTitles(Seq<Seq<char>>),
    ReconcileUsers(Seq<IntranetUserView>, Map<Seq<char>, int>),
    Wait(int),
    Stop,
    Continue,
}

impl View for SyncAction {
    type V = SyncActionView;

    open spec fn view(&self) -> SyncActionView {
        match self {
            SyncAction::FetchRoster => SyncActionView::FetchRoster,
            SyncAction::ReconcileTitles { job_titles } => SyncActionView::ReconcileTitles(
                job_titles.deep_view(),
            ),
            SyncAction::ReconcileUsers { intranet_users, job_title_cache } =>
                SyncActionView::ReconcileUsers(intranet_users.deep_view(), job_title_cache@),
            SyncAction::Wait { seconds } => SyncActionView::Wait(*seconds as int),
            SyncAction::Stop => SyncActionView::Stop,
            SyncAction::Continue => SyncActionView::Continue,
        }
    }
}

/// The scheduler's state: its phase, and the roster stashed between the
/// fetch and the user stage of the running pass.
pub struct SyncScheduler {
    phase: SyncPhase,
    roster: Option<Vec<IntranetUserDto>>,
}

/// Mathematical image of a [`SyncScheduler`].
pub struct SyncSchedulerView {
    pub phase: SyncPhase,
    pub roster: Option<Seq<IntranetUserView>>,
}

impl View for SyncScheduler {
    type V = SyncSchedulerView;

    closed spec fn view(&self) -> SyncSchedulerView {
        SyncSchedulerView { phase: self.phase, roster: self.roster.deep_view() }
    }
}

/// One transition of the machine.  An event that the current phase does
/// not expect changes nothing and asks the application to carry on.
pub open spec fn spec_step(s: SyncSchedulerView, e: SyncEventView) -> (
    SyncSchedulerView,
    SyncActionView,
    Seq<StatusView>,
) {
    match (s.phase, e) {
        (SyncPhase::Idle, SyncEventView::PassDue) | (SyncPhase::Waiting, SyncEventView::PassDue) => (
            SyncSchedulerView { phase: SyncPhase::Downloading, roster: None },
            SyncActionView::FetchRoster,
            seq![StatusView::DownloadingIntranetUsers],
        ),
        (SyncPhase::Idle, SyncEventView::CancellationRequested)
            | (SyncPhase::Waiting, SyncEventView::CancellationRequested) => (
            SyncSchedulerView { phase: SyncPhase::Cancelled, roster: None },
            SyncActionView::Stop,
            Seq::empty(),
        ),
        (SyncPhase::Downloading, SyncEventView::FetchSucceeded(users)) => (
            SyncSchedulerView { phase: SyncPhase::ReconcilingTitles, roster: Some(users) },
            SyncActionView::ReconcileTitles(spec_dedup(roster_labels(users))),
            seq![StatusView::DownloadingIntranetUsersFinished],
        ),
        (SyncPhase::Downloading, SyncEventView::FetchFailed(error)) => (
            SyncSchedulerView { phase: SyncPhase::Failed, roster: None },
            SyncActionView::Stop,
            seq![StatusView::DownloadIntranetUsersError { error: error }],
        ),
        (SyncPhase::ReconcilingTitles, SyncEventView::TitlesReconciled(cache)) => match s.roster {
            Some(users) => (
                SyncSchedulerView { phase: SyncPhase::ReconcilingUsers, roster: Some(users) },
                SyncActionView::ReconcileUsers(users, cache),
                Seq::empty(),
            ),
            None => (s, SyncActionView::Continue, Seq::empty()),
        },
        (SyncPhase::ReconcilingUsers, SyncEventView::UsersReconciled) => (
            SyncSchedulerView { phase: SyncPhase::Waiting, roster: None },
            SyncActionView::Wait(SYNC_INTERVAL_SECONDS as int),
            Seq::empty(),
        ),
        (SyncPhase::Cancelled, _) | (SyncPhase::Failed, _) => (s, SyncActionView::Stop, Seq::empty()),
        (_, _) => (s, SyncActionView::Continue, Seq::empty()),
    }
}

impl SyncScheduler {
    /// A fresh worker, ready for its first pass.
    pub fn new() -> (r: Self)
        ensures
            r@.phase == SyncPhase::Idle,
            r@.roster is None,
    {
        SyncScheduler { phase: SyncPhase::Idle, roster: None }
    }

    /// The current phase.
    pub fn phase(&self) -> (r: SyncPhase)
        ensures
            r == self@.phase,
    {
        self.phase
    }

    /// Feeds one event in and hands back the next state, the action the
    /// application must perform, and the events to publish, exactly as
    /// the transition relation states.
    pub fn step(self, event: SyncEvent) -> (r: (SyncScheduler, SyncAction, Vec<Status>))
        ensures
            r.0@ == spec_step(self@, event@).0,
            r.1@ == spec_step(self@, event@).1,
            r.2.deep_view() == spec_step(self@, event@).2,
    {
        let ghost pre = self@;
        let ghost ev = event@;
        let SyncScheduler { phase, roster } = self;
        let (next, action, events): (SyncScheduler, SyncAction, Vec<Status>) = match (
            phase,
            event,
        ) {
            (SyncPhase::Idle, SyncEvent::PassDue) | (SyncPhase::Waiting, SyncEvent::PassDue) => (
                SyncScheduler { phase: SyncPhase::Downloading, roster: None },
                SyncAction::FetchRoster,
                vec![Status::DownloadingIntranetUsers],
            ),
            (SyncPhase::Idle, SyncEvent::CancellationRequested)
                | (SyncPhase::Waiting, SyncEvent::CancellationRequested) => (
                SyncScheduler { phase: SyncPhase::Cancelled, roster: None },
                SyncAction::Stop,
                Vec::new(),
            ),
            (SyncPhase::Downloading, SyncEvent::FetchSucceeded(users)) => {
                let job_titles = dedup_labels(&users);
                (
                    SyncScheduler { phase: SyncPhase::ReconcilingTitles, roster: Some(users) },
                    SyncAction::ReconcileTitles { job_titles },
                    vec![Status::DownloadingIntranetUsersFinished],
                )
            },
            (SyncPhase::Downloading, SyncEvent::FetchFailed(error)) => (
                SyncScheduler { phase: SyncPhase::Failed, roster: None },
                SyncAction::Stop,
                vec![Status::DownloadIntranetUsersError { error }],
            ),
            (SyncPhase::ReconcilingTitles, SyncEvent::TitlesReconciled(job_title_cache)) => match roster {
                Some(intranet_users) => {
                    let stashed = clone_roster(&intranet_users);
                    (
                        SyncScheduler {
                            phase: SyncPhase::ReconcilingUsers,
                            roster: Some(stashed),
                        },
                        SyncAction::ReconcileUsers { intranet_users, job_title_cache },
                        Vec::new(),
                    )
                },
                None => (
                    SyncScheduler { phase: SyncPhase::ReconcilingTitles, roster: None },
                    SyncAction::Continue,
                    Vec::new(),
                ),
            },
            (SyncPhase::ReconcilingUsers, SyncEvent::UsersReconciled) => (
                SyncScheduler { phase: SyncPhase::Waiting, roster: None },
                SyncAction::Wait { seconds: SYNC_INTERVAL_SECONDS },
                Vec::new(),
            ),
            (phase, _) => {
                let action = match phase {
                    SyncPhase::Cancelled | SyncPhase::Failed => SyncAction::Stop,
                    _ => SyncAction::Continue,
                };
                (SyncScheduler { phase, roster }, action, Vec::new())
            },
        };
        proof {
            assert(events.deep_view() =~= spec_step(pre, ev).2);
        }
        (next, action, events)
    }
}

/// A field-for-field copy of a roster.
fn clone_roster(intranet_users: &Vec<IntranetUserDto>) -> (r: Vec<IntranetUserDto>)
    ensures
        r.deep_view() == intranet_users.deep_view(),
{
    let mut result: Vec<IntranetUserDto> = Vec::new();
    let mut i: usize = 0;
    while i < intranet_users.len()
        invariant
            i <= intranet_users.len(),
            result.deep_view().len() == i,
            forall|k: int|
                0 <= k < i ==> (#[trigger] result.deep_view()[k])
                    == intranet_users.deep_view()[k],
        decreases intranet_users.len() - i,
    {
        let ghost before = result.deep_view();
        result.push(intranet_users[i].clone());
        proof {
            assert(result.deep_view() =~= before.push(intranet_users.deep_view()[i as int]));
        }
        i += 1;
    }
    proof {
        assert(result.deep_view() =~= intranet_users.deep_view());
    }
    result
}

/// Cancellation boundary: a cancellation signalled while the worker waits
/// moves it straight to the terminal phase, with nothing published and no
/// new work asked for — the loop exits before the next download begins.
pub proof fn lemma_cancellation_boundary(s: SyncSchedulerView)
    requires
        s.phase == SyncPhase::Waiting || s.phase == SyncPhase::Idle,
    ensures
        spec_step(s, SyncEventView::CancellationRequested).0.phase == SyncPhase::Cancelled,
        spec_step(s, SyncEventView::CancellationRequested).1 == SyncActionView::Stop,
        spec_step(s, SyncEventView::CancellationRequested).2.len() == 0,
{
}

/// A cancelled worker is cancelled for good: no event moves it, makes it
/// publish, or asks the application for anything but stopping.
pub proof fn lemma_cancelled_is_terminal(s: SyncSchedulerView, e: SyncEventView)
    requires
        s.phase == SyncPhase::Cancelled,
    ensures
        spec_step(s, e).0 == s,
        spec_step(s, e).1 == SyncActionView::Stop,
        spec_step(s, e).2.len() == 0,
{
}

} // verus!
