//! Status events and the error taxonomy of a reconciliation pass.
//!
//! Events are immutable tagged values fanned out to any number of
//! independent observers.  The set of variants is closed here, but the
//! enum is non-exhaustive so that a consumer compiled against an older
//! event set keeps working with a default arm.

use vstd::prelude::*;

use crate::intranet::{IntranetError, IntranetErrorView, IntranetUserDto, IntranetUserView};
use crate::uow::{
    CreateUserArgs, CreateUserArgsView, UpdateUserArgs, UpdateUserArgsView, UserEntity, UserView,
};

verus! {

/// A reconciliation-level storage failure, rendered as text by whatever
/// storage backend the embedding application drives.
#[derive(Clone, Debug)]
pub struct StorageError {
    pub message: String,
}

impl View for StorageError {
    type V = Seq<char>;

    open spec fn view(&self) -> Seq<char> {
        self.message@
    }
}

impl DeepView for StorageError {
    type V = Seq<char>;

    open spec fn deep_view(&self) -> Seq<char> {
        self.view()
    }
}

/// Why one user record failed to reconcile.  Every kind is recovered
/// locally: the record is skipped and the pass continues.
#[derive(Debug)]
pub enum UserSynchronizationError {
    FailedToStartTransaction(StorageError),
    FailedToGetJobTitleIdFromCache(String),
    FailedToCreateUser { error: StorageError, args: CreateUserArgs },
    FailedToUpdateExistingUser { args: UpdateUserArgs, error: StorageError },
    FailedToGetUserByAdId(StorageError),
    FailedToCommitTransaction(StorageError),
}

/// Mathematical image of a [`UserSynchronizationError`].
pub enum UserSynchronizationErrorView {
    FailedToStartTransaction(Seq<char>),
    FailedToGetJobTitleIdFromCache(Seq<char>),
    FailedToCreateUser { error: Seq<char>, args: CreateUserArgsView },
    FailedToUpdateExistingUser { args: UpdateUserArgsView, error: Seq<char> },
    FailedToGetUserByAdId(Seq<char>),
    FailedToCommitTransaction(Seq<char>),
}

impl View for UserSynchronizationError {
    type V = UserSynchronizationErrorView;

    open spec fn view(&self) -> UserSynchronizationErrorView {
        match self {
            UserSynchronizationError::FailedToStartTransaction(e) =>
                UserSynchronizationErrorView::FailedToStartTransaction(e@),
            UserSynchronizationError::FailedToGetJobTitleIdFromCache(l) =>
                UserSynchronizationErrorView::FailedToGetJobTitleIdFromCache(l@),
            UserSynchronizationError::FailedToCreateUser { error, args } =>
                UserSynchronizationErrorView::FailedToCreateUser { error: error@, args: args@ },
            UserSynchronizationError::FailedToUpdateExistingUser { args, error } =>
                UserSynchronizationErrorView::FailedToUpdateExistingUser {
                    args: args@,
                    error: error@,
                },
            UserSynchronizationError::FailedToGetUserByAdId(e) =>
                UserSynchronizationErrorView::FailedToGetUserByAdId(e@),
            UserSynchronizationError::FailedToCommitTransaction(e) =>
                UserSynchronizationErrorView::FailedToCommitTransaction(e@),
        }
    }
}

impl DeepView for UserSynchronizationError {
    type V = UserSynchronizationErrorView;

    open spec fn deep_view(&self) -> UserSynchronizationErrorView {
        self.view()
    }
}

/// A user failure together with the record and the stored row it touched.
#[derive(Debug)]
pub struct UserSynchronizationErrorWrapper {
    pub user_entity: Option<UserEntity>,
    pub intranet_user: Option<IntranetUserDto>,
    pub error: UserSynchronizationError,
}

/// Mathematical image of a [`UserSynchronizationErrorWrapper`].
pub struct UserSynchronizationErrorWrapperView {
    pub user_entity: Option<UserView>,
    pub intranet_user: Option<IntranetUserView>,
    pub error: UserSynchronizationErrorView,
}

impl View for UserSynchronizationErrorWrapper {
    type V = UserSynchronizationErrorWrapperView;

    open spec fn view(&self) -> UserSynchronizationErrorWrapperView {
        UserSynchronizationErrorWrapperView {
            user_entity: self.user_entity.deep_view(),
            intranet_user: self.intranet_user.deep_view(),
            error: self.error@,
        }
    }
}

impl DeepView for UserSynchronizationErrorWrapper {
    type V = UserSynchronizationErrorWrapperView;

    open spec fn deep_view(&self) -> UserSynchronizationErrorWrapperView {
        self.view()
    }
}

/// Why one job-title label failed to reconcile; recovered locally, the
/// label is skipped and stays out of the cache for this pass.
#[derive(Debug)]
pub enum JobTitleSynchronizationError {
    FailedToStartTransaction(StorageError),
    FailedToCheckIfJobTitleExistsByIntranetName(StorageError),
    FailedToCreateMissingJobTitle(StorageError),
    FailedToCommitTransaction(StorageError),
}

/// Mathematical image of a [`JobTitleSynchronizationError`].
pub enum JobTitleSynchronizationErrorView {
    FailedToStartTransaction(Seq<char>),
    FailedToCheckIfJobTitleExistsByIntranetName(Seq<char>),
    FailedToCreateMissingJobTitle(Seq<char>),
    FailedToCommitTransaction(Seq<char>),
}

impl View for JobTitleSynchronizationError {
    type V = JobTitleSynchronizationErrorView;

    open spec fn view(&self) -> JobTitleSynchronizationErrorView {
        match self {
            JobTitleSynchronizationError::FailedToStartTransaction(e) =>
                JobTitleSynchronizationErrorView::FailedToStartTransaction(e@),
            JobTitleSynchronizationError::FailedToCheckIfJobTitleExistsByIntranetName(e) =>
                JobTitleSynchronizationErrorView::FailedToCheckIfJobTitleExistsByIntranetName(e@),
            JobTitleSynchronizationError::FailedToCreateMissingJobTitle(e) =>
                JobTitleSynchronizationErrorView::FailedToCreateMissingJobTitle(e@),
            JobTitleSynchronizationError::FailedToCommitTransaction(e) =>
                JobTitleSynchronizationErrorView::FailedToCommitTransaction(e@),
        }
    }
}

impl DeepView for JobTitleSynchronizationError {
    type V = JobTitleSynchronizationErrorView;

    open spec fn deep_view(&self) -> JobTitleSynchronizationErrorView {
        self.view()
    }
}

/// A job-title failure together with the label it touched.
#[derive(Debug)]
pub struct JobTitleSynchronizationErrorWrapper {
    pub intranet_name: String,
    pub error: JobTitleSynchronizationError,
}

/// Mathematical image of a [`JobTitleSynchronizationErrorWrapper`].
pub struct JobTitleSynchronizationErrorWrapperView {
    pub intranet_name: Seq<char>,
    pub error: JobTitleSynchronizationErrorView,
}

impl View for JobTitleSynchronizationErrorWrapper {
    type V = JobTitleSynchronizationErrorWrapperView;

    open spec fn view(&self) -> JobTitleSynchronizationErrorWrapperView {
        JobTitleSynchronizationErrorWrapperView {
            intranet_name: self.intranet_name@,
            error: self.error@,
        }
    }
}

impl DeepView for JobTitleSynchronizationErrorWrapper {
    type V = JobTitleSynchronizationErrorWrapperView;

    open spec fn deep_view(&self) -> JobTitleSynchronizationErrorWrapperView {
        self.view()
    }
}

/// One lifecycle, progress or error occurrence of the engine.
#[derive(Debug)]
#[non_exhaustive]
pub enum Status {
    DownloadingIntranetUsers,
    DownloadingIntranetUsersFinished,
    DownloadIntranetUsersError { error: IntranetError },
    SynchronizingJobTitle { intranet_name: String, current_item: u32, total: u32 },
    JobTitleSynchronizationFinished { total: u32 },
    JobTitleSynchronizationError {
        current_item: u32,
        total: u32,
        error: JobTitleSynchronizationErrorWrapper,
    },
    SynchronizingUser { user_full_name: String, user_email: String, current_item: u32, total: u32 },
    UserSynchronizationError { current_item: u32, total: u32, error: UserSynchronizationErrorWrapper },
    UserSynchronizationFinished { total: u32 },
    FailedToSynchronizeUser { current_item: u32, total: u32, error: UserSynchronizationError },
}

/// Mathematical image of a [`Status`].
pub enum StatusView {
    DownloadingIntranetUsers,
    DownloadingIntranetUsersFinished,
    DownloadIntranetUsersError { error: IntranetErrorView },
    SynchronizingJobTitle { intranet_name: Seq<char>, current_item: int, total: int },
    JobTitleSynchronizationFinished { total: int },
    JobTitleSynchronizationError {
        current_item: int,
        total: int,
        error: JobTitleSynchronizationErrorWrapperView,
    },
    SynchronizingUser {
        user_full_name: Seq<char>,
        user_email: Seq<char>,
        current_item: int,
        total: int,
    },
    UserSynchronizationError {
        current_item: int,
        total: int,
        error: UserSynchronizationErrorWrapperView,
    },
    UserSynchronizationFinished { total: int },
    FailedToSynchronizeUser { current_item: int, total: int, error: UserSynchronizationErrorView },
}

impl View for Status {
    type V = StatusView;

    open spec fn view(&self) -> StatusView {
        match self {
            Status::DownloadingIntranetUsers => StatusView::DownloadingIntranetUsers,
            Status::DownloadingIntranetUsersFinished => StatusView::DownloadingIntranetUsersFinished,
            Status::DownloadIntranetUsersError { error } => StatusView::DownloadIntranetUsersError {
                error: error@,
            },
            Status::SynchronizingJobTitle { intranet_name, current_item, total } =>
                StatusView::SynchronizingJobTitle {
                    intranet_name: intranet_name@,
                    current_item: *current_item as int,
                    total: *total as int,
                },
            Status::JobTitleSynchronizationFinished { total } =>
                StatusView::JobTitleSynchronizationFinished { total: *total as int },
            Status::JobTitleSynchronizationError { current_item, total, error } =>
                StatusView::JobTitleSynchronizationError {
                    current_item: *current_item as int,
                    total: *total as int,
                    error: error@,
                },
            Status::SynchronizingUser { user_full_name, user_email, current_item, total } =>
                StatusView::SynchronizingUser {
                    user_full_name: user_full_name@,
                    user_email: user_email@,
                    current_item: *current_item as int,
                    total: *total as int,
                },
            Status::UserSynchronizationError { current_item, total, error } =>
                StatusView::UserSynchronizationError {
                    current_item: *current_item as int,
                    total: *total as int,
                    error: error@,
                },
            Status::UserSynchronizationFinished { total } =>
                StatusView::UserSynchronizationFinished { total: *total as int },
            Status::FailedToSynchronizeUser { current_item, total, error } =>
                StatusView::FailedToSynchronizeUser {
                    current_item: *current_item as int,
                    total: *total as int,
                    error: error@,
                },
        }
    }
}

impl DeepView for Status {
    type V = StatusView;

    open spec fn deep_view(&self) -> StatusView {
        self.view()
    }
}

} // verus!
