//! State handed to the server-rendered pages.  Rendering itself is the
//! embedding application's concern; what a page knows about the session
//! is stated here.

use vstd::prelude::*;

use crate::uow::{UserEntity, UserView};

verus! {

/// The session-dependent part of every page: who, if anyone, is logged in.
pub struct TemplateState {
    logged_in_user: Option<UserEntity>,
}

impl View for TemplateState {
    type V = Option<UserView>;

    closed spec fn view(&self) -> Option<UserView> {
        self.logged_in_user.deep_view()
    }
}

impl TemplateState {
    /// State for a session that resolved to the given user, if any.
    pub fn new(logged_in_user: Option<UserEntity>) -> (r: Self)
        ensures
            r@ == logged_in_user.deep_view(),
    {
        TemplateState { logged_in_user }
    }

    /// Whether the session carries a logged-in user.
    pub fn is_logged_in(&self) -> (r: bool)
        ensures
            r == (self@ is Some),
    {
        self.logged_in_user.is_some()
    }
}

/// Renders pages against the session state.
pub struct TemplateRenderer {
    pub state: TemplateState,
}

/// One choice offered by a select field.
#[derive(Debug)]
pub struct ChooseTextFieldItem<T> {
    pub display_text: String,
    pub value: T,
}

/// The onboarding report page: the selectable departments and, per
/// department, the job titles it offers.
pub struct ReportOnboardingPage {
    pub state: TemplateState,
    pub possible_company_departments: Vec<ChooseTextFieldItem<i32>>,
    pub possible_job_titles_for_company_departments: std::collections::HashMap<
        i32,
        Vec<ChooseTextFieldItem<i32>>,
    >,
}

/// The login page, with the username to prefill.
pub struct LoginPage {
    pub state: TemplateState,
    pub username: String,
}

/// The showcase login page, listing the users one may log in as.
pub struct ShowcaseLoginPage {
    pub state: TemplateState,
    pub users: Vec<UserEntity>,
}

/// The problem report page.
pub struct ReportProblemPage {
    pub state: TemplateState,
}

} // verus!
