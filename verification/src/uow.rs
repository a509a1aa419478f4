//! Entities of the local store and an in-memory model of the storage port.
//!
//! The reconciliation engine consumes a transactional storage port:
//! find-job-title-by-label, create-job-title, find-user-by-external-id,
//! create-user and update-user.  [`LocalStore`] is the verified in-memory
//! model of that port; an embedding application may instead execute the
//! same operations against a real database, driven by the decision
//! functions of the synchronization modules.

use vstd::prelude::*;

verus! {

// ------------------------------------------------------------------
// First-match search over sequences, shared by every lookup below.
// ------------------------------------------------------------------

/// Index of the first element of `s` satisfying `p`, or `-1` if none does.
pub open spec fn first_index_where<A>(s: Seq<A>, p: spec_fn(A) -> bool) -> int
    decreases s.len(),
{
    if s.len() == 0 {
        -1
    } else if p(s[0]) {
        0
    } else {
        let rest = first_index_where(s.drop_first(), p);
        if rest < 0 {
            -1
        } else {
            rest + 1
        }
    }
}

pub proof fn lemma_first_index_where<A>(s: Seq<A>, p: spec_fn(A) -> bool)
    ensures
        first_index_where(s, p) == -1 ==> forall|i: int| 0 <= i < s.len() ==> !p(#[trigger] s[i]),
        first_index_where(s, p) != -1 ==> {
            &&& 0 <= first_index_where(s, p) < s.len()
            &&& p(s[first_index_where(s, p)])
            &&& forall|i: int| 0 <= i < first_index_where(s, p) ==> !p(#[trigger] s[i])
        },
    decreases s.len(),
{
    if s.len() == 0 {
    } else if p(s[0]) {
    } else {
        let rest = s.drop_first();
        lemma_first_index_where(rest, p);
        let r = first_index_where(rest, p);
        if r < 0 {
            assert forall|i: int| 0 <= i < s.len() implies !p(#[trigger] s[i]) by {
                if i > 0 {
                    assert(rest[i - 1] == s[i]);
                    assert(!p(rest[i - 1]));
                }
            }
        } else {
            assert(rest[r] == s[r + 1]);
            assert forall|i: int| 0 <= i < r + 1 implies !p(#[trigger] s[i]) by {
                if i > 0 {
                    assert(rest[i - 1] == s[i]);
                    assert(!p(rest[i - 1]));
                }
            }
        }
    }
}

/// Appending an element does not disturb an existing first match; when no
/// element matched, the appended element is the only candidate.
pub proof fn lemma_first_index_where_push<A>(s: Seq<A>, p: spec_fn(A) -> bool, x: A)
    ensures
        first_index_where(s, p) != -1 ==> first_index_where(s.push(x), p) == first_index_where(
            s,
            p,
        ),
        first_index_where(s, p) == -1 && p(x) ==> first_index_where(s.push(x), p) == s.len(),
        first_index_where(s, p) == -1 && !p(x) ==> first_index_where(s.push(x), p) == -1,
    decreases s.len(),
{
    if s.len() == 0 {
        assert(s.push(x)[0] == x);
        assert(s.push(x).drop_first() =~= s);
    } else {
        lemma_first_index_where_push(s.drop_first(), p, x);
        assert(s.push(x)[0] == s[0]);
        assert(s.push(x).drop_first() =~= s.drop_first().push(x));
    }
}

/// Two sequences on which `p` agrees pointwise have the same first match.
pub proof fn lemma_first_index_where_congruence<A>(s1: Seq<A>, s2: Seq<A>, p: spec_fn(A) -> bool)
    requires
        s1.len() == s2.len(),
        forall|i: int| 0 <= i < s1.len() ==> p(#[trigger] s1[i]) == p(#[trigger] s2[i]),
    ensures
        first_index_where(s1, p) == first_index_where(s2, p),
    decreases s1.len(),
{
    if s1.len() > 0 {
        assert(p(s1[0]) == p(s2[0]));
        lemma_first_index_where_congruence(s1.drop_first(), s2.drop_first(), p);
    }
}

// ------------------------------------------------------------------
// Entities
// ------------------------------------------------------------------

/// A durable job-title record.  `intranet_name` is the unique label under
/// which the external directory knows the title.
#[derive(Debug)]
pub struct JobTitleEntity {
    pub id: i32,
    pub name: Option<String>,
    pub intranet_name: String,
    pub company_department_id: Option<i32>,
    pub parent_job_title_id: Option<i32>,
}

/// Mathematical image of a [`JobTitleEntity`].
pub struct JobTitleView {
    pub id: int,
    pub name: Option<Seq<char>>,
    pub intranet_name: Seq<char>,
    pub company_department_id: Option<int>,
    pub parent_job_title_id: Option<int>,
}

/// `Option<i32>` as a mathematical optional integer.
pub open spec fn opt_int(o: Option<i32>) -> Option<int> {
    match o {
        Some(v) => Some(v as int),
        None => None,
    }
}

/// `Option<i64>` as a mathematical optional integer.
pub open spec fn opt_int64(o: Option<i64>) -> Option<int> {
    match o {
        Some(v) => Some(v as int),
        None => None,
    }
}

impl View for JobTitleEntity {
    type V = JobTitleView;

    open spec fn view(&self) -> JobTitleView {
        JobTitleView {
            id: self.id as int,
            name: self.name.deep_view(),
            intranet_name: self.intranet_name.view(),
            company_department_id: opt_int(self.company_department_id),
            parent_job_title_id: opt_int(self.parent_job_title_id),
        }
    }
}

impl DeepView for JobTitleEntity {
    type V = JobTitleView;

    open spec fn deep_view(&self) -> JobTitleView {
        self.view()
    }
}

impl Clone for JobTitleEntity {
    fn clone(&self) -> (r: Self)
        ensures
            r@ == self@,
    {
        JobTitleEntity {
            id: self.id,
            name: clone_opt_string(&self.name),
            intranet_name: self.intranet_name.clone(),
            company_department_id: self.company_department_id,
            parent_job_title_id: self.parent_job_title_id,
        }
    }
}

/// A durable user record.  `ad_id` is the stable identity of the person in
/// the external directory and is the reconciliation key; `password` is never
/// written by the engine.
#[derive(Debug)]
pub struct UserEntity {
    pub id: i32,
    pub ad_id: Option<i32>,
    pub email: Option<String>,
    pub password: Option<String>,
    pub full_name: String,
    pub job_title_id: i32,
    pub is_active: bool,
}

/// Mathematical image of a [`UserEntity`].
pub struct UserView {
    pub id: int,
    pub ad_id: Option<int>,
    pub email: Option<Seq<char>>,
    pub password: Option<Seq<char>>,
    pub full_name: Seq<char>,
    pub job_title_id: int,
    pub is_active: bool,
}

impl View for UserEntity {
    type V = UserView;

    open spec fn view(&self) -> UserView {
        UserView {
            id: self.id as int,
            ad_id: opt_int(self.ad_id),
            email: self.email.deep_view(),
            password: self.password.deep_view(),
            full_name: self.full_name.view(),
            job_title_id: self.job_title_id as int,
            is_active: self.is_active,
        }
    }
}

impl DeepView for UserEntity {
    type V = UserView;

    open spec fn deep_view(&self) -> UserView {
        self.view()
    }
}

impl Clone for UserEntity {
    fn clone(&self) -> (r: Self)
        ensures
            r@ == self@,
    {
        UserEntity {
            id: self.id,
            ad_id: self.ad_id,
            email: clone_opt_string(&self.email),
            password: clone_opt_string(&self.password),
            full_name: self.full_name.clone(),
            job_title_id: self.job_title_id,
            is_active: self.is_active,
        }
    }
}

/// Clones an optional string, field for field.
pub fn clone_opt_string(s: &Option<String>) -> (r: Option<String>)
    ensures
        r.deep_view() == s.deep_view(),
{
    match s {
        Some(v) => Some(v.clone()),
        None => None,
    }
}

/// Arguments of the create-user storage operation.
#[derive(Debug)]
pub struct CreateUserArgs {
    pub ad_id: Option<i32>,
    pub email: Option<String>,
    pub hashed_password: Option<String>,
    pub full_name: String,
    pub job_title_id: i32,
    pub is_active: bool,
}

/// Mathematical image of [`CreateUserArgs`].
pub struct CreateUserArgsView {
    pub ad_id: Option<int>,
    pub email: Option<Seq<char>>,
    pub hashed_password: Option<Seq<char>>,
    pub full_name: Seq<char>,
    pub job_title_id: int,
    pub is_active: bool,
}

impl View for CreateUserArgs {
    type V = CreateUserArgsView;

    open spec fn view(&self) -> CreateUserArgsView {
        CreateUserArgsView {
            ad_id: opt_int(self.ad_id),
            email: self.email.deep_view(),
            hashed_password: self.hashed_password.deep_view(),
            full_name: self.full_name.view(),
            job_title_id: self.job_title_id as int,
            is_active: self.is_active,
        }
    }
}

impl DeepView for CreateUserArgs {
    type V = CreateUserArgsView;

    open spec fn deep_view(&self) -> CreateUserArgsView {
        self.view()
    }
}

impl Clone for CreateUserArgs {
    fn clone(&self) -> (r: Self)
        ensures
            r@ == self@,
    {
        CreateUserArgs {
            ad_id: self.ad_id,
            email: clone_opt_string(&self.email),
            hashed_password: clone_opt_string(&self.hashed_password),
            full_name: self.full_name.clone(),
            job_title_id: self.job_title_id,
            is_active: self.is_active,
        }
    }
}

/// Arguments of the update-user storage operation; `id` selects the row.
#[derive(Debug)]
pub struct UpdateUserArgs {
    pub id: i32,
    pub ad_id: Option<i32>,
    pub email: Option<String>,
    pub hashed_password: Option<String>,
    pub full_name: String,
    pub job_title_id: i32,
    pub is_active: bool,
}

/// Mathematical image of [`UpdateUserArgs`].
pub struct UpdateUserArgsView {
    pub id: int,
    pub ad_id: Option<int>,
    pub email: Option<Seq<char>>,
    pub hashed_password: Option<Seq<char>>,
    pub full_name: Seq<char>,
    pub job_title_id: int,
    pub is_active: bool,
}

impl View for UpdateUserArgs {
    type V = UpdateUserArgsView;

    open spec fn view(&self) -> UpdateUserArgsView {
        UpdateUserArgsView {
            id: self.id as int,
            ad_id: opt_int(self.ad_id),
            email: self.email.deep_view(),
            hashed_password: self.hashed_password.deep_view(),
            full_name: self.full_name.view(),
            job_title_id: self.job_title_id as int,
            is_active: self.is_active,
        }
    }
}

impl DeepView for UpdateUserArgs {
    type V = UpdateUserArgsView;

    open spec fn deep_view(&self) -> UpdateUserArgsView {
        self.view()
    }
}

impl Clone for UpdateUserArgs {
    fn clone(&self) -> (r: Self)
        ensures
            r@ == self@,
    {
        UpdateUserArgs {
            id: self.id,
            ad_id: self.ad_id,
            email: clone_opt_string(&self.email),
            hashed_password: clone_opt_string(&self.hashed_password),
            full_name: self.full_name.clone(),
            job_title_id: self.job_title_id,
            is_active: self.is_active,
        }
    }
}

/// Arguments of the create-job-title storage operation.
pub struct CreateJobTitleArgs<'a> {
    pub name: Option<&'a str>,
    pub intranet_name: &'a str,
    pub company_department_id: Option<i32>,
    pub parent_job_title_id: Option<i32>,
}

// ------------------------------------------------------------------
// Entities outside the engine's own tables, kept as plain data.
// ------------------------------------------------------------------

/// One page of a paginated query together with the overall row count.
pub struct PaginationResult<T> {
    pub items: Vec<T>,
    pub total: u32,
}

#[derive(Clone, Debug)]
pub struct LicenseEntity {
    pub id: i32,
    pub name: String,
}

#[derive(Clone, Debug)]
pub struct SystemPermissionEntity {
    pub id: i32,
    pub name: String,
    pub subpermission_of_id: Option<i32>,
}

#[derive(Clone, Debug)]
pub struct LicenseToJobTitleMappingEntity {
    pub license_id: i32,
    pub job_title_id: i32,
}

#[derive(Clone, Debug)]
pub struct SystemPermissionToJobTitleMappingEntity {
    pub system_permission_id: i32,
    pub job_title_id: i32,
}

#[derive(Clone, Debug)]
pub struct MailingGroupEntity {
    pub id: i32,
    pub name: String,
    pub email: String,
}

#[derive(Clone, Debug)]
pub struct CompanyDepartmentEntity {
    pub id: i32,
    pub name: String,
}

#[derive(Clone, Debug)]
pub struct PermissionEntity {
    pub id: i32,
    pub name: String,
}

/// A job title joined with its department and permissions.
pub struct JobTitleWithDependencies {
    pub job_title: JobTitleEntity,
    pub company_department: Option<CompanyDepartmentEntity>,
    pub permissions: Vec<PermissionEntity>,
}

// ------------------------------------------------------------------
// The store model
// ------------------------------------------------------------------

/// Mathematical image of a [`LocalStore`].
pub struct StoreView {
    pub job_titles: Seq<JobTitleView>,
    pub users: Seq<UserView>,
    pub next_job_title_id: int,
    pub next_user_id: int,
}

pub open spec fn pred_title_label(label: Seq<char>) -> spec_fn(JobTitleView) -> bool {
    |t: JobTitleView| t.intranet_name == label
}

pub open spec fn pred_title_id(id: int) -> spec_fn(JobTitleView) -> bool {
    |t: JobTitleView| t.id == id
}

pub open spec fn pred_user_ad_id(ad_id: int) -> spec_fn(UserView) -> bool {
    |u: UserView| u.ad_id == Some(ad_id)
}

pub open spec fn pred_user_id(id: int) -> spec_fn(UserView) -> bool {
    |u: UserView| u.id == id
}

pub open spec fn title_idx_by_label(ts: Seq<JobTitleView>, label: Seq<char>) -> int {
    first_index_where(ts, pred_title_label(label))
}

pub open spec fn title_idx_by_id(ts: Seq<JobTitleView>, id: int) -> int {
    first_index_where(ts, pred_title_id(id))
}

pub open spec fn user_idx_by_ad_id(us: Seq<UserView>, ad_id: int) -> int {
    first_index_where(us, pred_user_ad_id(ad_id))
}

pub open spec fn user_idx_by_id(us: Seq<UserView>, id: int) -> int {
    first_index_where(us, pred_user_id(id))
}

/// Characterization of [`title_idx_by_label`] in plain terms.
pub proof fn lemma_title_idx_by_label(ts: Seq<JobTitleView>, label: Seq<char>)
    ensures
        title_idx_by_label(ts, label) == -1 ==> forall|i: int|
            0 <= i < ts.len() ==> (#[trigger] ts[i]).intranet_name != label,
        title_idx_by_label(ts, label) != -1 ==> {
            &&& 0 <= title_idx_by_label(ts, label) < ts.len()
            &&& ts[title_idx_by_label(ts, label)].intranet_name == label
            &&& forall|i: int|
                0 <= i < title_idx_by_label(ts, label) ==> (
                #[trigger] ts[i]).intranet_name != label
        },
{
    let p = pred_title_label(label);
    lemma_first_index_where(ts, p);
    assert(forall|i: int| 0 <= i < ts.len() ==> p(#[trigger] ts[i]) == (ts[i].intranet_name
        == label));
}

/// Characterization of [`title_idx_by_id`] in plain terms.
pub proof fn lemma_title_idx_by_id(ts: Seq<JobTitleView>, id: int)
    ensures
        title_idx_by_id(ts, id) == -1 ==> forall|i: int|
            0 <= i < ts.len() ==> (#[trigger] ts[i]).id != id,
        title_idx_by_id(ts, id) != -1 ==> {
            &&& 0 <= title_idx_by_id(ts, id) < ts.len()
            &&& ts[title_idx_by_id(ts, id)].id == id
            &&& forall|i: int| 0 <= i < title_idx_by_id(ts, id) ==> (#[trigger] ts[i]).id != id
        },
{
    let p = pred_title_id(id);
    lemma_first_index_where(ts, p);
    assert(forall|i: int| 0 <= i < ts.len() ==> p(#[trigger] ts[i]) == (ts[i].id == id));
}

/// Characterization of [`user_idx_by_ad_id`] in plain terms.
pub proof fn lemma_user_idx_by_ad_id(us: Seq<UserView>, ad_id: int)
    ensures
        user_idx_by_ad_id(us, ad_id) == -1 ==> forall|i: int|
            0 <= i < us.len() ==> (#[trigger] us[i]).ad_id != Some(ad_id),
        user_idx_by_ad_id(us, ad_id) != -1 ==> {
            &&& 0 <= user_idx_by_ad_id(us, ad_id) < us.len()
            &&& us[user_idx_by_ad_id(us, ad_id)].ad_id == Some(ad_id)
            &&& forall|i: int|
                0 <= i < user_idx_by_ad_id(us, ad_id) ==> (#[trigger] us[i]).ad_id != Some(ad_id)
        },
{
    let p = pred_user_ad_id(ad_id);
    lemma_first_index_where(us, p);
    assert(forall|i: int| 0 <= i < us.len() ==> p(#[trigger] us[i]) == (us[i].ad_id == Some(
    ad_id)));
}

/// Characterization of [`user_idx_by_id`] in plain terms.
pub proof fn lemma_user_idx_by_id(us: Seq<UserView>, id: int)
    ensures
        user_idx_by_id(us, id) == -1 ==> forall|i: int|
            0 <= i < us.len() ==> (#[trigger] us[i]).id != id,
        user_idx_by_id(us, id) != -1 ==> {
            &&& 0 <= user_idx_by_id(us, id) < us.len()
            &&& us[user_idx_by_id(us, id)].id == id
            &&& forall|i: int| 0 <= i < user_idx_by_id(us, id) ==> (#[trigger] us[i]).id != id
        },
{
    let p = pred_user_id(id);
    lemma_first_index_where(us, p);
    assert(forall|i: int| 0 <= i < us.len() ==> p(#[trigger] us[i]) == (us[i].id == id));
}

/// Appending a job title does not disturb an id already found.
pub proof fn lemma_title_idx_by_id_push(ts: Seq<JobTitleView>, id: int, x: JobTitleView)
    ensures
        title_idx_by_id(ts, id) != -1 ==> title_idx_by_id(ts.push(x), id) == title_idx_by_id(
            ts,
            id,
        ),
        title_idx_by_id(ts, id) == -1 && x.id == id ==> title_idx_by_id(ts.push(x), id)
            == ts.len(),
        title_idx_by_id(ts, id) == -1 && x.id != id ==> title_idx_by_id(ts.push(x), id) == -1,
{
    let p = pred_title_id(id);
    lemma_first_index_where_push(ts, p, x);
}

/// The job title found under `label`, if any.
pub open spec fn find_title_by_label(ts: Seq<JobTitleView>, label: Seq<char>) -> Option<
    JobTitleView,
> {
    let k = title_idx_by_label(ts, label);
    if k == -1 {
        None
    } else {
        Some(ts[k])
    }
}

/// The user found under the external identity `ad_id`, if any.
pub open spec fn find_user_by_ad_id_spec(us: Seq<UserView>, ad_id: int) -> Option<UserView> {
    let k = user_idx_by_ad_id(us, ad_id);
    if k == -1 {
        None
    } else {
        Some(us[k])
    }
}

/// Well-formedness of the store: fresh id counters, unique ids, unique
/// job-title labels, at most one user per external identity, and every
/// user's `job_title_id` resolving to an existing job title.
pub open spec fn store_wf(s: StoreView) -> bool {
    &&& 1 <= s.next_job_title_id
    &&& 1 <= s.next_user_id
    &&& forall|i: int|
        0 <= i < s.job_titles.len() ==> (#[trigger] s.job_titles[i]).id < s.next_job_title_id
    &&& forall|i: int, j: int|
        0 <= i < j < s.job_titles.len() ==> (#[trigger] s.job_titles[i]).id != (
        #[trigger] s.job_titles[j]).id
    &&& forall|i: int, j: int|
        0 <= i < j < s.job_titles.len() ==> (#[trigger] s.job_titles[i]).intranet_name != (
        #[trigger] s.job_titles[j]).intranet_name
    &&& forall|i: int| 0 <= i < s.users.len() ==> (#[trigger] s.users[i]).id < s.next_user_id
    &&& forall|i: int, j: int|
        0 <= i < j < s.users.len() ==> (#[trigger] s.users[i]).id != (#[trigger] s.users[j]).id
    &&& forall|i: int, j: int|
        0 <= i < j < s.users.len() ==> !((#[trigger] s.users[i]).ad_id is Some
            && s.users[i].ad_id == (#[trigger] s.users[j]).ad_id)
    &&& forall|i: int|
        0 <= i < s.users.len() ==> title_idx_by_id(
            s.job_titles,
            (#[trigger] s.users[i]).job_title_id,
        ) != -1
}

/// In-memory model of the storage port consumed by the engine.  Every
/// operation is total and atomic; its effect is stated exactly.
pub struct LocalStore {
    job_titles: Vec<JobTitleEntity>,
    users: Vec<UserEntity>,
    next_job_title_id: i32,
    next_user_id: i32,
}

impl View for LocalStore {
    type V = StoreView;

    closed spec fn view(&self) -> StoreView {
        StoreView {
            job_titles: self.job_titles.deep_view(),
            users: self.users.deep_view(),
            next_job_title_id: self.next_job_title_id as int,
            next_user_id: self.next_user_id as int,
        }
    }
}

impl LocalStore {
    /// An empty store; ids are handed out from 1 upward.
    pub fn new() -> (s: Self)
        ensures
            s@.job_titles.len() == 0,
            s@.users.len() == 0,
            s@.next_job_title_id == 1,
            s@.next_user_id == 1,
            store_wf(s@),
    {
        LocalStore { job_titles: Vec::new(), users: Vec::new(), next_job_title_id: 1, next_user_id: 1 }
    }

    /// Room left before the job-title id counter would overflow.
    pub fn job_title_id_headroom(&self) -> (r: i32)
        requires
            store_wf(self@),
        ensures
            r as int == i32::MAX - self@.next_job_title_id,
    {
        i32::MAX - self.next_job_title_id
    }

    /// Room left before the user id counter would overflow.
    pub fn user_id_headroom(&self) -> (r: i32)
        requires
            store_wf(self@),
        ensures
            r as int == i32::MAX - self@.next_user_id,
    {
        i32::MAX - self.next_user_id
    }

    /// The job-title rows, in insertion order.
    pub fn job_titles(&self) -> (r: &Vec<JobTitleEntity>)
        ensures
            r.deep_view() == self@.job_titles,
    {
        &self.job_titles
    }

    /// The user rows, in insertion order.
    pub fn users(&self) -> (r: &Vec<UserEntity>)
        ensures
            r.deep_view() == self@.users,
    {
        &self.users
    }

    /// Looks a job title up by its directory label.
    pub fn get_job_title_by_intranet_name(&self, intranet_name: &String) -> (r: Option<
        JobTitleEntity,
    >)
        ensures
            r.deep_view() == find_title_by_label(self@.job_titles, intranet_name@),
    {
        let mut i: usize = 0;
        while i < self.job_titles.len()
            invariant
                i <= self.job_titles.len(),
                forall|k: int|
                    0 <= k < i ==> (#[trigger] self@.job_titles[k]).intranet_name
                        != intranet_name@,
            decreases self.job_titles.len() - i,
        {
            if self.job_titles[i].intranet_name == *intranet_name {
                proof {
                    lemma_title_idx_by_label(self@.job_titles, intranet_name@);
                    assert(self@.job_titles[i as int].intranet_name == intranet_name@);
                    assert(title_idx_by_label(self@.job_titles, intranet_name@) == i as int);
                }
                return Some(self.job_titles[i].clone());
            }
            i += 1;
        }
        proof {
            lemma_title_idx_by_label(self@.job_titles, intranet_name@);
            assert(title_idx_by_label(self@.job_titles, intranet_name@) == -1);
        }
        None
    }

    /// Inserts a bare job title under a label not present yet; returns the
    /// fresh id.
    pub fn create_job_title(&mut self, args: CreateJobTitleArgs<'_>) -> (id: i32)
        requires
            store_wf(old(self)@),
            title_idx_by_label(old(self)@.job_titles, args.intranet_name@) == -1,
            old(self)@.next_job_title_id < i32::MAX,
        ensures
            store_wf(final(self)@),
            id as int == old(self)@.next_job_title_id,
            final(self)@.job_titles == old(self)@.job_titles.push(
                JobTitleView {
                    id: id as int,
                    name: args.name.deep_view(),
                    intranet_name: args.intranet_name@,
                    company_department_id: opt_int(args.company_department_id),
                    parent_job_title_id: opt_int(args.parent_job_title_id),
                },
            ),
            final(self)@.users == old(self)@.users,
            final(self)@.next_job_title_id == old(self)@.next_job_title_id + 1,
            final(self)@.next_user_id == old(self)@.next_user_id,
    {
        let id = self.next_job_title_id;
        let entity = JobTitleEntity {
            id,
            name: match args.name {
                Some(n) => Some(n.to_owned()),
                None => None,
            },
            intranet_name: args.intranet_name.to_owned(),
            company_department_id: args.company_department_id,
            parent_job_title_id: args.parent_job_title_id,
        };
        self.job_titles.push(entity);
        self.next_job_title_id = self.next_job_title_id + 1;
        proof {
            assert(self@.job_titles =~= old(self)@.job_titles.push(
                JobTitleView {
                    id: id as int,
                    name: args.name.deep_view(),
                    intranet_name: args.intranet_name@,
                    company_department_id: opt_int(args.company_department_id),
                    parent_job_title_id: opt_int(args.parent_job_title_id),
                },
            ));
            assert(self@.users =~= old(self)@.users);
            lemma_title_idx_by_label(old(self)@.job_titles, args.intranet_name@);
            assert forall|i: int| 0 <= i < self@.users.len() implies title_idx_by_id(
                self@.job_titles,
                (#[trigger] self@.users[i]).job_title_id,
            ) != -1 by {
                lemma_title_idx_by_id(old(self)@.job_titles, self@.users[i].job_title_id);
                lemma_title_idx_by_id_push(
                    old(self)@.job_titles,
                    self@.users[i].job_title_id,
                    self@.job_titles[self@.job_titles.len() - 1],
                );
            }
        }
        id
    }

    /// Looks a user up by its external identity.
    pub fn find_user_by_ad_id(&self, ad_id: i32) -> (r: Option<UserEntity>)
        ensures
            r.deep_view() == find_user_by_ad_id_spec(self@.users, ad_id as int),
    {
        let mut i: usize = 0;
        while i < self.users.len()
            invariant
                i <= self.users.len(),
                forall|k: int| 0 <= k < i ==> (#[trigger] self@.users[k]).ad_id != Some(
                    ad_id as int,
                ),
            decreases self.users.len() - i,
        {
            let matches_here = match self.users[i].ad_id {
                Some(a) => a == ad_id,
                None => false,
            };
            if matches_here {
                proof {
                    lemma_user_idx_by_ad_id(self@.users, ad_id as int);
                    assert(self@.users[i as int].ad_id == Some(ad_id as int));
                    assert(user_idx_by_ad_id(self@.users, ad_id as int) == i as int);
                }
                return Some(self.users[i].clone());
            }
            i += 1;
        }
        proof {
            lemma_user_idx_by_ad_id(self@.users, ad_id as int);
            assert(user_idx_by_ad_id(self@.users, ad_id as int) == -1);
        }
        None
    }

    /// Inserts a new user row; returns the fresh id.  The caller must have
    /// established that the external identity is not present yet and that
    /// the job title resolves.
    pub fn create_user(&mut self, args: &CreateUserArgs) -> (id: i32)
        requires
            store_wf(old(self)@),
            title_idx_by_id(old(self)@.job_titles, args.job_title_id as int) != -1,
            args.ad_id matches Some(a) ==> user_idx_by_ad_id(old(self)@.users, a as int) == -1,
            old(self)@.next_user_id < i32::MAX,
        ensures
            store_wf(final(self)@),
            id as int == old(self)@.next_user_id,
            final(self)@.users == old(self)@.users.push(created_user_view(args@, id as int)),
            final(self)@.job_titles == old(self)@.job_titles,
            final(self)@.next_user_id == old(self)@.next_user_id + 1,
            final(self)@.next_job_title_id == old(self)@.next_job_title_id,
    {
        let id = self.next_user_id;
        let entity = UserEntity {
            id,
            ad_id: args.ad_id,
            email: clone_opt_string(&args.email),
            password: clone_opt_string(&args.hashed_password),
            full_name: args.full_name.clone(),
            job_title_id: args.job_title_id,
            is_active: args.is_active,
        };
        self.users.push(entity);
        self.next_user_id = self.next_user_id + 1;
        proof {
            assert(self@.users =~= old(self)@.users.push(created_user_view(args@, id as int)));
            assert(self@.job_titles =~= old(self)@.job_titles);
            if args.ad_id is Some {
                lemma_user_idx_by_ad_id(old(self)@.users, args.ad_id->0 as int);
            }
        }
        id
    }

    /// Rewrites the row selected by `args.id` with the given fields.  The
    /// caller must have established that the row exists, that the job title
    /// resolves, and that the new external identity collides with no other
    /// row.
    pub fn update_user(&mut self, args: &UpdateUserArgs)
        requires
            store_wf(old(self)@),
            user_idx_by_id(old(self)@.users, args.id as int) != -1,
            title_idx_by_id(old(self)@.job_titles, args.job_title_id as int) != -1,
            args.ad_id matches Some(a) ==> {
                let k = user_idx_by_ad_id(old(self)@.users, a as int);
                k == -1 || k == user_idx_by_id(old(self)@.users, args.id as int)
            },
        ensures
            store_wf(final(self)@),
            final(self)@.users == old(self)@.users.update(
                user_idx_by_id(old(self)@.users, args.id as int),
                updated_user_view(args@),
            ),
            final(self)@.job_titles == old(self)@.job_titles,
            final(self)@.next_user_id == old(self)@.next_user_id,
            final(self)@.next_job_title_id == old(self)@.next_job_title_id,
    {
        let ghost k = user_idx_by_id(old(self)@.users, args.id as int);
        let pos = self.position_user_by_id(args.id);
        match pos {
            Some(i) => {
                proof {
                    lemma_user_idx_by_id(old(self)@.users, args.id as int);
                    assert(i as int == k);
                    assert(0 <= k < old(self)@.users.len());
                }
                let entity = UserEntity {
                    id: args.id,
                    ad_id: args.ad_id,
                    email: clone_opt_string(&args.email),
                    password: clone_opt_string(&args.hashed_password),
                    full_name: args.full_name.clone(),
                    job_title_id: args.job_title_id,
                    is_active: args.is_active,
                };
                self.users[i] = entity;
                proof {
                    assert(self@.users =~= old(self)@.users.update(k, updated_user_view(args@)));
                    lemma_update_user_wf(old(self)@, args@, k);
                }
            },
            None => {
                proof {
                    assert(false);
                }
            },
        }
    }

    /// Position of the user row with the given id, if any.
    fn position_user_by_id(&self, id: i32) -> (r: Option<usize>)
        ensures
            r matches Some(i) ==> i as int == user_idx_by_id(self@.users, id as int),
            r is None ==> user_idx_by_id(self@.users, id as int) == -1,
    {
        let mut i: usize = 0;
        while i < self.users.len()
            invariant
                i <= self.users.len(),
                forall|j: int| 0 <= j < i ==> (#[trigger] self@.users[j]).id != id as int,
            decreases self.users.len() - i,
        {
            if self.users[i].id == id {
                proof {
                    lemma_user_idx_by_id(self@.users, id as int);
                    assert(self@.users[i as int].id == id as int);
                }
                return Some(i);
            }
            i += 1;
        }
        proof {
            lemma_user_idx_by_id(self@.users, id as int);
        }
        None
    }
}

/// The row that the create-user operation appends.
pub open spec fn created_user_view(args: CreateUserArgsView, id: int) -> UserView {
    UserView {
        id: id,
        ad_id: args.ad_id,
        email: args.email,
        password: args.hashed_password,
        full_name: args.full_name,
        job_title_id: args.job_title_id,
        is_active: args.is_active,
    }
}

/// The row that the update-user operation writes.
pub open spec fn updated_user_view(args: UpdateUserArgsView) -> UserView {
    UserView {
        id: args.id,
        ad_id: args.ad_id,
        email: args.email,
        password: args.hashed_password,
        full_name: args.full_name,
        job_title_id: args.job_title_id,
        is_active: args.is_active,
    }
}

pub proof fn lemma_update_user_wf(s: StoreView, args: UpdateUserArgsView, k: int)
    requires
        store_wf(s),
        k == user_idx_by_id(s.users, args.id),
        user_idx_by_id(s.users, args.id) != -1,
        title_idx_by_id(s.job_titles, args.job_title_id) != -1,
        args.ad_id matches Some(a) ==> {
            let ka = user_idx_by_ad_id(s.users, a);
            ka == -1 || ka == k
        },
    ensures
        store_wf(StoreView { users: s.users.update(k, updated_user_view(args)), ..s }),
{
    lemma_user_idx_by_id(s.users, args.id);
    let s2 = StoreView { users: s.users.update(k, updated_user_view(args)), ..s };
    assert(s.users[k].id == args.id);
    if args.ad_id is Some {
        let a = args.ad_id->0;
        lemma_user_idx_by_ad_id(s.users, a);
        assert forall|i: int, j: int| 0 <= i < j < s2.users.len() implies !((
        #[trigger] s2.users[i]).ad_id is Some && s2.users[i].ad_id == (
        #[trigger] s2.users[j]).ad_id) by {
            if i != k && j != k {
                assert(s2.users[i] == s.users[i]);
                assert(s2.users[j] == s.users[j]);
            }
        }
    }
}

} // verus!
