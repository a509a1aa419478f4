//! The user reconciler: creates or updates local users from a roster
//! snapshot, resolving job titles through the cache of the pass.
//!
//! Each record is handled independently, in its own transaction: a cache
//! miss or a storage failure skips that record only and never aborts the
//! loop.  `spec_user_pass` is the mathematical model of one pass over the
//! in-memory store, where the only failure left is the cache miss; an
//! embedding application that drives a real database takes its decisions
//! from [`plan_user_sync`] and [`decide_user_change`] and recovers from
//! storage failures record by record in the same way.

use vstd::prelude::*;

use crate::cache::{cache_lookup, JobTitleCache};
use crate::intranet::{IntranetUserDto, IntranetUserView};
use crate::status::{
    Status, StatusView, UserSynchronizationError, UserSynchronizationErrorWrapper,
    UserSynchronizationErrorWrapperView, UserSynchronizationErrorView,
};
use crate::uow::{
    clone_opt_string, created_user_view, find_user_by_ad_id_spec,
    lemma_first_index_where_congruence, lemma_first_index_where_push, lemma_update_user_wf,
    lemma_user_idx_by_ad_id, lemma_user_idx_by_id, pred_user_ad_id, store_wf, title_idx_by_id,
    updated_user_view, user_idx_by_ad_id, user_idx_by_id, CreateUserArgs, CreateUserArgsView,
    LocalStore, StoreView, UpdateUserArgs, UpdateUserArgsView, UserEntity, UserView,
};

verus! {

/// The change that one roster record induces on the local store.
#[derive(Debug)]
pub enum UserChange {
    Create(CreateUserArgs),
    Update(UpdateUserArgs),
    NoChange,
}

/// How one roster record fared in a pass over the in-memory store.
#[derive(Clone, Copy, Debug, PartialEq, Eq, Structural)]
pub enum UserOutcome {
    Created,
    Updated,
    Unchanged,
    CacheMiss,
}

/// Whether a stored row already carries exactly what the roster reports:
/// the external identity, the email, the full name and the job title.
pub open spec fn user_matches_roster(u: UserView, r: IntranetUserView, job_title_id: int) -> bool {
    &&& u.ad_id == Some(r.id)
    &&& u.email == Some(r.email)
    &&& u.full_name == r.full_name
    &&& u.job_title_id == job_title_id
}

/// The create-user arguments a new roster record induces: the password is
/// left unset.
pub open spec fn create_args_view(r: IntranetUserView, job_title_id: int) -> CreateUserArgsView {
    CreateUserArgsView {
        ad_id: Some(r.id),
        email: Some(r.email),
        hashed_password: None,
        full_name: r.full_name,
        job_title_id: job_title_id,
        is_active: r.is_enabled,
    }
}

/// The update-user arguments a changed roster record induces: exactly the
/// four reconciled fields are rewritten; the stored password and active
/// flag are carried over untouched.
pub open spec fn update_args_view(u: UserView, r: IntranetUserView, job_title_id: int) -> UpdateUserArgsView {
    UpdateUserArgsView {
        id: u.id,
        ad_id: Some(r.id),
        email: Some(r.email),
        hashed_password: u.password,
        full_name: r.full_name,
        job_title_id: job_title_id,
        is_active: u.is_active,
    }
}

/// The error published when a record's label is missing from the cache.
pub open spec fn cache_miss_wrapper_view(r: IntranetUserView) -> UserSynchronizationErrorWrapperView {
    UserSynchronizationErrorWrapperView {
        user_entity: None,
        intranet_user: Some(r),
        error: UserSynchronizationErrorView::FailedToGetJobTitleIdFromCache(r.job_title),
    }
}

/// Every id the cache hands out resolves to an existing job title.
pub open spec fn cache_consistent(cache: Map<Seq<char>, int>, s: StoreView) -> bool {
    forall|l: Seq<char>|
        #[trigger] cache.contains_key(l) ==> title_idx_by_id(s.job_titles, cache[l]) != -1
}

/// One roster record, reconciled against a store image.
pub open spec fn spec_process_user(
    s: StoreView,
    cache: Map<Seq<char>, int>,
    r: IntranetUserView,
) -> (StoreView, UserOutcome) {
    match cache_lookup(cache, r.job_title) {
        None => (s, UserOutcome::CacheMiss),
        Some(job_title_id) => {
            let k = user_idx_by_ad_id(s.users, r.id);
            if k == -1 {
                (
                    StoreView {
                        users: s.users.push(
                            created_user_view(create_args_view(r, job_title_id), s.next_user_id),
                        ),
                        next_user_id: s.next_user_id + 1,
                        ..s
                    },
                    UserOutcome::Created,
                )
            } else if user_matches_roster(s.users[k], r, job_title_id) {
                (s, UserOutcome::Unchanged)
            } else {
                (
                    StoreView {
                        users: s.users.update(
                            k,
                            updated_user_view(update_args_view(s.users[k], r, job_title_id)),
                        ),
                        ..s
                    },
                    UserOutcome::Updated,
                )
            }
        },
    }
}

/// The user pass from record `i` on: the final store, the outcome of each
/// remaining record, and the events published.
pub open spec fn spec_user_pass_from(
    s: StoreView,
    cache: Map<Seq<char>, int>,
    users: Seq<IntranetUserView>,
    i: int,
    total: int,
) -> (StoreView, Seq<UserOutcome>, Seq<StatusView>)
    decreases users.len() - i,
{
    if i < 0 || i >= users.len() {
        (s, Seq::empty(), seq![StatusView::UserSynchronizationFinished { total: total }])
    } else {
        let processed = spec_process_user(s, cache, users[i]);
        let rest = spec_user_pass_from(processed.0, cache, users, i + 1, total);
        (
            rest.0,
            seq![processed.1] + rest.1,
            seq![
                StatusView::SynchronizingUser {
                    user_full_name: users[i].full_name,
                    user_email: users[i].email,
                    current_item: i + 1,
                    total: total,
                },
            ] + (if processed.1 == UserOutcome::CacheMiss {
                seq![
                    StatusView::UserSynchronizationError {
                        current_item: i + 1,
                        total: total,
                        error: cache_miss_wrapper_view(users[i]),
                    },
                ]
            } else {
                Seq::empty()
            }) + rest.2,
        )
    }
}

/// One whole user pass over a roster snapshot.
pub open spec fn spec_user_pass(
    s: StoreView,
    cache: Map<Seq<char>, int>,
    users: Seq<IntranetUserView>,
) -> (StoreView, Seq<UserOutcome>, Seq<StatusView>) {
    spec_user_pass_from(s, cache, users, 0, users.len() as int)
}

/// No two roster records claim the same external identity.
pub open spec fn distinct_external_ids(users: Seq<IntranetUserView>) -> bool {
    forall|i: int, j: int|
        0 <= i < j < users.len() ==> (#[trigger] users[i]).id != (#[trigger] users[j]).id
}

/// Effect of reconciling one record: the store stays well formed, job
/// titles are untouched, the record's user matches the roster afterwards
/// (unless its label missed the cache), every other external identity is
/// undisturbed, and no stored password or id changes.
pub proof fn lemma_process_user(s: StoreView, cache: Map<Seq<char>, int>, r: IntranetUserView)
    requires
        store_wf(s),
        cache_consistent(cache, s),
    ensures
        ({
            let (s1, o) = spec_process_user(s, cache, r);
            &&& store_wf(s1)
            &&& s1.job_titles == s.job_titles
            &&& s1.next_job_title_id == s.next_job_title_id
            &&& s.next_user_id <= s1.next_user_id <= s.next_user_id + 1
            &&& s.users.len() <= s1.users.len()
            &&& (o == UserOutcome::CacheMiss <==> cache_lookup(cache, r.job_title) is None)
            &&& (o == UserOutcome::CacheMiss ==> s1 == s)
            &&& (o != UserOutcome::CacheMiss ==> (find_user_by_ad_id_spec(s1.users, r.id)
                matches Some(u) && user_matches_roster(u, r, cache[r.job_title])))
            &&& (o != UserOutcome::CacheMiss ==> (find_user_by_ad_id_spec(s.users, r.id)
                matches Some(u0) ==> (find_user_by_ad_id_spec(s1.users, r.id) matches Some(u1)
                && u1.password == u0.password && u1.id == u0.id)))
            &&& (o == UserOutcome::Unchanged ==> s1 == s)
            &&& forall|a: int|
                a != r.id ==> #[trigger] find_user_by_ad_id_spec(s1.users, a)
                    == find_user_by_ad_id_spec(s.users, a)
            &&& forall|j: int|
                0 <= j < s.users.len() ==> {
                    &&& (#[trigger] s1.users[j]).id == s.users[j].id
                    &&& s1.users[j].password == s.users[j].password
                    &&& s1.users[j].ad_id == s.users[j].ad_id
                    &&& s1.users[j].is_active == s.users[j].is_active
                }
        }),
{
    let (s1, o) = spec_process_user(s, cache, r);
    if cache_lookup(cache, r.job_title) is Some {
        let job_title_id = cache[r.job_title];
        assert(title_idx_by_id(s.job_titles, job_title_id) != -1);
        lemma_user_idx_by_ad_id(s.users, r.id);
        let k = user_idx_by_ad_id(s.users, r.id);
        if k == -1 {
            let row = created_user_view(create_args_view(r, job_title_id), s.next_user_id);
            assert(s1.users == s.users.push(row));
            // well-formedness of the grown store
            assert forall|i: int, j: int|
                0 <= i < j < s1.users.len() implies !((#[trigger] s1.users[i]).ad_id is Some
                && s1.users[i].ad_id == (#[trigger] s1.users[j]).ad_id) by {
                if j == s.users.len() {
                    assert(s1.users[i] == s.users[i]);
                    assert(s.users[i].ad_id != Some(r.id));
                }
            }
            assert forall|i: int| 0 <= i < s1.users.len() implies title_idx_by_id(
                s1.job_titles,
                (#[trigger] s1.users[i]).job_title_id,
            ) != -1 by {
                if i < s.users.len() {
                    assert(s1.users[i] == s.users[i]);
                }
            }
            // the new row is the one found under the record's identity
            lemma_first_index_where_push(s.users, pred_user_ad_id(r.id), row);
            lemma_user_idx_by_ad_id(s1.users, r.id);
            assert(user_idx_by_ad_id(s1.users, r.id) == s.users.len());
            assert(s1.users[s.users.len() as int] == row);
            // other identities are undisturbed
            assert forall|a: int| a != r.id implies #[trigger] find_user_by_ad_id_spec(
                s1.users,
                a,
            ) == find_user_by_ad_id_spec(s.users, a) by {
                lemma_first_index_where_push(s.users, pred_user_ad_id(a), row);
                lemma_user_idx_by_ad_id(s.users, a);
                let ka = user_idx_by_ad_id(s.users, a);
                if ka != -1 {
                    assert(s1.users[ka] == s.users[ka]);
                }
            }
        } else {
            assert(s.users[k].ad_id == Some(r.id));
            if !user_matches_roster(s.users[k], r, job_title_id) {
                let args = update_args_view(s.users[k], r, job_title_id);
                let row = updated_user_view(args);
                assert(s1.users == s.users.update(k, row));
                // the row keeps its primary id, so the id lookup agrees
                lemma_user_idx_by_id(s.users, args.id);
                let k2 = user_idx_by_id(s.users, args.id);
                assert(k2 != -1) by {
                    if k2 == -1 {
                        assert(s.users[k].id != args.id);
                    }
                }
                assert(k2 == k) by {
                    if k2 < k {
                        assert(s.users[k2].id == s.users[k].id);
                    } else if k2 > k {
                        assert(s.users[k2].id == s.users[k].id);
                    }
                }
                lemma_update_user_wf(s, args, k);
                // the updated row is still the one found under the identity
                assert forall|a: int| true implies user_idx_by_ad_id(s1.users, a)
                    == user_idx_by_ad_id(s.users, a) by {
                    assert forall|j: int|
                        0 <= j < s.users.len() implies pred_user_ad_id(a)(
                        #[trigger] s1.users[j],
                    ) == pred_user_ad_id(a)(#[trigger] s.users[j]) by {
                        if j == k {
                            assert(s1.users[j].ad_id == Some(r.id));
                            assert(s.users[j].ad_id == Some(r.id));
                        } else {
                            assert(s1.users[j] == s.users[j]);
                        }
                    }
                    lemma_first_index_where_congruence(s1.users, s.users, pred_user_ad_id(a));
                }
                assert(find_user_by_ad_id_spec(s1.users, r.id) == Some(s1.users[k]));
                assert(user_matches_roster(s1.users[k], r, job_title_id));
                assert(find_user_by_ad_id_spec(s.users, r.id) == Some(s.users[k]));
                assert(s1.users[k].password == s.users[k].password);
                assert(s1.users[k].id == s.users[k].id);
                assert forall|a: int| a != r.id implies #[trigger] find_user_by_ad_id_spec(
                    s1.users,
                    a,
                ) == find_user_by_ad_id_spec(s.users, a) by {
                    lemma_user_idx_by_ad_id(s.users, a);
                    let ka = user_idx_by_ad_id(s.users, a);
                    if ka != -1 {
                        assert(s.users[ka].ad_id == Some(a));
                        assert(ka != k);
                        assert(s1.users[ka] == s.users[ka]);
                    }
                }
            } else {
                assert(find_user_by_ad_id_spec(s1.users, r.id) == Some(s.users[k]));
            }
        }
    }
}

/// Recognizes a user-error event.
pub open spec fn user_error_pred() -> spec_fn(StatusView) -> bool {
    |e: StatusView| e is UserSynchronizationError
}

/// The error events a pass publishes: one per failed record, in roster
/// order, each naming its record.
pub open spec fn spec_miss_error_events(
    cache: Map<Seq<char>, int>,
    users: Seq<IntranetUserView>,
    i: int,
    total: int,
) -> Seq<StatusView>
    decreases users.len() - i,
{
    if i < 0 || i >= users.len() {
        Seq::empty()
    } else {
        (if cache_lookup(cache, users[i].job_title) is None {
            seq![
                StatusView::UserSynchronizationError {
                    current_item: i + 1,
                    total: total,
                    error: cache_miss_wrapper_view(users[i]),
                },
            ]
        } else {
            Seq::empty()
        }) + spec_miss_error_events(cache, users, i + 1, total)
    }
}

/// Among everything a user pass publishes, the error events are exactly
/// one per failed record, in order — a failure is reported, and never
/// more than once.
pub proof fn lemma_user_pass_error_events(
    s: StoreView,
    cache: Map<Seq<char>, int>,
    users: Seq<IntranetUserView>,
    i: int,
    total: int,
)
    requires
        store_wf(s),
        cache_consistent(cache, s),
        0 <= i <= users.len(),
    ensures
        spec_user_pass_from(s, cache, users, i, total).2.filter(user_error_pred())
            == spec_miss_error_events(cache, users, i, total),
    decreases users.len() - i,
{
    reveal(Seq::filter);
    let p = user_error_pred();
    if i >= users.len() {
        let evs = spec_user_pass_from(s, cache, users, i, total).2;
        assert(evs.drop_last() =~= Seq::<StatusView>::empty());
        assert(Seq::<StatusView>::empty().filter(p) =~= Seq::<StatusView>::empty());
        assert(evs.filter(p) =~= Seq::<StatusView>::empty());
    } else {
        let r = users[i];
        lemma_process_user(s, cache, r);
        let (sm, o) = spec_process_user(s, cache, r);
        lemma_user_pass_error_events(sm, cache, users, i + 1, total);
        let rest = spec_user_pass_from(sm, cache, users, i + 1, total);
        let sync_ev = StatusView::SynchronizingUser {
            user_full_name: r.full_name,
            user_email: r.email,
            current_item: i + 1,
            total: total,
        };
        let miss_evs: Seq<StatusView> = if o == UserOutcome::CacheMiss {
            seq![
                StatusView::UserSynchronizationError {
                    current_item: i + 1,
                    total: total,
                    error: cache_miss_wrapper_view(r),
                },
            ]
        } else {
            Seq::empty()
        };
        let evs = spec_user_pass_from(s, cache, users, i, total).2;
        assert(evs == seq![sync_ev] + miss_evs + rest.2);
        Seq::filter_distributes_over_add(seq![sync_ev] + miss_evs, rest.2, p);
        Seq::filter_distributes_over_add(seq![sync_ev], miss_evs, p);
        assert(seq![sync_ev].drop_last() =~= Seq::<StatusView>::empty());
        assert(Seq::<StatusView>::empty().filter(p) =~= Seq::<StatusView>::empty());
        assert(seq![sync_ev].filter(p) =~= Seq::<StatusView>::empty());
        if o == UserOutcome::CacheMiss {
            assert(miss_evs.drop_last() =~= Seq::<StatusView>::empty());
            assert(miss_evs.filter(p) =~= miss_evs);
        } else {
            assert(miss_evs.filter(p) =~= Seq::<StatusView>::empty());
        }
        assert(evs.filter(p) =~= miss_evs + rest.2.filter(p));
        assert(spec_miss_error_events(cache, users, i, total) == miss_evs
            + spec_miss_error_events(cache, users, i + 1, total));
        assert(evs.filter(p) =~= spec_miss_error_events(cache, users, i, total));
    }
}

/// The whole-pass guarantees behind fault isolation, cache-miss
/// propagation and the update semantics: every record gets an outcome, a
/// record's outcome is a cache miss exactly when its label is unbound,
/// after the pass every hit record's user matches the roster, an external
/// identity no record claims is untouched, and no stored password or
/// primary id ever changes.
pub proof fn lemma_user_pass_from(
    s: StoreView,
    cache: Map<Seq<char>, int>,
    users: Seq<IntranetUserView>,
    i: int,
    total: int,
)
    requires
        store_wf(s),
        cache_consistent(cache, s),
        0 <= i <= users.len(),
        distinct_external_ids(users),
    ensures
        ({
            let (s1, outs, evs) = spec_user_pass_from(s, cache, users, i, total);
            &&& store_wf(s1)
            &&& s1.job_titles == s.job_titles
            &&& s1.next_job_title_id == s.next_job_title_id
            &&& outs.len() == users.len() - i
            &&& forall|j: int|
                0 <= j < outs.len() ==> (((#[trigger] outs[j]) == UserOutcome::CacheMiss)
                    <==> cache_lookup(cache, users[i + j].job_title) is None)
            &&& forall|j: int|
                i <= j < users.len() ==> (cache_lookup(
                    cache,
                    (#[trigger] users[j]).job_title,
                ) matches Some(jt) ==> (find_user_by_ad_id_spec(s1.users, users[j].id)
                    matches Some(u1) && user_matches_roster(u1, users[j], jt)
                    && (find_user_by_ad_id_spec(s.users, users[j].id) matches Some(u0)
                    ==> u1.password == u0.password && u1.id == u0.id)))
            &&& forall|a: int|
                (forall|j: int| i <= j < users.len() ==> (#[trigger] users[j]).id != a)
                    ==> #[trigger] find_user_by_ad_id_spec(s1.users, a)
                    == find_user_by_ad_id_spec(s.users, a)
            &&& forall|j: int|
                0 <= j < s.users.len() ==> {
                    &&& (#[trigger] s1.users[j]).id == s.users[j].id
                    &&& s1.users[j].password == s.users[j].password
                    &&& s1.users[j].ad_id == s.users[j].ad_id
                }
        }),
    decreases users.len() - i,
{
    if i < users.len() {
        let r = users[i];
        lemma_process_user(s, cache, r);
        let (sm, o) = spec_process_user(s, cache, r);
        lemma_user_pass_from(sm, cache, users, i + 1, total);
        let (s1, outs_rest, evs_rest) = spec_user_pass_from(sm, cache, users, i + 1, total);
        let (s1b, outs, evs) = spec_user_pass_from(s, cache, users, i, total);
        assert(s1b == s1);
        assert(outs == seq![o] + outs_rest);
        assert forall|j: int|
            0 <= j < outs.len() implies (((#[trigger] outs[j]) == UserOutcome::CacheMiss)
            <==> cache_lookup(cache, users[i + j].job_title) is None) by {
            if j == 0 {
                assert(outs[0] == o);
            } else {
                assert(outs[j] == outs_rest[j - 1]);
            }
        }
        assert forall|j: int|
            i <= j < users.len() implies (cache_lookup(
            cache,
            (#[trigger] users[j]).job_title,
        ) matches Some(jt) ==> (find_user_by_ad_id_spec(s1.users, users[j].id) matches Some(u1)
            && user_matches_roster(u1, users[j], jt) && (find_user_by_ad_id_spec(
            s.users,
            users[j].id,
        ) matches Some(u0) ==> u1.password == u0.password && u1.id == u0.id))) by {
            if cache_lookup(cache, users[j].job_title) is Some {
                if j == i {
                    // the record was just reconciled and later records carry
                    // other identities, so the row survives to the end
                    assert(forall|j2: int|
                        i + 1 <= j2 < users.len() ==> (#[trigger] users[j2]).id != r.id);
                    assert(find_user_by_ad_id_spec(s1.users, r.id) == find_user_by_ad_id_spec(
                        sm.users,
                        r.id,
                    ));
                } else {
                    assert(users[j].id != r.id);
                    assert(find_user_by_ad_id_spec(sm.users, users[j].id)
                        == find_user_by_ad_id_spec(s.users, users[j].id));
                }
            }
        }
        assert forall|a: int|
            (forall|j: int| i <= j < users.len() ==> (#[trigger] users[j]).id != a)
            implies #[trigger] find_user_by_ad_id_spec(s1.users, a) == find_user_by_ad_id_spec(
            s.users,
            a,
        ) by {
            assert(users[i].id != a);
            assert(find_user_by_ad_id_spec(sm.users, a) == find_user_by_ad_id_spec(s.users, a));
        }
    }
}

/// A pass over a store that already carries the roster writes nothing:
/// every record whose label the cache binds is found matching, so each
/// outcome is unchanged or a cache miss and the store is left exactly as
/// it was.
pub proof fn lemma_user_pass_stable(
    s: StoreView,
    cache: Map<Seq<char>, int>,
    users: Seq<IntranetUserView>,
    i: int,
    total: int,
)
    requires
        store_wf(s),
        cache_consistent(cache, s),
        0 <= i <= users.len(),
        forall|j: int|
            i <= j < users.len() ==> (cache_lookup(
                cache,
                (#[trigger] users[j]).job_title,
            ) matches Some(jt) ==> (find_user_by_ad_id_spec(s.users, users[j].id)
                matches Some(u) && user_matches_roster(u, users[j], jt))),
    ensures
        ({
            let (s1, outs, evs) = spec_user_pass_from(s, cache, users, i, total);
            &&& s1 == s
            &&& forall|j: int|
                0 <= j < outs.len() ==> ((#[trigger] outs[j]) == UserOutcome::Unchanged
                    || outs[j] == UserOutcome::CacheMiss)
        }),
    decreases users.len() - i,
{
    if i < users.len() {
        let r = users[i];
        let (sm, o) = spec_process_user(s, cache, r);
        if cache_lookup(cache, r.job_title) is Some {
            let jt = cache[r.job_title];
            lemma_user_idx_by_ad_id(s.users, r.id);
            let k = user_idx_by_ad_id(s.users, r.id);
            assert(find_user_by_ad_id_spec(s.users, r.id) matches Some(u)
                && user_matches_roster(u, r, jt));
            assert(k != -1);
            assert(user_matches_roster(s.users[k], r, jt));
            assert(sm == s);
            assert(o == UserOutcome::Unchanged);
        }
        lemma_user_pass_stable(s, cache, users, i + 1, total);
        let (s1, outs_rest, evs_rest) = spec_user_pass_from(s, cache, users, i + 1, total);
        let (s1b, outs, evs) = spec_user_pass_from(s, cache, users, i, total);
        assert(outs == seq![o] + outs_rest);
        assert forall|j: int|
            0 <= j < outs.len() implies ((#[trigger] outs[j]) == UserOutcome::Unchanged
            || outs[j] == UserOutcome::CacheMiss) by {
            if j > 0 {
                assert(outs[j] == outs_rest[j - 1]);
            } else {
                assert(outs[0] == o);
            }
        }
    }
}

/// Resolves a record's job title through the cache; a miss fails exactly
/// this record, with the cache-miss error naming it.
pub fn plan_user_sync(cache: &JobTitleCache, intranet_user: &IntranetUserDto) -> (r: Result<
    i32,
    UserSynchronizationErrorWrapper,
>)
    requires
        cache.wf(),
    ensures
        r matches Ok(id) ==> cache_lookup(cache@, intranet_user@.job_title) == Some(id as int),
        r is Err <==> cache_lookup(cache@, intranet_user@.job_title) is None,
        r matches Err(w) ==> w@ == cache_miss_wrapper_view(intranet_user@),
{
    match cache.get(&intranet_user.job_title) {
        Some(id) => Ok(id),
        None => Err(
            UserSynchronizationErrorWrapper {
                user_entity: None,
                intranet_user: Some(intranet_user.clone()),
                error: UserSynchronizationError::FailedToGetJobTitleIdFromCache(
                    intranet_user.job_title.clone(),
                ),
            },
        ),
    }
}

/// Compares a found row field by field with the roster record and decides
/// the storage operation: insert a new user, rewrite exactly the four
/// reconciled fields, or leave the row alone.  The stored password is
/// never part of an update.
pub fn decide_user_change(
    existing: &Option<UserEntity>,
    intranet_user: &IntranetUserDto,
    job_title_id: i32,
) -> (c: UserChange)
    ensures
        existing is None ==> (c matches UserChange::Create(args) && args@ == create_args_view(
            intranet_user@,
            job_title_id as int,
        )),
        existing matches Some(u) ==> (if user_matches_roster(
            u@,
            intranet_user@,
            job_title_id as int,
        ) {
            c is NoChange
        } else {
            c matches UserChange::Update(args) && args@ == update_args_view(
                u@,
                intranet_user@,
                job_title_id as int,
            )
        }),
{
    match existing {
        None => UserChange::Create(
            CreateUserArgs {
                ad_id: Some(intranet_user.id),
                email: Some(intranet_user.email.clone()),
                hashed_password: None,
                full_name: intranet_user.full_name.clone(),
                job_title_id: job_title_id,
                is_active: intranet_user.is_enabled,
            },
        ),
        Some(user_entity) => {
            let same_ad_id = match user_entity.ad_id {
                Some(a) => a == intranet_user.id,
                None => false,
            };
            let same_email = match &user_entity.email {
                Some(e) => *e == intranet_user.email,
                None => false,
            };
            let same_full_name = user_entity.full_name == intranet_user.full_name;
            let same_job_title = user_entity.job_title_id == job_title_id;
            if same_ad_id && same_email && same_full_name && same_job_title {
                UserChange::NoChange
            } else {
                UserChange::Update(
                    UpdateUserArgs {
                        id: user_entity.id,
                        ad_id: Some(intranet_user.id),
                        email: Some(intranet_user.email.clone()),
                        hashed_password: clone_opt_string(&user_entity.password),
                        full_name: intranet_user.full_name.clone(),
                        job_title_id: job_title_id,
                        is_active: user_entity.is_active,
                    },
                )
            }
        },
    }
}

/// One roster record reconciled against the in-memory store, in what
/// stands for its own transaction: resolve the job title, look the user
/// up by external identity, then create, update or leave alone.
pub fn process_user(
    store: &mut LocalStore,
    cache: &JobTitleCache,
    intranet_user: &IntranetUserDto,
) -> (r: Result<UserOutcome, UserSynchronizationErrorWrapper>)
    requires
        store_wf(old(store)@),
        cache.wf(),
        cache_consistent(cache@, old(store)@),
        old(store)@.next_user_id < i32::MAX,
    ensures
        final(store)@ == spec_process_user(old(store)@, cache@, intranet_user@).0,
        r matches Ok(o) ==> o == spec_process_user(old(store)@, cache@, intranet_user@).1
            && o != UserOutcome::CacheMiss,
        r is Err <==> spec_process_user(old(store)@, cache@, intranet_user@).1
            == UserOutcome::CacheMiss,
        r matches Err(w) ==> w@ == cache_miss_wrapper_view(intranet_user@),
        store_wf(final(store)@),
{
    proof {
        lemma_process_user(old(store)@, cache@, intranet_user@);
    }
    let job_title_id = match plan_user_sync(cache, intranet_user) {
        Ok(id) => id,
        Err(wrapper) => {
            return Err(wrapper);
        },
    };
    let user_from_db = store.find_user_by_ad_id(intranet_user.id);
    let ghost k = user_idx_by_ad_id(store@.users, intranet_user@.id);
    proof {
        lemma_user_idx_by_ad_id(store@.users, intranet_user@.id);
    }
    match decide_user_change(&user_from_db, intranet_user, job_title_id) {
        UserChange::Create(args) => {
            store.create_user(&args);
            Ok(UserOutcome::Created)
        },
        UserChange::Update(args) => {
            proof {
                let u = store@.users[k];
                assert(args@.id == u.id);
                lemma_user_idx_by_id(store@.users, args@.id);
                let k2 = user_idx_by_id(store@.users, args@.id);
                assert(k2 != -1) by {
                    if k2 == -1 {
                        assert(store@.users[k].id != args@.id);
                    }
                }
                assert(k2 == k) by {
                    if k2 < k {
                        assert(store@.users[k2].id == store@.users[k].id);
                    } else if k2 > k {
                        assert(store@.users[k2].id == store@.users[k].id);
                    }
                }
            }
            store.update_user(&args);
            Ok(UserOutcome::Updated)
        },
        UserChange::NoChange => Ok(UserOutcome::Unchanged),
    }
}

/// One whole user pass over the in-memory store: every record handled
/// independently, a progress event before each attempt, an error event for
/// each cache miss, and a terminal finished event, exactly as the model
/// states.
pub fn run_user_pass(
    store: &mut LocalStore,
    cache: &JobTitleCache,
    intranet_users: &Vec<IntranetUserDto>,
) -> (r: (Vec<UserOutcome>, Vec<Status>))
    requires
        store_wf(old(store)@),
        cache.wf(),
        cache_consistent(cache@, old(store)@),
        old(store)@.next_user_id + intranet_users@.len() <= i32::MAX,
        intranet_users@.len() <= u32::MAX,
    ensures
        ({
            let (s1, outcomes, events) = spec_user_pass(
                old(store)@,
                cache@,
                intranet_users.deep_view(),
            );
            &&& final(store)@ == s1
            &&& r.0@ == outcomes
            &&& r.1.deep_view() == events
            &&& store_wf(final(store)@)
        }),
{
    let ghost s0 = store@;
    let ghost roster = intranet_users.deep_view();
    let ghost total_spec = roster.len() as int;
    let ghost full = spec_user_pass_from(s0, cache@, roster, 0, total_spec);
    let total: u32 = intranet_users.len() as u32;
    let mut outcomes: Vec<UserOutcome> = Vec::new();
    let mut events: Vec<Status> = Vec::new();
    let mut i: usize = 0;
    proof {
        assert(outcomes@ + spec_user_pass_from(s0, cache@, roster, 0, total_spec).1
            =~= spec_user_pass_from(s0, cache@, roster, 0, total_spec).1);
        assert(events.deep_view() + spec_user_pass_from(s0, cache@, roster, 0, total_spec).2
            =~= spec_user_pass_from(s0, cache@, roster, 0, total_spec).2);
    }
    while i < intranet_users.len()
        invariant
            store_wf(store@),
            cache.wf(),
            cache_consistent(cache@, store@),
            roster == intranet_users.deep_view(),
            full == spec_user_pass_from(s0, cache@, roster, 0, total_spec),
            i <= roster.len(),
            roster.len() <= u32::MAX,
            total == roster.len() as u32,
            total_spec == roster.len() as int,
            store@.next_user_id + (roster.len() - i) <= i32::MAX,
            full.0 == spec_user_pass_from(store@, cache@, roster, i as int, total_spec).0,
            full.1 == outcomes@ + spec_user_pass_from(
                store@,
                cache@,
                roster,
                i as int,
                total_spec,
            ).1,
            full.2 == events.deep_view() + spec_user_pass_from(
                store@,
                cache@,
                roster,
                i as int,
                total_spec,
            ).2,
        decreases roster.len() - i,
    {
        let ghost s_before = store@;
        let ghost outcomes_before = outcomes@;
        let ghost events_before = events.deep_view();
        let ghost rest_before = spec_user_pass_from(s_before, cache@, roster, i as int, total_spec);
        let intranet_user = &intranet_users[i];
        proof {
            assert(intranet_user@ == roster[i as int]);
            lemma_process_user(s_before, cache@, roster[i as int]);
        }
        events.push(
            Status::SynchronizingUser {
                user_full_name: intranet_user.full_name.clone(),
                user_email: intranet_user.email.clone(),
                current_item: (i as u32) + 1,
                total: total,
            },
        );
        let ghost events_mid = events.deep_view();
        let outcome = match process_user(store, cache, intranet_user) {
            Ok(outcome) => outcome,
            Err(error) => {
                events.push(
                    Status::UserSynchronizationError {
                        current_item: (i as u32) + 1,
                        total: total,
                        error,
                    },
                );
                UserOutcome::CacheMiss
            },
        };
        outcomes.push(outcome);
        i += 1;
        proof {
            let rest_after = spec_user_pass_from(store@, cache@, roster, i as int, total_spec);
            let processed = spec_process_user(s_before, cache@, roster[i - 1]);
            let sync_ev = StatusView::SynchronizingUser {
                user_full_name: roster[i - 1].full_name,
                user_email: roster[i - 1].email,
                current_item: i as int,
                total: total_spec,
            };
            assert(rest_before.0 == rest_after.0);
            assert(rest_before.1 == seq![processed.1] + rest_after.1);
            assert(outcome == processed.1);
            assert(outcomes@ =~= outcomes_before.push(outcome));
            assert(outcomes_before + rest_before.1 =~= outcomes@ + rest_after.1);
            assert(events_mid =~= events_before.push(sync_ev));
            if processed.1 == UserOutcome::CacheMiss {
                let err_ev = StatusView::UserSynchronizationError {
                    current_item: i as int,
                    total: total_spec,
                    error: cache_miss_wrapper_view(roster[i - 1]),
                };
                assert(events.deep_view() =~= events_mid.push(err_ev));
                assert(rest_before.2 == seq![sync_ev] + seq![err_ev] + rest_after.2);
                assert(events_before + rest_before.2 =~= events.deep_view() + rest_after.2);
            } else {
                assert(events.deep_view() == events_mid);
                assert(rest_before.2 == seq![sync_ev] + Seq::<StatusView>::empty()
                    + rest_after.2);
                assert(events_before + rest_before.2 =~= events.deep_view() + rest_after.2);
            }
        }
    }
    proof {
        let done = spec_user_pass_from(store@, cache@, roster, roster.len() as int, total_spec);
        assert(done.1 =~= Seq::<UserOutcome>::empty());
        assert(full.1 =~= outcomes@);
        assert(full.0 == store@);
    }
    events.push(Status::UserSynchronizationFinished { total: total });
    proof {
        let done = spec_user_pass_from(store@, cache@, roster, roster.len() as int, total_spec);
        assert(done.2 == seq![StatusView::UserSynchronizationFinished { total: total_spec }]);
        assert(events.deep_view() =~= full.2);
    }
    (outcomes, events)
}

} // verus!
