//! The engine's cross-cutting guarantees, stated and proved over the
//! models of the two reconciliation stages.

use vstd::prelude::*;

use crate::cache::cache_lookup;
use crate::intranet::IntranetUserView;
use crate::job_title_sync::{
    count_new_labels, lemma_spec_dedup, lemma_title_pass_from, lemma_title_pass_stable,
    roster_labels, spec_dedup, spec_title_pass,
};
use crate::uow::{
    find_title_by_label, find_user_by_ad_id_spec, lemma_title_idx_by_id, lemma_title_idx_by_label,
    store_wf, title_idx_by_id, title_idx_by_label, StoreView,
};
use crate::user_sync::{
    cache_consistent, distinct_external_ids, lemma_user_pass_error_events, lemma_user_pass_from,
    lemma_user_pass_stable, spec_miss_error_events, spec_user_pass, user_error_pred,
    user_matches_roster, UserOutcome,
};

verus! {

/// The cache a title pass builds hands out only ids of existing rows.
pub proof fn lemma_title_pass_cache_consistent(s: StoreView, labels: Seq<Seq<char>>)
    requires
        store_wf(s),
        labels.no_duplicates(),
    ensures
        cache_consistent(spec_title_pass(s, labels).1, spec_title_pass(s, labels).0),
{
    lemma_title_pass_from(s, labels, 0, labels.len() as int);
    let (s1, cache, events) = spec_title_pass(s, labels);
    assert forall|l: Seq<char>| #[trigger] cache.contains_key(l) implies title_idx_by_id(
        s1.job_titles,
        cache[l],
    ) != -1 by {
        assert(find_title_by_label(s1.job_titles, l) matches Some(t) && t.id == cache[l]);
        lemma_title_idx_by_label(s1.job_titles, l);
        let k = title_idx_by_label(s1.job_titles, l);
        lemma_title_idx_by_id(s1.job_titles, cache[l]);
        if title_idx_by_id(s1.job_titles, cache[l]) == -1 {
            assert(s1.job_titles[k].id != cache[l]);
        }
    }
}

/// Cache completeness: a title pass over a duplicate-free label list
/// leaves a cache with exactly one entry per label, each binding
/// resolving to the row that holds the label, and the store gains exactly
/// one job-title row per label that had none; user rows are untouched.
pub proof fn lemma_cache_completeness(s: StoreView, labels: Seq<Seq<char>>)
    requires
        store_wf(s),
        labels.no_duplicates(),
    ensures
        ({
            let (s1, cache, events) = spec_title_pass(s, labels);
            &&& forall|l: Seq<char>| #[trigger] cache.contains_key(l) <==> labels.contains(l)
            &&& cache.dom().len() == labels.len()
            &&& s1.job_titles.len() == s.job_titles.len() + count_new_labels(s.job_titles, labels)
            &&& forall|l: Seq<char>|
                #[trigger] cache.contains_key(l) ==> (find_title_by_label(s1.job_titles, l)
                    matches Some(t) && t.id == cache[l])
            &&& s1.users == s.users
        }),
{
    lemma_title_pass_from(s, labels, 0, labels.len() as int);
    let (s1, cache, events) = spec_title_pass(s, labels);
    assert(labels.skip(0) =~= labels);
    assert(cache.dom() =~= labels.to_set());
    labels.unique_seq_to_set();
}

/// Cache-miss propagation and fault isolation: every record of the pass
/// gets an outcome — a miss never aborts the loop — and a record's
/// outcome is the cache-miss failure exactly when the cache does not bind
/// its label; every hit record ends up stored as the roster reports it.
pub proof fn lemma_cache_miss_propagation(
    s: StoreView,
    cache: Map<Seq<char>, int>,
    users: Seq<IntranetUserView>,
)
    requires
        store_wf(s),
        cache_consistent(cache, s),
        distinct_external_ids(users),
    ensures
        ({
            let (s1, outcomes, events) = spec_user_pass(s, cache, users);
            &&& outcomes.len() == users.len()
            &&& forall|j: int|
                0 <= j < users.len() ==> (((#[trigger] outcomes[j]) == UserOutcome::CacheMiss)
                    <==> !cache.contains_key(users[j].job_title))
            &&& forall|j: int|
                0 <= j < users.len() ==> (cache.contains_key((#[trigger] users[j]).job_title)
                    ==> (find_user_by_ad_id_spec(s1.users, users[j].id) matches Some(u)
                    && user_matches_roster(u, users[j], cache[users[j].job_title])))
        }),
{
    lemma_user_pass_from(s, cache, users, 0, users.len() as int);
}

/// Fault isolation, on the reporting side: among everything a user pass
/// publishes, the error events are exactly one per failed record, in
/// roster order, each carrying the record it names — a failure is
/// reported once, and a record that succeeds is never reported failed.
pub proof fn lemma_fault_isolation(
    s: StoreView,
    cache: Map<Seq<char>, int>,
    users: Seq<IntranetUserView>,
)
    requires
        store_wf(s),
        cache_consistent(cache, s),
    ensures
        spec_user_pass(s, cache, users).2.filter(user_error_pred()) == spec_miss_error_events(
            cache,
            users,
            0,
            users.len() as int,
        ),
{
    lemma_user_pass_error_events(s, cache, users, 0, users.len() as int);
}

/// Update semantics: after a pass, every record whose label the cache
/// binds is stored with the roster's external identity, email, full name
/// and job title; a user that already existed keeps its primary id and,
/// like every stored row, its password untouched.
pub proof fn lemma_update_semantics(
    s: StoreView,
    cache: Map<Seq<char>, int>,
    users: Seq<IntranetUserView>,
)
    requires
        store_wf(s),
        cache_consistent(cache, s),
        distinct_external_ids(users),
    ensures
        ({
            let (s1, outcomes, events) = spec_user_pass(s, cache, users);
            &&& forall|j: int|
                0 <= j < users.len() ==> (cache.contains_key((#[trigger] users[j]).job_title)
                    ==> (find_user_by_ad_id_spec(s1.users, users[j].id) matches Some(u1)
                    && user_matches_roster(u1, users[j], cache[users[j].job_title])
                    && (find_user_by_ad_id_spec(s.users, users[j].id) matches Some(u0)
                    ==> u1.password == u0.password && u1.id == u0.id)))
            &&& forall|j: int|
                0 <= j < s.users.len() ==> (#[trigger] s1.users[j]).password
                    == s.users[j].password
        }),
{
    lemma_user_pass_from(s, cache, users, 0, users.len() as int);
}

/// Idempotence: two consecutive full passes over an unchanged roster
/// leave the second pass with nothing to write — the second title stage
/// returns the same store and the same cache, and the second user stage
/// changes nothing, every outcome being unchanged or the same cache miss
/// as before.  The roster must not name one external identity twice: with
/// two records under one identity and different fields, each pass rewrites
/// the row to the later record and the next pass finds the earlier one
/// out of date again.
pub proof fn lemma_idempotent_pass(s: StoreView, users: Seq<IntranetUserView>)
    requires
        store_wf(s),
        distinct_external_ids(users),
    ensures
        ({
            let labels = spec_dedup(roster_labels(users));
            let titles1 = spec_title_pass(s, labels);
            let users1 = spec_user_pass(titles1.0, titles1.1, users);
            let titles2 = spec_title_pass(users1.0, labels);
            let users2 = spec_user_pass(titles2.0, titles2.1, users);
            &&& titles2.0 == users1.0
            &&& titles2.1 == titles1.1
            &&& users2.0 == titles2.0
            &&& forall|j: int|
                0 <= j < users2.1.len() ==> ((#[trigger] users2.1[j]) == UserOutcome::Unchanged
                    || users2.1[j] == UserOutcome::CacheMiss)
        }),
{
    let labels = spec_dedup(roster_labels(users));
    lemma_spec_dedup(roster_labels(users));
    let total_titles = labels.len() as int;
    let total_users = users.len() as int;
    assert(labels.skip(0) =~= labels);

    lemma_title_pass_from(s, labels, 0, total_titles);
    let titles1 = spec_title_pass(s, labels);
    lemma_title_pass_cache_consistent(s, labels);

    lemma_user_pass_from(titles1.0, titles1.1, users, 0, total_users);
    let users1 = spec_user_pass(titles1.0, titles1.1, users);
    assert(users1.0.job_titles == titles1.0.job_titles);

    // the second title stage finds every label and writes nothing
    assert forall|j: int| 0 <= j < labels.len() implies find_title_by_label(
        users1.0.job_titles,
        #[trigger] labels[j],
    ) is Some by {
        assert(titles1.1.contains_key(labels[j]));
    }
    lemma_title_pass_stable(users1.0, labels, 0, total_titles);
    let titles2 = spec_title_pass(users1.0, labels);
    assert(titles2.0 == users1.0);

    // ... and rebuilds the same cache, binding for binding
    lemma_title_pass_from(users1.0, labels, 0, total_titles);
    assert(titles2.1 =~= titles1.1) by {
        assert forall|l: Seq<char>|
            #[trigger] titles2.1.contains_key(l) <==> titles1.1.contains_key(l) by {}
        assert forall|l: Seq<char>| #[trigger] titles2.1.contains_key(l) implies titles2.1[l]
            == titles1.1[l] by {
            assert(find_title_by_label(titles2.0.job_titles, l) matches Some(t2) && t2.id
                == titles2.1[l]);
            assert(find_title_by_label(titles1.0.job_titles, l) matches Some(t1) && t1.id
                == titles1.1[l]);
            assert(titles2.0.job_titles == titles1.0.job_titles);
        }
    }

    // the second user stage finds every hit record already matching
    assert(cache_consistent(titles2.1, titles2.0));
    assert forall|j: int| 0 <= j < users.len() implies (cache_lookup(
        titles2.1,
        (#[trigger] users[j]).job_title,
    ) matches Some(jt) ==> (find_user_by_ad_id_spec(titles2.0.users, users[j].id)
        matches Some(u) && user_matches_roster(u, users[j], jt))) by {
        if cache_lookup(titles2.1, users[j].job_title) is Some {
            assert(titles1.1.contains_key(users[j].job_title));
        }
    }
    lemma_user_pass_stable(titles2.0, titles2.1, users, 0, total_users);
}

} // verus!
