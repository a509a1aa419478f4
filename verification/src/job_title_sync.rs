//! The job-title reconciler: guarantees every label of a snapshot has a
//! local job-title record and builds the label-to-id cache of the pass.
//!
//! `spec_title_pass` is the mathematical model of one pass; the executable
//! pass over the in-memory store refines it exactly.  A label-scoped
//! storage failure is non-fatal in this stage: an embedding application
//! that drives a real database skips the label, publishes an error event
//! and leaves the label out of the cache, which the user pass then treats
//! as a cache miss.

use vstd::prelude::*;

use crate::cache::JobTitleCache;
use crate::status::{Status, StatusView};
use crate::uow::{
    find_title_by_label, lemma_title_idx_by_id, lemma_title_idx_by_id_push,
    lemma_title_idx_by_label, store_wf, title_idx_by_id, title_idx_by_label, CreateJobTitleArgs,
    JobTitleView, LocalStore, StoreView,
};

verus! {

/// The row that the job-title pass creates for an unseen label.
pub open spec fn bare_title_view(id: int, label: Seq<char>) -> JobTitleView {
    JobTitleView {
        id: id,
        name: None,
        intranet_name: label,
        company_department_id: None,
        parent_job_title_id: None,
    }
}

/// One label, reconciled: the id of the existing row, or a fresh bare row.
pub open spec fn spec_process_job_title(s: StoreView, label: Seq<char>) -> (StoreView, int) {
    match find_title_by_label(s.job_titles, label) {
        Some(t) => (s, t.id),
        None => (
            StoreView {
                job_titles: s.job_titles.push(bare_title_view(s.next_job_title_id, label)),
                next_job_title_id: s.next_job_title_id + 1,
                ..s
            },
            s.next_job_title_id,
        ),
    }
}

/// The job-title pass from item `i` on: the final store, the bindings the
/// remaining labels contribute to the cache, and the events published.
pub open spec fn spec_title_pass_from(
    s: StoreView,
    labels: Seq<Seq<char>>,
    i: int,
    total: int,
) -> (StoreView, Map<Seq<char>, int>, Seq<StatusView>)
    decreases labels.len() - i,
{
    if i < 0 || i >= labels.len() {
        (s, Map::empty(), seq![StatusView::JobTitleSynchronizationFinished { total: total }])
    } else {
        let processed = spec_process_job_title(s, labels[i]);
        let rest = spec_title_pass_from(processed.0, labels, i + 1, total);
        (
            rest.0,
            rest.1.insert(labels[i], processed.1),
            seq![
                StatusView::SynchronizingJobTitle {
                    intranet_name: labels[i],
                    current_item: i + 1,
                    total: total,
                },
            ] + rest.2,
        )
    }
}

/// One whole job-title pass over a deduplicated label list.
pub open spec fn spec_title_pass(s: StoreView, labels: Seq<Seq<char>>) -> (
    StoreView,
    Map<Seq<char>, int>,
    Seq<StatusView>,
) {
    spec_title_pass_from(s, labels, 0, labels.len() as int)
}

/// How many labels of the list have no row in the given titles yet.
pub open spec fn count_new_labels(ts: Seq<JobTitleView>, labels: Seq<Seq<char>>) -> int
    decreases labels.len(),
{
    if labels.len() == 0 {
        0
    } else {
        (if title_idx_by_label(ts, labels[0]) == -1 {
            1int
        } else {
            0int
        }) + count_new_labels(ts, labels.drop_first())
    }
}

/// A label list never contributes negatively to the row count.
pub proof fn lemma_count_new_labels_nonneg(ts: Seq<JobTitleView>, labels: Seq<Seq<char>>)
    ensures
        0 <= count_new_labels(ts, labels) <= labels.len(),
    decreases labels.len(),
{
    if labels.len() > 0 {
        lemma_count_new_labels_nonneg(ts, labels.drop_first());
    }
}

/// Effect of reconciling one label: the store stays well formed, users are
/// untouched, the label resolves afterwards, and every other label and
/// every existing id is undisturbed.
pub proof fn lemma_process_job_title(s: StoreView, label: Seq<char>)
    requires
        store_wf(s),
    ensures
        ({
            let (s1, id) = spec_process_job_title(s, label);
            &&& store_wf(s1)
            &&& s1.users == s.users
            &&& s1.next_user_id == s.next_user_id
            &&& s.next_job_title_id <= s1.next_job_title_id <= s.next_job_title_id + 1
            &&& find_title_by_label(s1.job_titles, label) matches Some(t) && t.id == id
            &&& forall|l: Seq<char>|
                l != label ==> #[trigger] find_title_by_label(s1.job_titles, l)
                    == find_title_by_label(s.job_titles, l)
            &&& forall|tid: int|
                title_idx_by_id(s.job_titles, tid) != -1 ==> #[trigger] title_idx_by_id(
                    s1.job_titles,
                    tid,
                ) != -1
            &&& s1.job_titles.len() == s.job_titles.len() + (
            if title_idx_by_label(s.job_titles, label) == -1 {
                1int
            } else {
                0int
            })
            &&& forall|j: int|
                0 <= j < s.job_titles.len() ==> #[trigger] s1.job_titles[j] == s.job_titles[j]
        }),
{
    lemma_title_idx_by_label(s.job_titles, label);
    let (s1, id) = spec_process_job_title(s, label);
    if title_idx_by_label(s.job_titles, label) == -1 {
        let row = bare_title_view(s.next_job_title_id, label);
        assert(s1.job_titles == s.job_titles.push(row));
        lemma_title_idx_by_label(s1.job_titles, label);
        assert(s1.job_titles[s.job_titles.len() as int] == row);
        assert(title_idx_by_label(s1.job_titles, label) != -1);
        assert(s1.job_titles[title_idx_by_label(s1.job_titles, label)].intranet_name == label);
        // the fresh row is found under its own label and its own id
        assert forall|l: Seq<char>| l != label implies #[trigger] find_title_by_label(
            s1.job_titles,
            l,
        ) == find_title_by_label(s.job_titles, l) by {
            crate::uow::lemma_first_index_where_push(
                s.job_titles,
                crate::uow::pred_title_label(l),
                row,
            );
            lemma_title_idx_by_label(s.job_titles, l);
        }
        assert forall|tid: int| title_idx_by_id(s.job_titles, tid) != -1 implies #[trigger]
            title_idx_by_id(s1.job_titles, tid) != -1 by {
            lemma_title_idx_by_id_push(s.job_titles, tid, row);
        }
        // well-formedness of the grown store
        assert forall|i: int, j: int|
            0 <= i < j < s1.job_titles.len() implies (#[trigger] s1.job_titles[i]).intranet_name
            != (#[trigger] s1.job_titles[j]).intranet_name by {
            if j == s.job_titles.len() {
                assert(s1.job_titles[i] == s.job_titles[i]);
            }
        }
        assert forall|i: int| 0 <= i < s1.users.len() implies title_idx_by_id(
            s1.job_titles,
            (#[trigger] s1.users[i]).job_title_id,
        ) != -1 by {
            lemma_title_idx_by_id_push(s.job_titles, s1.users[i].job_title_id, row);
        }
        // the id the pass hands out is the id of the row found by label
        let k = title_idx_by_label(s1.job_titles, label);
        if k < s.job_titles.len() {
            assert(s1.job_titles[k] == s.job_titles[k]);
            assert(false);
        }
        assert(s1.job_titles[k].id == id);
    } else {
        let k = title_idx_by_label(s.job_titles, label);
        assert(find_title_by_label(s.job_titles, label) == Some(s.job_titles[k]));
    }
}

/// Whether two title sequences agree on where each listed label resolves.
pub proof fn lemma_count_new_labels_congruence(
    ts1: Seq<JobTitleView>,
    ts2: Seq<JobTitleView>,
    labels: Seq<Seq<char>>,
)
    requires
        forall|j: int|
            0 <= j < labels.len() ==> ((title_idx_by_label(ts1, #[trigger] labels[j]) == -1)
                <==> (title_idx_by_label(ts2, labels[j]) == -1)),
    ensures
        count_new_labels(ts1, labels) == count_new_labels(ts2, labels),
    decreases labels.len(),
{
    if labels.len() > 0 {
        let rest = labels.drop_first();
        assert forall|j: int| 0 <= j < rest.len() implies ((title_idx_by_label(
            ts1,
            #[trigger] rest[j],
        ) == -1) <==> (title_idx_by_label(ts2, rest[j]) == -1)) by {
            assert(rest[j] == labels[j + 1]);
        }
        lemma_count_new_labels_congruence(ts1, ts2, rest);
    }
}

/// The whole-pass invariants behind cache completeness: after the pass,
/// the store is well formed, users are untouched, the cache binds exactly
/// the labels processed, every binding resolves to the row holding that
/// label, and the store gained exactly one row per label that was new.
pub proof fn lemma_title_pass_from(s: StoreView, labels: Seq<Seq<char>>, i: int, total: int)
    requires
        store_wf(s),
        0 <= i <= labels.len(),
        labels.no_duplicates(),
    ensures
        ({
            let (s1, cache, events) = spec_title_pass_from(s, labels, i, total);
            &&& store_wf(s1)
            &&& s1.users == s.users
            &&& s1.next_user_id == s.next_user_id
            &&& s.next_job_title_id <= s1.next_job_title_id
            &&& cache.dom().finite()
            &&& forall|l: Seq<char>| #[trigger]
                cache.contains_key(l) <==> labels.skip(i).contains(l)
            &&& forall|l: Seq<char>|
                #[trigger] cache.contains_key(l) ==> (find_title_by_label(s1.job_titles, l)
                    matches Some(t) && t.id == cache[l])
            &&& forall|tid: int|
                title_idx_by_id(s.job_titles, tid) != -1 ==> #[trigger] title_idx_by_id(
                    s1.job_titles,
                    tid,
                ) != -1
            &&& s1.job_titles.len() == s.job_titles.len() + count_new_labels(
                s.job_titles,
                labels.skip(i),
            )
            &&& forall|j: int|
                0 <= j < s.job_titles.len() ==> #[trigger] s1.job_titles[j] == s.job_titles[j]
        }),
    decreases labels.len() - i,
{
    if i >= labels.len() {
        assert(labels.skip(i) =~= Seq::<Seq<char>>::empty());
        let (s1, cache, events) = spec_title_pass_from(s, labels, i, total);
        assert(cache =~= Map::<Seq<char>, int>::empty());
    } else {
        let label = labels[i];
        lemma_process_job_title(s, label);
        let (sm, id) = spec_process_job_title(s, label);
        lemma_title_pass_from(sm, labels, i + 1, total);
        let (s1, rest_cache, rest_events) = spec_title_pass_from(sm, labels, i + 1, total);
        let cache = rest_cache.insert(label, id);
        assert(labels.skip(i).drop_first() =~= labels.skip(i + 1));
        // the processed label stays resolved through the rest of the pass
        assert(find_title_by_label(sm.job_titles, label) matches Some(t) && t.id == id);
        lemma_title_idx_by_label(sm.job_titles, label);
        let k = title_idx_by_label(sm.job_titles, label);
        assert(k != -1);
        assert(0 <= k < sm.job_titles.len());
        assert(sm.job_titles[k].intranet_name == label);
        assert(sm.job_titles[k].id == id);
        lemma_count_new_labels_nonneg(sm.job_titles, labels.skip(i + 1));
        assert(sm.job_titles.len() <= s1.job_titles.len());
        assert(s1.job_titles[k] == sm.job_titles[k]);
        lemma_title_idx_by_label(s1.job_titles, label);
        assert(title_idx_by_label(s1.job_titles, label) != -1) by {
            if title_idx_by_label(s1.job_titles, label) == -1 {
                assert(s1.job_titles[k].intranet_name == label);
            }
        }
        let k1 = title_idx_by_label(s1.job_titles, label);
        assert(k1 == k) by {
            if k1 < k {
                assert(sm.job_titles[k1] == s1.job_titles[k1]);
            } else if k1 > k {
                assert(s1.job_titles[k].intranet_name == label);
            }
        }
        // cache membership for the full set of remaining labels
        assert forall|l: Seq<char>| cache.contains_key(l) <==> #[trigger] labels.skip(i).contains(
            l,
        ) by {
            if l == label {
                assert(labels.skip(i)[0] == label);
                assert(labels.skip(i).contains(label));
            } else {
                assert(cache.contains_key(l) <==> rest_cache.contains_key(l));
                if labels.skip(i).contains(l) {
                    let w = choose|w: int| 0 <= w < labels.skip(i).len() && (#[trigger] labels.skip(i)[w]) == l;
                    assert(labels.skip(i + 1)[w - 1] == l);
                    assert(labels.skip(i + 1).contains(l));
                } else {
                    if labels.skip(i + 1).contains(l) {
                        let w = choose|w: int|
                            0 <= w < labels.skip(i + 1).len() && (#[trigger] labels.skip(
                                i + 1,
                            )[w]) == l;
                        assert(labels.skip(i)[w + 1] == l);
                    }
                }
            }
        }
        // every binding resolves in the final store
        assert forall|l: Seq<char>| #[trigger] cache.contains_key(l) implies (
        find_title_by_label(s1.job_titles, l) matches Some(t) && t.id == cache[l]) by {
            if l == label {
                assert(find_title_by_label(s1.job_titles, label) == Some(s1.job_titles[k]));
                assert(s1.job_titles[k].id == id);
            } else {
                assert(rest_cache.contains_key(l));
            }
        }
        // row count: the rest of the labels resolve the same way in sm
        assert(count_new_labels(sm.job_titles, labels.skip(i + 1)) == count_new_labels(
            s.job_titles,
            labels.skip(i + 1),
        )) by {
            assert forall|j: int| 0 <= j < labels.skip(i + 1).len() implies ((title_idx_by_label(
                sm.job_titles,
                #[trigger] labels.skip(i + 1)[j],
            ) == -1) <==> (title_idx_by_label(s.job_titles, labels.skip(i + 1)[j]) == -1)) by {
                let l = labels.skip(i + 1)[j];
                assert(labels[i + 1 + j] == l);
                assert(l != label);
                assert(find_title_by_label(sm.job_titles, l) == find_title_by_label(
                    s.job_titles,
                    l,
                ));
                lemma_title_idx_by_label(sm.job_titles, l);
                lemma_title_idx_by_label(s.job_titles, l);
            }
            lemma_count_new_labels_congruence(sm.job_titles, s.job_titles, labels.skip(i + 1));
        }
    }
}

/// One label reconciled against the in-memory store.
pub fn process_job_title(store: &mut LocalStore, job_title_name: &String) -> (id: i32)
    requires
        store_wf(old(store)@),
        old(store)@.next_job_title_id < i32::MAX,
    ensures
        final(store)@ == spec_process_job_title(old(store)@, job_title_name@).0,
        id as int == spec_process_job_title(old(store)@, job_title_name@).1,
        store_wf(final(store)@),
{
    proof {
        lemma_process_job_title(old(store)@, job_title_name@);
    }
    match store.get_job_title_by_intranet_name(job_title_name) {
        Some(job_title) => job_title.id,
        None => {
            proof {
                lemma_title_idx_by_label(store@.job_titles, job_title_name@);
            }
            let id = store.create_job_title(
                CreateJobTitleArgs {
                    name: None,
                    intranet_name: job_title_name.as_str(),
                    company_department_id: None,
                    parent_job_title_id: None,
                },
            );
            id
        },
    }
}

/// One whole job-title pass over the in-memory store: reconciles every
/// label of the deduplicated list, returns the cache of the pass and the
/// events published, exactly as the model states.
pub fn run_job_title_pass(store: &mut LocalStore, job_titles: &Vec<String>) -> (r: (
    JobTitleCache,
    Vec<Status>,
))
    requires
        store_wf(old(store)@),
        job_titles.deep_view().no_duplicates(),
        old(store)@.next_job_title_id + job_titles@.len() <= i32::MAX,
        job_titles@.len() <= u32::MAX,
    ensures
        ({
            let (s1, cache, events) = spec_title_pass(old(store)@, job_titles.deep_view());
            &&& final(store)@ == s1
            &&& r.0@ == cache
            &&& r.1.deep_view() == events
            &&& r.0.wf()
            &&& store_wf(final(store)@)
        }),
{
    let ghost s0 = store@;
    let ghost labels = job_titles.deep_view();
    let ghost total_spec = labels.len() as int;
    let ghost full = spec_title_pass_from(s0, labels, 0, total_spec);
    let total: u32 = job_titles.len() as u32;
    let mut cache = JobTitleCache::new();
    let mut events: Vec<Status> = Vec::new();
    let mut i: usize = 0;
    proof {
        assert(full.1.union_prefer_right(cache@) =~= full.1);
        assert(events.deep_view() =~= Seq::<StatusView>::empty());
        assert(events.deep_view() + spec_title_pass_from(s0, labels, 0, total_spec).2
            =~= spec_title_pass_from(s0, labels, 0, total_spec).2);
    }
    while i < job_titles.len()
        invariant
            store_wf(store@),
            labels == job_titles.deep_view(),
            full == spec_title_pass_from(s0, labels, 0, total_spec),
            i <= labels.len(),
            labels.no_duplicates(),
            labels.len() <= u32::MAX,
            total == labels.len() as u32,
            total_spec == labels.len() as int,
            cache.wf(),
            store@.next_job_title_id + (labels.len() - i) <= i32::MAX,
            forall|l: Seq<char>| #[trigger]
                cache@.contains_key(l) <==> labels.take(i as int).contains(l),
            full.0 == spec_title_pass_from(store@, labels, i as int, total_spec).0,
            full.1 == spec_title_pass_from(store@, labels, i as int, total_spec).1
                .union_prefer_right(cache@),
            full.2 == events.deep_view() + spec_title_pass_from(
                store@,
                labels,
                i as int,
                total_spec,
            ).2,
        decreases labels.len() - i,
    {
        let ghost s_before = store@;
        let ghost cache_before = cache@;
        let ghost events_before = events.deep_view();
        let ghost rest_before = spec_title_pass_from(s_before, labels, i as int, total_spec);
        let label = &job_titles[i];
        proof {
            assert(label@ == labels[i as int]);
        }
        events.push(
            Status::SynchronizingJobTitle {
                intranet_name: label.clone(),
                current_item: (i as u32) + 1,
                total: total,
            },
        );
        let id = process_job_title(store, label);
        proof {
            assert(!cache@.contains_key(labels[i as int])) by {
                if labels.take(i as int).contains(labels[i as int]) {
                    let w = choose|w: int|
                        0 <= w < i && (#[trigger] labels.take(i as int)[w]) == labels[i as int];
                    assert(labels[w] == labels[i as int]);
                }
            }
        }
        cache.insert(label.clone(), id);
        i += 1;
        proof {
            let l = labels[i - 1];
            let rest_after = spec_title_pass_from(store@, labels, i as int, total_spec);
            let sync_ev = StatusView::SynchronizingJobTitle {
                intranet_name: l,
                current_item: i as int,
                total: total_spec,
            };
            assert(rest_before.0 == rest_after.0);
            assert(rest_before.1 == rest_after.1.insert(l, id as int));
            assert(rest_before.2 == seq![sync_ev] + rest_after.2);
            // cache bindings now cover the first `i` labels
            assert forall|lb: Seq<char>| #[trigger] cache@.contains_key(lb) <==> labels.take(
                i as int,
            ).contains(lb) by {
                if lb == l {
                    assert(labels.take(i as int)[i - 1] == lb);
                } else {
                    if labels.take(i as int).contains(lb) {
                        let w = choose|w: int|
                            0 <= w < i && (#[trigger] labels.take(i as int)[w]) == lb;
                        assert(labels.take(i - 1)[w] == lb);
                    } else if labels.take(i - 1).contains(lb) {
                        let w = choose|w: int|
                            0 <= w < i - 1 && (#[trigger] labels.take(i - 1)[w]) == lb;
                        assert(labels.take(i as int)[w] == lb);
                    }
                }
            }
            // shifting the binding of the processed label into the cache
            assert(rest_after.1.insert(l, id as int).union_prefer_right(cache_before)
                =~= rest_after.1.union_prefer_right(cache@));
            assert(full.1 == rest_after.1.union_prefer_right(cache@));
            // the progress event moves from the tail to the published list
            assert(events.deep_view() =~= events_before.push(sync_ev));
            assert(events_before + rest_before.2 =~= events.deep_view() + rest_after.2);
        }
    }
    proof {
        let done = spec_title_pass_from(store@, labels, labels.len() as int, total_spec);
        assert(done.1 =~= Map::<Seq<char>, int>::empty());
        assert(done.1.union_prefer_right(cache@) =~= cache@);
        assert(full.1 == cache@);
        assert(full.0 == store@);
    }
    events.push(Status::JobTitleSynchronizationFinished { total: total });
    proof {
        let done = spec_title_pass_from(store@, labels, labels.len() as int, total_spec);
        assert(done.2 == seq![
            StatusView::JobTitleSynchronizationFinished { total: total_spec },
        ]);
        assert(events.deep_view() =~= full.2);
    }
    (cache, events)
}

/// The label of each roster record, in roster order.
pub open spec fn roster_labels(users: Seq<crate::intranet::IntranetUserView>) -> Seq<Seq<char>> {
    users.map_values(|u: crate::intranet::IntranetUserView| u.job_title)
}

/// Deduplication that keeps the first occurrence of each label, in order.
pub open spec fn spec_dedup(labels: Seq<Seq<char>>) -> Seq<Seq<char>>
    decreases labels.len(),
{
    if labels.len() == 0 {
        Seq::empty()
    } else {
        let rest = spec_dedup(labels.drop_last());
        if rest.contains(labels.last()) {
            rest
        } else {
            rest.push(labels.last())
        }
    }
}

/// Deduplication keeps exactly the labels of the list, each once.
pub proof fn lemma_spec_dedup(labels: Seq<Seq<char>>)
    ensures
        spec_dedup(labels).no_duplicates(),
        forall|l: Seq<char>| #[trigger] spec_dedup(labels).contains(l) <==> labels.contains(l),
        spec_dedup(labels).len() <= labels.len(),
    decreases labels.len(),
{
    if labels.len() > 0 {
        let prefix = labels.drop_last();
        let last = labels.last();
        lemma_spec_dedup(prefix);
        let rest = spec_dedup(prefix);
        let d = spec_dedup(labels);
        if !rest.contains(last) {
            assert(d == rest.push(last));
            assert forall|i: int, j: int| 0 <= i < j < d.len() implies d[i] != d[j] by {
                if j == d.len() - 1 {
                    assert(d[i] == rest[i]);
                    assert(rest.contains(rest[i]));
                } else {
                    assert(d[i] == rest[i]);
                    assert(d[j] == rest[j]);
                }
            }
        }
        assert forall|l: Seq<char>| #[trigger] d.contains(l) <==> labels.contains(l) by {
            if d.contains(l) {
                if rest.contains(l) {
                    assert(prefix.contains(l));
                    let w = choose|w: int| 0 <= w < prefix.len() && (#[trigger] prefix[w]) == l;
                    assert(labels[w] == l);
                    assert(labels.contains(l));
                } else {
                    let w = choose|w: int| 0 <= w < d.len() && (#[trigger] d[w]) == l;
                    assert(l == last);
                    assert(labels[labels.len() - 1] == l);
                    assert(labels.contains(l));
                }
            }
            if labels.contains(l) {
                let w = choose|w: int| 0 <= w < labels.len() && (#[trigger] labels[w]) == l;
                if w < labels.len() - 1 {
                    assert(prefix[w] == l);
                    assert(prefix.contains(l));
                    assert(rest.contains(l));
                    if !rest.contains(last) {
                        let w2 = choose|w2: int| 0 <= w2 < rest.len() && (#[trigger] rest[w2]) == l;
                        assert(d[w2] == l);
                    }
                    assert(d.contains(l));
                } else {
                    assert(l == last);
                    if rest.contains(last) {
                        assert(d.contains(l));
                    } else {
                        assert(d[d.len() - 1] == l);
                        assert(d.contains(l));
                    }
                }
            }
        }
    }
}

/// Whether a label already occurs in the collected list.
fn vec_contains_string(labels: &Vec<String>, label: &String) -> (r: bool)
    ensures
        r == labels.deep_view().contains(label@),
{
    let mut i: usize = 0;
    while i < labels.len()
        invariant
            i <= labels.len(),
            forall|k: int| 0 <= k < i ==> (#[trigger] labels.deep_view()[k]) != label@,
        decreases labels.len() - i,
    {
        if labels[i] == *label {
            proof {
                assert(labels.deep_view()[i as int] == label@);
            }
            return true;
        }
        i += 1;
    }
    proof {
        if labels.deep_view().contains(label@) {
            let w = choose|w: int|
                0 <= w < labels.deep_view().len() && (#[trigger] labels.deep_view()[w]) == label@;
            assert(false);
        }
    }
    false
}

/// The deduplicated, order-stable label list of a roster snapshot: each
/// distinct label once, at its first occurrence.
pub fn dedup_labels(intranet_users: &Vec<crate::intranet::IntranetUserDto>) -> (r: Vec<String>)
    ensures
        r.deep_view() == spec_dedup(roster_labels(intranet_users.deep_view())),
        r.deep_view().no_duplicates(),
{
    let ghost all_labels = roster_labels(intranet_users.deep_view());
    let mut result: Vec<String> = Vec::new();
    let mut i: usize = 0;
    proof {
        assert(all_labels.take(0) =~= Seq::<Seq<char>>::empty());
        assert(result.deep_view() =~= spec_dedup(all_labels.take(0)));
    }
    while i < intranet_users.len()
        invariant
            i <= intranet_users.len(),
            all_labels == roster_labels(intranet_users.deep_view()),
            all_labels.len() == intranet_users.deep_view().len(),
            result.deep_view() == spec_dedup(all_labels.take(i as int)),
        decreases intranet_users.len() - i,
    {
        let ghost before = result.deep_view();
        let label = &intranet_users[i].job_title;
        proof {
            assert(label@ == all_labels[i as int]);
            assert(all_labels.take(i as int + 1).drop_last() =~= all_labels.take(i as int));
            assert(all_labels.take(i as int + 1).last() == all_labels[i as int]);
        }
        if !vec_contains_string(&result, label) {
            result.push(label.clone());
            proof {
                assert(result.deep_view() =~= before.push(label@));
            }
        }
        i += 1;
    }
    proof {
        assert(all_labels.take(all_labels.len() as int) =~= all_labels);
        lemma_spec_dedup(all_labels);
    }
    result
}

/// A pass over a store that already holds every listed label writes no
/// row: the store comes back exactly as it was.
pub proof fn lemma_title_pass_stable(s: StoreView, labels: Seq<Seq<char>>, i: int, total: int)
    requires
        store_wf(s),
        0 <= i <= labels.len(),
        forall|j: int|
            i <= j < labels.len() ==> find_title_by_label(s.job_titles, #[trigger] labels[j])
                is Some,
    ensures
        spec_title_pass_from(s, labels, i, total).0 == s,
    decreases labels.len() - i,
{
    if i < labels.len() {
        assert(find_title_by_label(s.job_titles, labels[i]) is Some);
        assert(spec_process_job_title(s, labels[i]).0 == s);
        lemma_title_pass_stable(s, labels, i + 1, total);
    }
}

} // verus!
