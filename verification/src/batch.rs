//! The batch scheduler: admits at most `limit` pipelines into concurrent
//! execution at a time, isolates per-item failures, and aggregates one
//! attributable result per source.
//!
//! The caller owns the concurrency: it asks `try_admit` for the next
//! source once capacity allows, runs an independent pipeline for it, and
//! hands the outcome back through `complete`.  The bookkeeping in between
//! is verified: the admitted-but-unfinished count never exceeds the
//! limit, and a finished batch holds exactly one result per source, each
//! keyed to its input index.

use vstd::prelude::*;
use vstd::string::*;
use vstd::seq_lib::*;
use vstd::set_lib::*;
use crate::error::YtAudioError;
use crate::pipeline::OutcomeModel;
use crate::pipeline::outcome_model;
use crate::strutil::views;

verus! {

/// One source identifier paired with its run's outcome.
#[derive(Debug)]
pub struct BatchItemResult {
    pub url: String,
    pub outcome: Result<String, YtAudioError>,
}

/// The abstract value of a batch item result.
#[verifier::ext_equal]
pub struct BatchItemModel {
    pub url: Seq<char>,
    pub outcome: OutcomeModel,
}

impl View for BatchItemResult {
    type V = BatchItemModel;

    open spec fn view(&self) -> BatchItemModel {
        BatchItemModel { url: self.url@, outcome: outcome_model(Some(self.outcome)) }
    }
}

/// The abstract values of a list of batch item results.
pub open spec fn item_views(s: Seq<BatchItemResult>) -> Seq<BatchItemModel> {
    s.map_values(|r: BatchItemResult| r@)
}

/// How many entries of a flag list are set.
pub open spec fn count_true(s: Seq<bool>) -> int
    decreases s.len(),
{
    if s.len() == 0 {
        0
    } else {
        count_true(s.drop_last()) + if s.last() {
            1int
        } else {
            0int
        }
    }
}

/// Setting an unset flag raises the count by one.
proof fn lemma_count_true_update(s: Seq<bool>, i: int)
    requires
        0 <= i < s.len(),
        !s[i],
    ensures
        count_true(s.update(i, true)) == count_true(s) + 1,
    decreases s.len(),
{
    if i == s.len() - 1 {
        assert(s.update(i, true).drop_last() =~= s.drop_last());
    } else {
        assert(s.update(i, true).drop_last() =~= s.drop_last().update(i, true));
        lemma_count_true_update(s.drop_last(), i);
    }
}

/// How many results record a success.
pub open spec fn count_ok(s: Seq<BatchItemModel>) -> int
    decreases s.len(),
{
    if s.len() == 0 {
        0
    } else {
        count_ok(s.drop_last()) + if s.last().outcome is Succeeded {
            1int
        } else {
            0int
        }
    }
}

/// The abstract state of a batch run: the sources, the admission limit,
/// how far admission has proceeded, which items completed, the collected
/// results, and for each result the index of the source it belongs to.
#[verifier::ext_equal]
pub struct BatchModel {
    pub urls: Seq<Seq<char>>,
    pub limit: int,
    pub next: int,
    pub running: int,
    pub completed: Seq<bool>,
    pub results: Seq<BatchItemModel>,
    pub done_map: Seq<int>,
}

/// The scheduler invariant:
/// - admission proceeds in order and never beyond the sources;
/// - `running` counts the admitted-but-uncompleted items and never
///   exceeds the limit;
/// - each result belongs to a distinct completed source index, and
///   carries that source's identifier.
pub open spec fn batch_wf(m: BatchModel) -> bool {
    &&& m.limit >= 1
    &&& 0 <= m.next <= m.urls.len()
    &&& m.completed.len() == m.urls.len()
    &&& (forall|i: int| 0 <= i < m.completed.len() && #[trigger] m.completed[i] ==> i < m.next)
    &&& m.results.len() == m.done_map.len()
    &&& m.done_map.len() == count_true(m.completed)
    &&& m.running == m.next - count_true(m.completed)
    &&& m.running <= m.limit
    &&& m.done_map.no_duplicates()
    &&& (forall|p: int|
        0 <= p < m.done_map.len() ==> 0 <= #[trigger] m.done_map[p] < m.urls.len()
            && m.completed[m.done_map[p]])
    &&& (forall|p: int|
        0 <= p < m.results.len() ==> (#[trigger] m.results[p]).url == m.urls[m.done_map[p]])
}

/// An admitted source that has not completed keeps the completed count
/// below the admitted count.
proof fn lemma_running_positive(m: BatchModel, index: int)
    requires
        batch_wf(m),
        0 <= index < m.next,
        !m.completed[index],
    ensures
        count_true(m.completed) <= m.next - 1,
{
    let dm = m.done_map;
    dm.unique_seq_to_set();
    let target = set_int_range(0, m.next).remove(index);
    assert forall|x: int| dm.to_set().contains(x) implies target.contains(x) by {
        let p = choose|p: int| 0 <= p < dm.len() && dm[p] == x;
        assert(m.completed[x]);
        assert(x < m.next);
        assert(x != index);
    }
    lemma_int_range(0, m.next);
    assert(set_int_range(0, m.next).contains(index));
    assert(target.len() == m.next - 1);
    lemma_len_subset(dm.to_set(), target);
}

/// The bookkeeping of a batch run.
pub struct BatchScheduler {
    urls: Vec<String>,
    limit: usize,
    next: usize,
    running: usize,
    completed: Vec<bool>,
    results: Vec<BatchItemResult>,
    done_map: Ghost<Seq<int>>,
}

impl View for BatchScheduler {
    type V = BatchModel;

    closed spec fn view(&self) -> BatchModel {
        BatchModel {
            urls: views(self.urls@),
            limit: self.limit as int,
            next: self.next as int,
            running: self.running as int,
            completed: self.completed@,
            results: item_views(self.results@),
            done_map: self.done_map@,
        }
    }
}

impl BatchScheduler {
    /// The state is well-formed: the scheduler invariant holds.
    pub open spec fn wf(&self) -> bool {
        batch_wf(self@)
    }

    /// A fresh batch over the given sources with the given admission
    /// limit, which must admit at least one pipeline at a time.
    pub fn new(urls: Vec<String>, limit: usize) -> (r: Self)
        requires
            limit >= 1,
        ensures
            r.wf(),
            r@.urls == views(urls@),
            r@.limit == limit as int,
            r@.next == 0,
            r@.running == 0,
            r@.results == Seq::<BatchItemModel>::empty(),
    {
        let n = urls.len();
        let mut completed: Vec<bool> = Vec::new();
        let mut i: usize = 0;
        while i < n
            invariant
                0 <= i <= n,
                completed@.len() == i,
                count_true(completed@) == 0,
                forall|k: int| 0 <= k < i ==> !completed@[k],
            decreases n - i,
        {
            let ghost before = completed@;
            completed.push(false);
            proof {
                assert(completed@.drop_last() =~= before);
            }
            i += 1;
        }
        let r = BatchScheduler {
            urls,
            limit,
            next: 0,
            running: 0,
            completed,
            results: Vec::new(),
            done_map: Ghost(Seq::empty()),
        };
        proof {
            assert(item_views(r.results@) =~= Seq::<BatchItemModel>::empty());
        }
        r
    }

    /// How many sources the batch was built over.
    pub fn source_count(&self) -> (r: usize)
        ensures
            r as int == self@.urls.len(),
    {
        self.urls.len()
    }

    /// Admit the next source when one remains and the limit allows,
    /// handing back its index and identifier.
    pub fn try_admit(&mut self) -> (r: Option<(usize, String)>)
        requires
            old(self).wf(),
        ensures
            final(self).wf(),
            final(self)@.urls == old(self)@.urls,
            final(self)@.limit == old(self)@.limit,
            ({
                if old(self)@.next < old(self)@.urls.len() && old(self)@.running < old(
                    self,
                )@.limit {
                    match r {
                        Some((i, u)) => i as int == old(self)@.next && u@ == old(
                            self,
                        )@.urls[old(self)@.next] && final(self)@ == (BatchModel {
                            next: old(self)@.next + 1,
                            running: old(self)@.running + 1,
                            ..old(self)@
                        }),
                        None => false,
                    }
                } else {
                    r is None && final(self)@ == old(self)@
                }
            }),
    {
        if self.next < self.urls.len() && self.running < self.limit {
            let i = self.next;
            let u = self.urls[i].clone();
            self.next = self.next + 1;
            self.running = self.running + 1;
            proof {
                assert(final(self)@ =~= (BatchModel {
                    next: old(self)@.next + 1,
                    running: old(self)@.running + 1,
                    ..old(self)@
                }));
            }
            Some((i, u))
        } else {
            proof {
                assert(final(self)@ =~= old(self)@);
            }
            None
        }
    }

    /// Record the outcome of the admitted source at `index`, appending
    /// one attributable result and freeing one admission slot.
    pub fn complete(&mut self, index: usize, outcome: Result<String, YtAudioError>)
        requires
            old(self).wf(),
            index < old(self)@.next,
            !old(self)@.completed[index as int],
        ensures
            final(self).wf(),
            final(self)@ == (BatchModel {
                running: old(self)@.running - 1,
                completed: old(self)@.completed.update(index as int, true),
                results: old(self)@.results + seq![
                    BatchItemModel {
                        url: old(self)@.urls[index as int],
                        outcome: outcome_model(Some(outcome)),
                    },
                ],
                done_map: old(self)@.done_map + seq![index as int],
                ..old(self)@
            }),
    {
        proof {
            lemma_running_positive(old(self)@, index as int);
            lemma_count_true_update(old(self)@.completed, index as int);
        }
        let url = self.urls[index].clone();
        let ghost old_results = item_views(self.results@);
        self.results.push(BatchItemResult { url, outcome });
        self.completed.set(index, true);
        self.running = self.running - 1;
        proof {
            self.done_map@ = self.done_map@ + seq![index as int];
        }
        proof {
            assert(item_views(self.results@) =~= old_results + seq![
                BatchItemModel {
                    url: old(self)@.urls[index as int],
                    outcome: outcome_model(Some(outcome)),
                },
            ]);
            assert(final(self)@ =~= (BatchModel {
                running: old(self)@.running - 1,
                completed: old(self)@.completed.update(index as int, true),
                results: old(self)@.results + seq![
                    BatchItemModel {
                        url: old(self)@.urls[index as int],
                        outcome: outcome_model(Some(outcome)),
                    },
                ],
                done_map: old(self)@.done_map + seq![index as int],
                ..old(self)@
            }));
            assert forall|p: int| 0 <= p < self@.done_map.len() implies 0 <= #[trigger] self@.done_map[p]
                < self@.urls.len() && self@.completed[self@.done_map[p]] by {
                if p < old(self)@.done_map.len() {
                    assert(self@.done_map[p] == old(self)@.done_map[p]);
                    assert(old(self)@.completed[old(self)@.done_map[p]]);
                }
            }
            assert(self@.done_map.no_duplicates()) by {
                assert forall|p: int, q: int|
                    0 <= p < self@.done_map.len() && 0 <= q < self@.done_map.len() && p != q
                    implies self@.done_map[p] != self@.done_map[q] by {
                    if p < old(self)@.done_map.len() && q < old(self)@.done_map.len() {
                        assert(old(self)@.done_map.no_duplicates());
                    } else if p < old(self)@.done_map.len() {
                        assert(old(self)@.completed[old(self)@.done_map[p]]);
                        assert(!old(self)@.completed[index as int]);
                    } else if q < old(self)@.done_map.len() {
                        assert(old(self)@.completed[old(self)@.done_map[q]]);
                        assert(!old(self)@.completed[index as int]);
                    }
                }
            }
        }
    }

    /// Whether every source has been admitted and completed.
    pub fn is_finished(&self) -> (r: bool)
        ensures
            r == (self@.next == self@.urls.len() && self@.running == 0),
    {
        self.next == self.urls.len() && self.running == 0
    }

    /// The collected results.
    pub fn results(&self) -> (r: &Vec<BatchItemResult>)
        ensures
            item_views(r@) == self@.results,
    {
        &self.results
    }
}

/// The per-batch accounting: succeeded and failed item counts.
#[derive(Debug, Clone, Copy, PartialEq, Eq, Structural)]
pub struct BatchSummary {
    pub succeeded: usize,
    pub failed: usize,
}

/// Partition the results of a batch into succeeded and failed counts;
/// together they account for every item.
pub fn summarize(results: &Vec<BatchItemResult>) -> (r: BatchSummary)
    ensures
        r.succeeded as int == count_ok(item_views(results@)),
        r.failed as int == item_views(results@).len() - count_ok(item_views(results@)),
        r.succeeded + r.failed == results@.len(),
{
    let mut succeeded: usize = 0;
    let mut i: usize = 0;
    let n = results.len();
    while i < n
        invariant
            0 <= i <= n,
            n == results@.len(),
            succeeded as int == count_ok(item_views(results@).subrange(0, i as int)),
            succeeded <= i,
        decreases n - i,
    {
        let is_ok = match &results[i].outcome {
            Ok(_) => true,
            Err(_) => false,
        };
        proof {
            assert(item_views(results@).subrange(0, i + 1).drop_last() =~= item_views(
                results@,
            ).subrange(0, i as int));
            assert(item_views(results@).subrange(0, i + 1).last() == results@[i as int]@);
        }
        if is_ok {
            succeeded = succeeded + 1;
        }
        i += 1;
    }
    proof {
        assert(item_views(results@).subrange(0, n as int) =~= item_views(results@));
        count_ok_nonneg(item_views(results@));
        count_ok_le_len(item_views(results@));
    }
    BatchSummary { succeeded, failed: n - succeeded }
}

/// A success count is never negative.
proof fn count_ok_nonneg(s: Seq<BatchItemModel>)
    ensures
        count_ok(s) >= 0,
    decreases s.len(),
{
    if s.len() > 0 {
        count_ok_nonneg(s.drop_last());
    }
}

/// A success count never exceeds the item count.
proof fn count_ok_le_len(s: Seq<BatchItemModel>)
    ensures
        count_ok(s) <= s.len(),
    decreases s.len(),
{
    if s.len() > 0 {
        count_ok_le_len(s.drop_last());
    }
}

/// At any instant, the admitted-but-unfinished pipelines never exceed
/// the admission limit: the scheduler's running count is bounded by the
/// limit it was built with.
pub proof fn lemma_admission_bound(m: BatchModel)
    requires
        batch_wf(m),
    ensures
        m.running <= m.limit,
        m.running == m.next - count_true(m.completed),
{
}

/// A finished batch accounts for every source: one result per input, and
/// each result keyed to a distinct source index whose identifier it
/// carries.
pub proof fn lemma_batch_accounting(m: BatchModel)
    requires
        batch_wf(m),
        m.next == m.urls.len(),
        m.running == 0,
    ensures
        m.results.len() == m.urls.len(),
        m.done_map.no_duplicates(),
        forall|p: int|
            0 <= p < m.results.len() ==> 0 <= #[trigger] m.done_map[p] < m.urls.len()
                && m.results[p].url == m.urls[m.done_map[p]],
{
}

/// Shorten a display string to at most `max_len` characters, marking the
/// cut with an ellipsis.
pub fn truncate(s: &str, max_len: usize) -> (r: String)
    requires
        max_len >= 3,
    ensures
        r@ == (if s@.len() <= max_len {
            s@
        } else {
            s@.subrange(0, max_len - 3) + "..."@
        }),
{
    let len = s.unicode_len();
    if len <= max_len {
        String::from_str(s)
    } else {
        String::from_str(s.substring_char(0, max_len - 3)).concat("...")
    }
}

} // verus!
