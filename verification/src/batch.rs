//! The batch orchestrator's bookkeeping: the seen-set that collapses
//! variants sharing one audio asset, the attempt and failure counters, and
//! the report lines. A caller processes records in catalog order, asks
//! whether each record's key was already handled, and reports each outcome;
//! everything counted is proved against a mathematical model of the run.

use vstd::prelude::*;
use crate::text::{spec_decimal_nat, u64_decimal};

verus! {

/// Mathematical model of the orchestrator's state after some prefix of the
/// batch: how many records were passed, how many were attempted, how many of
/// those failed, and the dedup keys seen so far.
pub struct BatchModel {
    pub position: nat,
    pub attempted: nat,
    pub failed: nat,
    pub seen: Seq<Seq<char>>,
}

/// The model before any record is processed.
pub open spec fn model_init() -> BatchModel {
    BatchModel { position: 0, attempted: 0, failed: 0, seen: Seq::empty() }
}

/// One record against the model: a record whose key was already seen only
/// advances the position; any other record is attempted, marked seen whatever
/// its outcome, and counted as failed when it failed.
pub open spec fn model_step(m: BatchModel, key: Seq<char>, failed: bool) -> BatchModel {
    if m.seen.contains(key) {
        BatchModel { position: m.position + 1, attempted: m.attempted, failed: m.failed, seen: m.seen }
    } else {
        BatchModel {
            position: m.position + 1,
            attempted: m.attempted + 1,
            failed: if failed {
                m.failed + 1
            } else {
                m.failed
            },
            seen: m.seen.push(key),
        }
    }
}

/// The model after the first `n` records of a batch, where record `i` has
/// dedup key `keys[i]` and — were it attempted — outcome `fails[i]`.
pub open spec fn model_run(keys: Seq<Seq<char>>, fails: Seq<bool>, n: nat) -> BatchModel
    decreases n,
{
    if n == 0 {
        model_init()
    } else {
        model_step(model_run(keys, fails, (n - 1) as nat), keys[n - 1], fails[n - 1])
    }
}

/// Whether record `i` is a duplicate: an earlier record carries the same
/// dedup key.
pub open spec fn is_duplicate(keys: Seq<Seq<char>>, i: int) -> bool {
    exists|j: int| 0 <= j < i && keys[j] == keys[i]
}

/// How many of the first `n` records are duplicates.
pub open spec fn count_duplicates(keys: Seq<Seq<char>>, n: nat) -> nat
    decreases n,
{
    if n == 0 {
        0
    } else {
        count_duplicates(keys, (n - 1) as nat) + if is_duplicate(keys, n - 1) {
            1nat
        } else {
            0nat
        }
    }
}

/// How many of the first `n` records fail: a record counts when it is
/// attempted — not a duplicate — and its outcome is a failure.
pub open spec fn count_failures(keys: Seq<Seq<char>>, fails: Seq<bool>, n: nat) -> nat
    decreases n,
{
    if n == 0 {
        0
    } else {
        count_failures(keys, fails, (n - 1) as nat) + if !is_duplicate(keys, n - 1) && fails[n
            - 1] {
            1nat
        } else {
            0nat
        }
    }
}

/// After `n` records the seen-set holds exactly the keys of the first `n`
/// records.
proof fn lemma_model_seen(keys: Seq<Seq<char>>, fails: Seq<bool>, n: nat)
    requires
        n <= keys.len(),
    ensures
        forall|k: Seq<char>|
            model_run(keys, fails, n).seen.contains(k) <==> exists|j: int| 0 <= j < n && keys[j]
                == k,
    decreases n,
{
    if n > 0 {
        lemma_model_seen(keys, fails, (n - 1) as nat);
        let prev = model_run(keys, fails, (n - 1) as nat);
        let cur = model_run(keys, fails, n);
        assert forall|k: Seq<char>| cur.seen.contains(k) implies exists|j: int|
            0 <= j < n && keys[j] == k by {
            if prev.seen.contains(keys[n - 1]) {
                assert(prev.seen.contains(k));
            } else {
                let i = choose|i: int| 0 <= i < cur.seen.len() && cur.seen[i] == k;
                if i < prev.seen.len() {
                    assert(prev.seen.contains(k));
                } else {
                    assert(keys[n - 1] == k);
                }
            }
        }
        assert forall|k: Seq<char>| (exists|j: int| 0 <= j < n && keys[j] == k) implies
            cur.seen.contains(k) by {
            let j = choose|j: int| 0 <= j < n && keys[j] == k;
            if j < n - 1 {
                assert(prev.seen.contains(k));
                if !prev.seen.contains(keys[n - 1]) {
                    let i = choose|i: int| 0 <= i < prev.seen.len() && prev.seen[i] == k;
                    assert(cur.seen[i] == k);
                }
            } else {
                if !prev.seen.contains(keys[n - 1]) {
                    assert(cur.seen[cur.seen.len() - 1] == k);
                }
            }
        }
    }
}

/// Counter accuracy: for a batch of `n` records among which `d` are
/// duplicates and `k` of the attempted ones fail, the model reports position
/// `n`, exactly `n - d` attempts, and a failure tally of exactly `k`.
pub proof fn lemma_counter_accuracy(keys: Seq<Seq<char>>, fails: Seq<bool>, n: nat)
    requires
        n <= keys.len(),
    ensures
        model_run(keys, fails, n).position == n,
        model_run(keys, fails, n).attempted + count_duplicates(keys, n) == n,
        model_run(keys, fails, n).failed == count_failures(keys, fails, n),
    decreases n,
{
    if n > 0 {
        lemma_counter_accuracy(keys, fails, (n - 1) as nat);
        lemma_model_seen(keys, fails, (n - 1) as nat);
    }
}

/// Dedup idempotence: when an earlier record carries the same key, the later
/// record is a duplicate, its key is already in the seen-set when its turn
/// comes, and its step changes nothing but the position — whatever its
/// outcome would have been.
pub proof fn lemma_dedup_idempotent(keys: Seq<Seq<char>>, fails: Seq<bool>, i: int, j: int)
    requires
        0 <= i < j < keys.len(),
        keys[i] == keys[j],
    ensures
        model_run(keys, fails, j as nat).seen.contains(keys[j]),
        forall|failed: bool|
            #[trigger] model_step(model_run(keys, fails, j as nat), keys[j], failed) == (BatchModel {
                position: model_run(keys, fails, j as nat).position + 1,
                attempted: model_run(keys, fails, j as nat).attempted,
                failed: model_run(keys, fails, j as nat).failed,
                seen: model_run(keys, fails, j as nat).seen,
            }),
{
    lemma_model_seen(keys, fails, j as nat);
    assert(model_run(keys, fails, j as nat).seen.contains(keys[j]));
}

/// The orchestrator's running state: the seen keys and the counters, a
/// faithful implementation of `BatchModel`.
pub struct BatchState {
    pub seen: Vec<String>,
    pub position: u64,
    pub attempted: u64,
    pub failed: u64,
}

impl BatchState {
    /// The model this state implements.
    pub open spec fn model(self) -> BatchModel {
        BatchModel {
            position: self.position as nat,
            attempted: self.attempted as nat,
            failed: self.failed as nat,
            seen: self.seen.deep_view(),
        }
    }

    /// The counters never outrun the position, so they cannot overflow
    /// before the position does.
    pub open spec fn wf(self) -> bool {
        self.failed <= self.attempted <= self.position
    }

    /// A fresh state: nothing seen, every counter zero.
    pub fn new() -> (st: Self)
        ensures
            st.wf(),
            st.model() == model_init(),
    {
        let st = BatchState { seen: Vec::new(), position: 0, attempted: 0, failed: 0 };
        proof {
            assert(st.seen.deep_view() =~= Seq::<Seq<char>>::empty());
        }
        st
    }

    /// Whether a dedup key was already processed in this run.
    pub fn already_seen(&self, key: &String) -> (r: bool)
        ensures
            r == self.model().seen.contains(key@),
    {
        let n = self.seen.len();
        let mut i: usize = 0;
        while i < n
            invariant
                i <= n,
                n == self.seen.len(),
                forall|j: int| 0 <= j < i ==> self.seen.deep_view()[j] != key@,
            decreases n - i,
        {
            if self.seen[i] == *key {
                proof {
                    assert(self.seen.deep_view()[i as int] == key@);
                }
                return true;
            }
            i = i + 1;
        }
        proof {
            if self.model().seen.contains(key@) {
                let j = choose|j: int|
                    0 <= j < self.seen.deep_view().len() && self.seen.deep_view()[j] == key@;
                assert(self.seen.deep_view()[j] != key@);
            }
        }
        false
    }

    /// Passes a record whose key was already seen: no attempt, no counter
    /// change, no new key; only the position advances.
    pub fn skip_record(&mut self, key: &String)
        requires
            old(self).wf(),
            old(self).model().seen.contains(key@),
            old(self).position < u64::MAX,
        ensures
            final(self).wf(),
            forall|failed: bool|
                final(self).model() == model_step(old(self).model(), key@, failed),
    {
        self.position = self.position + 1;
    }

    /// Concludes an attempted record: the key becomes seen whatever the
    /// outcome was, the attempt is counted, and a failure raises the tally.
    pub fn finish_record(&mut self, key: String, failed: bool)
        requires
            old(self).wf(),
            !old(self).model().seen.contains(key@),
            old(self).position < u64::MAX,
        ensures
            final(self).wf(),
            final(self).model() == model_step(old(self).model(), key@, failed),
    {
        let ghost prev = self.seen.deep_view();
        let ghost key_view = key@;
        self.seen.push(key);
        self.position = self.position + 1;
        self.attempted = self.attempted + 1;
        if failed {
            self.failed = self.failed + 1;
        }
        proof {
            assert(self.seen.deep_view() =~= prev.push(key_view));
        }
    }
}

/// The per-record progress line, printed before a record is attempted.
pub open spec fn spec_progress_line(
    position: nat,
    total: nat,
    title: Seq<char>,
    difficulty: Seq<char>,
) -> Seq<char> {
    "("@ + spec_decimal_nat(position) + "/"@ + spec_decimal_nat(total)
        + ") processing beatmap "@ + title + " - "@ + difficulty
}

/// Builds the per-record progress line.
pub fn progress_line(position: u64, total: u64, title: &str, difficulty: &str) -> (r: String)
    ensures
        r@ == spec_progress_line(position as nat, total as nat, title@, difficulty@),
{
    let pos_digits = u64_decimal(position);
    let total_digits = u64_decimal(total);
    String::from_str("(").concat(pos_digits.as_str()).concat("/").concat(
        total_digits.as_str(),
    ).concat(") processing beatmap ").concat(title).concat(" - ").concat(difficulty)
}

/// The end-of-run summary line with the failure tally.
pub open spec fn spec_summary_line(failed: nat) -> Seq<char> {
    "operation done, failed "@ + spec_decimal_nat(failed)
}

/// Builds the end-of-run summary line.
pub fn summary_line(failed: u64) -> (r: String)
    ensures
        r@ == spec_summary_line(failed as nat),
{
    let digits = u64_decimal(failed);
    String::from_str("operation done, failed ").concat(digits.as_str())
}

} // verus!
