//! Ordered aggregation of score records.
//!
//! Workers publish `(frame_index, score)` pairs in whatever order they finish,
//! so the aggregator keeps the records sorted by frame index and free of
//! duplicate keys; the final statistics, the CSV export and the chart all read
//! the frame-ordered sequence.  The score itself is carried as the opaque
//! 64-bit pattern of the metric's scalar: the library never interprets it.

use vstd::prelude::*;

verus! {

/// One scored frame pair: the cursor-assigned frame index and the score's
/// 64-bit pattern.
#[derive(Clone, Copy, Debug, PartialEq, Eq, Structural)]
pub struct ScoreRecord {
    /// The value of the cursor's consumed position at the moment the pair
    /// was read for scoring.
    pub frame_index: usize,
    /// The bit pattern of the scalar score; opaque to the engine.
    pub score_bits: u64,
}

/// Strictly increasing frame indices: sorted and free of duplicate keys.
pub open spec fn spec_sorted(s: Seq<ScoreRecord>) -> bool {
    forall|i: int, j: int|
        0 <= i < j < s.len() ==> #[trigger] s[i].frame_index < #[trigger] s[j].frame_index
}

/// Whether the records hold `b` under frame index `f`.
pub open spec fn spec_contains(s: Seq<ScoreRecord>, f: int, b: u64) -> bool {
    exists|i: int| 0 <= i < s.len() && (#[trigger] s[i]).frame_index == f && s[i].score_bits == b
}

/// Whether any record carries frame index `f`.
pub open spec fn spec_has_frame(s: Seq<ScoreRecord>, f: int) -> bool {
    exists|i: int| 0 <= i < s.len() && (#[trigger] s[i]).frame_index == f
}

/// Whether `(f, b)` is the last entry for frame index `f` in `s`.
pub open spec fn spec_last_entry(s: Seq<ScoreRecord>, f: int, b: u64) -> bool {
    exists|i: int|
        0 <= i < s.len() && (#[trigger] s[i]).frame_index == f && s[i].score_bits == b && (forall|
            j: int,
        |
            i < j < s.len() ==> (#[trigger] s[j]).frame_index != f)
}

/// The frame-ordered mapping from frame index to score, built progressively
/// as records arrive in arbitrary order.
pub struct ScoreSeries {
    /// The records, sorted by strictly increasing frame index.
    pub records: Vec<ScoreRecord>,
}

impl ScoreSeries {
    /// The aggregator's invariant: the ordered mapping never contains
    /// duplicate keys and is sorted by frame index.
    pub open spec fn wf(&self) -> bool {
        spec_sorted(self.records@)
    }

    /// An empty series.
    pub fn new() -> (s: Self)
        ensures
            s.wf(),
            s.records@.len() == 0,
    {
        ScoreSeries { records: Vec::new() }
    }

    /// The number of aggregated records.
    pub fn len(&self) -> (n: usize)
        ensures
            n == self.records@.len(),
    {
        self.records.len()
    }

    /// Files one arriving record under its frame index, keeping the mapping
    /// sorted; a record that arrives under an already-present frame index
    /// replaces the earlier score.
    pub fn insert(&mut self, frame_index: usize, score_bits: u64)
        requires
            old(self).wf(),
        ensures
            final(self).wf(),
            spec_contains(final(self).records@, frame_index as int, score_bits),
            forall|b: u64|
                spec_contains(final(self).records@, frame_index as int, b) ==> b == score_bits,
            forall|f: int, b: u64|
                f != frame_index ==> (spec_contains(final(self).records@, f, b)
                    <==> spec_contains(old(self).records@, f, b)),
            final(self).records@.len() == old(self).records@.len() + (
            if spec_has_frame(old(self).records@, frame_index as int) {
                0int
            } else {
                1int
            }),
    {
        let n = self.records.len();
        let mut p: usize = 0;
        while p < n && self.records[p].frame_index < frame_index
            invariant
                0 <= p <= n,
                n == self.records@.len(),
                forall|i: int| 0 <= i < p ==> (#[trigger] self.records@[i]).frame_index
                    < frame_index,
            decreases n - p,
        {
            p = p + 1;
        }
        let rec = ScoreRecord { frame_index, score_bits };
        if p < n && self.records[p].frame_index == frame_index {
            self.records.set(p, rec);
            assert(self.records@[p as int] == rec);
            assert(spec_contains(self.records@, frame_index as int, score_bits));
            assert(spec_has_frame(old(self).records@, frame_index as int));
            assert forall|f: int, b: u64|
                f != frame_index implies (spec_contains(self.records@, f, b) <==> spec_contains(
                old(self).records@,
                f,
                b,
            )) by {
                if spec_contains(self.records@, f, b) {
                    let i = choose|i: int|
                        0 <= i < self.records@.len() && (#[trigger] self.records@[i]).frame_index
                            == f && self.records@[i].score_bits == b;
                    assert(old(self).records@[i].frame_index == f);
                }
                if spec_contains(old(self).records@, f, b) {
                    let i = choose|i: int|
                        0 <= i < old(self).records@.len() && (#[trigger] old(
                            self,
                        ).records@[i]).frame_index == f && old(self).records@[i].score_bits == b;
                    assert(self.records@[i].frame_index == f);
                }
            }
        } else {
            assert(forall|i: int|
                p <= i < self.records@.len() ==> (#[trigger] self.records@[i]).frame_index
                    > frame_index);
            self.records.insert(p, rec);
            assert(self.records@[p as int] == rec);
            assert(spec_contains(self.records@, frame_index as int, score_bits));
            assert(!spec_has_frame(old(self).records@, frame_index as int));
            assert forall|f: int, b: u64|
                f != frame_index implies (spec_contains(self.records@, f, b) <==> spec_contains(
                old(self).records@,
                f,
                b,
            )) by {
                if spec_contains(self.records@, f, b) {
                    let i = choose|i: int|
                        0 <= i < self.records@.len() && (#[trigger] self.records@[i]).frame_index
                            == f && self.records@[i].score_bits == b;
                    if i < p {
                        assert(old(self).records@[i].frame_index == f);
                    } else {
                        assert(old(self).records@[i - 1].frame_index == f);
                    }
                }
                if spec_contains(old(self).records@, f, b) {
                    let i = choose|i: int|
                        0 <= i < old(self).records@.len() && (#[trigger] old(
                            self,
                        ).records@[i]).frame_index == f && old(self).records@[i].score_bits == b;
                    if i < p {
                        assert(self.records@[i].frame_index == f);
                    } else {
                        assert(self.records@[i + 1].frame_index == f);
                    }
                }
            }
        }
    }

    /// Builds the ordered series from records in arrival order: every frame
    /// index that arrived is present, under the score of its last arrival.
    pub fn from_records(arrivals: &Vec<ScoreRecord>) -> (s: ScoreSeries)
        ensures
            s.wf(),
            forall|f: int, b: u64|
                spec_contains(s.records@, f, b) <==> spec_last_entry(arrivals@, f, b),
    {
        let n = arrivals.len();
        let mut s = ScoreSeries::new();
        let mut i: usize = 0;
        while i < n
            invariant
                s.wf(),
                0 <= i <= n,
                n == arrivals@.len(),
                forall|f: int, b: u64|
                    spec_contains(s.records@, f, b) <==> spec_last_entry(
                        arrivals@.take(i as int),
                        f,
                        b,
                    ),
            decreases n - i,
        {
            let ghost prev = s.records@;
            let rec = arrivals[i];
            s.insert(rec.frame_index, rec.score_bits);
            proof {
                let pre = arrivals@.take(i as int);
                let post = arrivals@.take(i as int + 1);
                assert(post.drop_last() =~= pre);
                assert(post.last() == rec);
                assert forall|f: int, b: u64|
                    spec_contains(s.records@, f, b) implies spec_last_entry(post, f, b) by {
                    if f == rec.frame_index {
                        assert(b == rec.score_bits);
                        assert(post[i as int].frame_index == f);
                    } else {
                        assert(spec_contains(prev, f, b));
                        let k = choose|k: int|
                            0 <= k < pre.len() && (#[trigger] pre[k]).frame_index == f
                                && pre[k].score_bits == b && (forall|j: int|
                                k < j < pre.len() ==> (#[trigger] pre[j]).frame_index != f);
                        assert(post[k].frame_index == f && post[k].score_bits == b);
                        assert(forall|j: int|
                            k < j < post.len() ==> (#[trigger] post[j]).frame_index != f);
                    }
                }
                assert forall|f: int, b: u64|
                    spec_last_entry(post, f, b) implies spec_contains(s.records@, f, b) by {
                    let k = choose|k: int|
                        0 <= k < post.len() && (#[trigger] post[k]).frame_index == f
                            && post[k].score_bits == b && (forall|j: int|
                            k < j < post.len() ==> (#[trigger] post[j]).frame_index != f);
                    if f == rec.frame_index {
                        assert(k == i as int);
                    } else {
                        assert(pre[k].frame_index == f && pre[k].score_bits == b);
                        assert(forall|j: int|
                            k < j < pre.len() ==> (#[trigger] pre[j]).frame_index != f);
                        assert(spec_last_entry(pre, f, b));
                        assert(spec_contains(prev, f, b));
                    }
                }
            }
            i = i + 1;
        }
        proof {
            assert(arrivals@.take(n as int) =~= arrivals@);
        }
        s
    }
}

/// Two sorted duplicate-free record sequences holding the same entries are
/// the same sequence.
proof fn lemma_sorted_same_entries_equal(x: Seq<ScoreRecord>, y: Seq<ScoreRecord>)
    requires
        spec_sorted(x),
        spec_sorted(y),
        forall|f: int, b: u64| spec_contains(x, f, b) <==> spec_contains(y, f, b),
    ensures
        x == y,
    decreases x.len(),
{
    if x.len() == 0 {
        if y.len() > 0 {
            assert(spec_contains(y, y[0].frame_index as int, y[0].score_bits));
            assert(false);
        }
        assert(x =~= y);
    } else {
        assert(spec_contains(x, x[0].frame_index as int, x[0].score_bits));
        assert(spec_contains(y, x[0].frame_index as int, x[0].score_bits));
        if y.len() == 0 {
            assert(false);
        }
        assert(spec_contains(y, y[0].frame_index as int, y[0].score_bits));
        assert(spec_contains(x, y[0].frame_index as int, y[0].score_bits));
        let iy = choose|i: int|
            0 <= i < y.len() && (#[trigger] y[i]).frame_index == x[0].frame_index
                && y[i].score_bits == x[0].score_bits;
        let ix = choose|i: int|
            0 <= i < x.len() && (#[trigger] x[i]).frame_index == y[0].frame_index
                && x[i].score_bits == y[0].score_bits;
        // The least key of each sequence occurs in the other, so the heads
        // carry the same key, hence the same entry.
        assert(x[0].frame_index <= x[ix].frame_index);
        assert(y[0].frame_index <= y[iy].frame_index);
        assert(x[0].frame_index == y[0].frame_index);
        assert(iy == 0);
        assert(x[0] == y[0]);
        let xt = x.subrange(1, x.len() as int);
        let yt = y.subrange(1, y.len() as int);
        assert forall|f: int, b: u64| spec_contains(xt, f, b) implies spec_contains(yt, f, b) by {
            let i = choose|i: int|
                0 <= i < xt.len() && (#[trigger] xt[i]).frame_index == f && xt[i].score_bits == b;
            assert(x[i + 1].frame_index == f && x[i + 1].score_bits == b);
            assert(spec_contains(x, f, b));
            let j = choose|j: int|
                0 <= j < y.len() && (#[trigger] y[j]).frame_index == f && y[j].score_bits == b;
            assert(f > x[0].frame_index);
            assert(j != 0);
            assert(yt[j - 1].frame_index == f && yt[j - 1].score_bits == b);
        }
        assert forall|f: int, b: u64| spec_contains(yt, f, b) implies spec_contains(xt, f, b) by {
            let i = choose|i: int|
                0 <= i < yt.len() && (#[trigger] yt[i]).frame_index == f && yt[i].score_bits == b;
            assert(y[i + 1].frame_index == f && y[i + 1].score_bits == b);
            assert(spec_contains(y, f, b));
            let j = choose|j: int|
                0 <= j < x.len() && (#[trigger] x[j]).frame_index == f && x[j].score_bits == b;
            assert(f > y[0].frame_index);
            assert(j != 0);
            assert(xt[j - 1].frame_index == f && xt[j - 1].score_bits == b);
        }
        lemma_sorted_same_entries_equal(xt, yt);
        assert forall|i: int| 0 <= i < x.len() implies x[i] == y[i] by {
            if i > 0 {
                assert(x[i] == xt[i - 1]);
                assert(y[i] == yt[i - 1]);
            }
        }
        assert(x =~= y);
    }
}

/// No two records of the sequence carry the same frame index.
pub open spec fn spec_unique_frames(s: Seq<ScoreRecord>) -> bool {
    forall|i: int, j: int|
        0 <= i < j < s.len() ==> (#[trigger] s[i]).frame_index != (#[trigger] s[j]).frame_index
}

/// When every frame index arrives once, which entries a run holds does not
/// depend on the order the workers finished in: any rearrangement of the
/// arrivals holds exactly the same entries.
pub proof fn lemma_entries_of_permuted_arrivals(a: Seq<ScoreRecord>, b: Seq<ScoreRecord>)
    requires
        spec_unique_frames(a),
        spec_unique_frames(b),
        a.to_multiset() == b.to_multiset(),
    ensures
        forall|f: int, bits: u64| spec_last_entry(a, f, bits) <==> spec_last_entry(b, f, bits),
{
    broadcast use vstd::seq_lib::group_to_multiset_ensures;

    assert forall|f: int, bits: u64| spec_last_entry(a, f, bits) implies spec_last_entry(
        b,
        f,
        bits,
    ) by {
        lemma_last_entry_exchange(a, b, f, bits);
    }
    assert forall|f: int, bits: u64| spec_last_entry(b, f, bits) implies spec_last_entry(
        a,
        f,
        bits,
    ) by {
        lemma_last_entry_exchange(b, a, f, bits);
    }
}

/// One direction of the exchange: an entry of `a` is an entry of `b`.
proof fn lemma_last_entry_exchange(a: Seq<ScoreRecord>, b: Seq<ScoreRecord>, f: int, bits: u64)
    requires
        spec_unique_frames(b),
        a.to_multiset() == b.to_multiset(),
        spec_last_entry(a, f, bits),
    ensures
        spec_last_entry(b, f, bits),
{
    broadcast use vstd::seq_lib::group_to_multiset_ensures;

    let i = choose|i: int|
        0 <= i < a.len() && (#[trigger] a[i]).frame_index == f && a[i].score_bits == bits && (
        forall|j: int| i < j < a.len() ==> (#[trigger] a[j]).frame_index != f);
    let r = a[i];
    assert(a.contains(r));
    assert(a.to_multiset().count(r) > 0);
    assert(b.contains(r));
    let k = choose|k: int| 0 <= k < b.len() && b[k] == r;
    assert(b[k].frame_index == f && b[k].score_bits == bits);
    assert(forall|j: int| k < j < b.len() ==> (#[trigger] b[j]).frame_index != f);
}

/// Aggregation is deterministic in the set of records, not their arrival
/// order: two well-formed series holding the same entries are equal, so
/// re-running the engine over the same streams with the same configuration,
/// whatever order the workers finish in, yields the same ordered result.
pub proof fn lemma_aggregation_order_independent(a: &ScoreSeries, b: &ScoreSeries)
    requires
        a.wf(),
        b.wf(),
        forall|f: int, bits: u64|
            spec_contains(a.records@, f, bits) <==> spec_contains(b.records@, f, bits),
    ensures
        a.records@ == b.records@,
{
    lemma_sorted_same_entries_equal(a.records@, b.records@);
}

} // verus!
