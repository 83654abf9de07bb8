//! The shared frame-pair cursor.
//!
//! Decoding is inherently sequential per stream, so exactly one worker at a
//! time drives the cursor through one acquisition: first a run of skip reads
//! until the physically consumed position reaches the next target index, then
//! a window check, then the read of the pair that is actually scored.  The
//! cursor itself only decides; the caller performs each read under exclusive
//! access and reports whether both streams yielded a frame.
//!
//! An acquisition is one `advise` call, with `complete_skip` after each
//! advised skip read and `complete_score` after an advised scoring read.

use vstd::arithmetic::mul::lemma_mul_is_distributive_add_other_way;
use vstd::arithmetic::mul::lemma_mul_strict_inequality;
use vstd::prelude::*;

verus! {

/// What the worker holding the cursor must do next.
#[derive(Clone, Copy, Debug, PartialEq, Eq, Structural)]
pub enum CursorStep {
    /// Read one frame from each stream and discard the pair, then report the
    /// outcome through `complete_skip`.
    SkipPair,
    /// Read one frame from each stream and score the pair under the carried
    /// frame index, reporting the outcome through `complete_score`.
    ScorePair(usize),
    /// The comparison is over: the window is exhausted or a stream ended.
    Stop,
}

/// The single piece of shared mutable state of the engine: the decode
/// position of the two lock-step streams.
///
/// `current_frame` counts the frames physically consumed from each stream so
/// far; `next_frame` is the target index of the next frame to score.  The
/// ghost `emitted` sequence records every frame index handed out for scoring,
/// in the order the cursor assigned them.
pub struct FramePairCursor {
    /// Frames consumed from each stream so far.
    pub current_frame: usize,
    /// Target index of the next frame to score.
    pub next_frame: usize,
    /// Sampling increment: every `increment`-th frame is scored.
    pub increment: usize,
    /// First frame index of the scoring window.
    pub start_frame: usize,
    /// Exclusive upper bound of the window: a pair whose successor target
    /// would pass this bound is not scored.
    pub end_frame: Option<usize>,
    /// A stream ended or the window closed; nothing more will be scored.
    pub exhausted: bool,
    /// A scoring read was advised and its outcome has not been reported yet.
    pub score_pending: bool,
    /// History of the frame indices handed out for scoring.
    pub emitted: Ghost<Seq<usize>>,
}

impl FramePairCursor {
    /// The cursor's invariant: the target index is always at least the
    /// consumed position, the k-th emitted index is exactly
    /// `start_frame + k * increment`, and every emitted index respects the
    /// configured window bound.
    pub open spec fn wf(&self) -> bool {
        &&& self.increment >= 1
        &&& self.current_frame <= self.next_frame
        &&& (if self.score_pending {
            &&& !self.exhausted
            &&& self.current_frame + self.increment == self.next_frame
            &&& self.next_frame == self.start_frame + (self.emitted@.len() + 1) * self.increment
            &&& (self.end_frame matches Some(e) ==> self.next_frame <= e)
        } else {
            self.next_frame == self.start_frame + self.emitted@.len() * self.increment
        })
        &&& forall|k: int|
            0 <= k < self.emitted@.len() ==> #[trigger] self.emitted@[k] == self.start_frame + k
                * self.increment
        &&& (self.end_frame matches Some(e) ==> forall|k: int|
            0 <= k < self.emitted@.len() ==> #[trigger] self.emitted@[k] + self.increment <= e)
    }

    /// A fresh cursor over two streams: nothing consumed yet, the first
    /// target index at the start of the window.
    pub fn new(start_frame: usize, increment: usize, end_frame: Option<usize>) -> (c: Self)
        requires
            increment >= 1,
        ensures
            c.wf(),
            c.current_frame == 0,
            c.next_frame == start_frame,
            c.increment == increment,
            c.start_frame == start_frame,
            c.end_frame == end_frame,
            !c.exhausted,
            !c.score_pending,
            c.emitted@ == Seq::<usize>::empty(),
    {
        FramePairCursor {
            current_frame: 0,
            next_frame: start_frame,
            increment,
            start_frame,
            end_frame,
            exhausted: false,
            score_pending: false,
            emitted: Ghost(Seq::empty()),
        }
    }

    /// One decision of the locked acquisition loop: skip a pair, score a
    /// pair, or stop.  A target index past the machine's index range cannot
    /// be scored and also stops the comparison.
    pub fn advise(&mut self) -> (step: CursorStep)
        requires
            old(self).wf(),
            !old(self).score_pending,
        ensures
            final(self).wf(),
            final(self).increment == old(self).increment,
            final(self).start_frame == old(self).start_frame,
            final(self).end_frame == old(self).end_frame,
            final(self).emitted == old(self).emitted,
            final(self).current_frame == old(self).current_frame,
            match step {
                CursorStep::SkipPair => {
                    &&& *final(self) == *old(self)
                    &&& !final(self).exhausted
                    &&& final(self).current_frame < final(self).next_frame
                },
                CursorStep::ScorePair(idx) => {
                    &&& idx == old(self).current_frame
                    &&& idx == old(self).next_frame
                    &&& !old(self).exhausted
                    &&& final(self).score_pending
                    &&& final(self).next_frame == old(self).next_frame + old(self).increment
                },
                CursorStep::Stop => {
                    &&& final(self).exhausted
                    &&& !final(self).score_pending
                    &&& final(self).next_frame == old(self).next_frame
                    &&& (old(self).exhausted || (old(self).current_frame == old(self).next_frame
                        && (old(self).next_frame + old(self).increment > usize::MAX || (old(
                        self,
                    ).end_frame matches Some(e)
                        && old(self).next_frame + old(self).increment > e))))
                },
            },
    {
        if self.exhausted {
            return CursorStep::Stop;
        }
        if self.current_frame < self.next_frame {
            return CursorStep::SkipPair;
        }
        // The consumed position has reached the target: decide whether the
        // pair at `current_frame` still lies inside the window.
        if self.current_frame > usize::MAX - self.increment {
            self.exhausted = true;
            return CursorStep::Stop;
        }
        let new_next = self.current_frame + self.increment;
        if let Some(end) = self.end_frame {
            if new_next > end {
                self.exhausted = true;
                return CursorStep::Stop;
            }
        }
        let idx = self.current_frame;
        self.next_frame = new_next;
        self.score_pending = true;
        proof {
            lemma_mul_is_distributive_add_other_way(
                self.increment as int,
                self.emitted@.len() as int,
                1,
            );
        }
        CursorStep::ScorePair(idx)
    }

    /// Reports the outcome of an advised skip read: both streams yielded a
    /// frame and the pair was discarded, or one of them ended.
    pub fn complete_skip(&mut self, got_pair: bool)
        requires
            old(self).wf(),
            !old(self).score_pending,
            !old(self).exhausted,
            old(self).current_frame < old(self).next_frame,
        ensures
            final(self).wf(),
            final(self).increment == old(self).increment,
            final(self).start_frame == old(self).start_frame,
            final(self).end_frame == old(self).end_frame,
            final(self).emitted == old(self).emitted,
            final(self).next_frame == old(self).next_frame,
            !final(self).score_pending,
            got_pair ==> final(self).current_frame == old(self).current_frame + 1
                && !final(self).exhausted,
            !got_pair ==> final(self).current_frame == old(self).current_frame
                && final(self).exhausted,
    {
        if got_pair {
            self.current_frame = self.current_frame + 1;
        } else {
            self.exhausted = true;
        }
    }

    /// Reports the outcome of an advised scoring read.  On success the
    /// advised index joins the emission history; on failure the stream is
    /// exhausted and the advised index yields no record.
    pub fn complete_score(&mut self, got_pair: bool)
        requires
            old(self).wf(),
            old(self).score_pending,
        ensures
            final(self).wf(),
            final(self).increment == old(self).increment,
            final(self).start_frame == old(self).start_frame,
            final(self).end_frame == old(self).end_frame,
            !final(self).score_pending,
            got_pair ==> {
                &&& final(self).emitted@ == old(self).emitted@.push(old(self).current_frame)
                &&& final(self).current_frame == old(self).current_frame + 1
                &&& final(self).next_frame == old(self).next_frame
                &&& !final(self).exhausted
            },
            !got_pair ==> final(self).emitted == old(self).emitted && final(self).exhausted,
    {
        proof {
            lemma_mul_is_distributive_add_other_way(
                self.increment as int,
                self.emitted@.len() as int,
                1,
            );
        }
        self.score_pending = false;
        if got_pair {
            let ghost idx = self.current_frame;
            self.current_frame = self.current_frame + 1;
            self.emitted = Ghost(self.emitted@.push(idx));
        } else {
            // Nothing was scored: fold the target back so the cursor state
            // stays consistent, and mark the comparison over.
            self.next_frame = self.current_frame;
            self.exhausted = true;
        }
    }

    /// The frame indices the cursor hands out are unique, strictly
    /// increasing, spaced exactly one increment apart from the window start,
    /// and inside the configured window bound.
    pub proof fn lemma_emitted_indices(&self)
        requires
            self.wf(),
        ensures
            forall|k: int|
                0 <= k < self.emitted@.len() ==> #[trigger] self.emitted@[k] == self.start_frame
                    + k * self.increment,
            forall|i: int, j: int|
                0 <= i < j < self.emitted@.len() ==> self.emitted@[i] < self.emitted@[j],
            self.end_frame matches Some(e) ==> forall|k: int|
                0 <= k < self.emitted@.len() ==> #[trigger] self.emitted@[k] + self.increment <= e,
    {
        assert forall|i: int, j: int|
            0 <= i < j < self.emitted@.len() implies self.emitted@[i] < self.emitted@[j] by {
            lemma_mul_strict_inequality(i, j, self.increment as int);
        }
    }
}

} // verus!
