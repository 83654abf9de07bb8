//! Configuration checks and the window arithmetic of a comparison run.
//!
//! The engine decides everything that does not touch a decoder or the metric:
//! which inputs are piped, whether the requested options are consistent,
//! where the scoring window ends, and exactly which frame indices a run over
//! streams of known length scores.

use crate::cursor::CursorStep;
use crate::cursor::FramePairCursor;
use crate::error::CompareError;
use crate::text::ends_with_lower;
use crate::text::spec_ends_with_lower;
use crate::text::str_eq;
use vstd::arithmetic::mul::lemma_mul_is_distributive_add_other_way;
use vstd::prelude::*;

verus! {

/// Whether a user-supplied input name denotes piped standard input.
pub open spec fn spec_is_piped_input(s: Seq<char>) -> bool {
    s == "-"@ || s == "/dev/stdin"@
}

/// Tests whether an input name denotes piped standard input.
pub fn is_piped_input(s: &str) -> (r: bool)
    ensures
        r == spec_is_piped_input(s@),
{
    str_eq(s, "-") || str_eq(s, "/dev/stdin")
}

/// Whether an input name denotes a script source rather than a container
/// file: ignoring ASCII case it ends in ".vpy", and the dot is not the first
/// character of the file name.
pub open spec fn spec_is_script_input(s: Seq<char>) -> bool {
    &&& spec_ends_with_lower(s, ".vpy"@)
    &&& s.len() >= 5
    &&& s[s.len() - 5] != '/'
}

/// Tests whether an input name denotes a script source.
pub fn is_script_input(s: &str) -> (r: bool)
    ensures
        r == spec_is_script_input(s@),
{
    let n = s.unicode_len();
    if n < 5 {
        proof {
            reveal_strlit(".vpy");
        }
        return false;
    }
    ends_with_lower(s, ".vpy") && s.get_char(n - 5) != '/'
}

/// Checks the requested run before any decoding starts.  The comparison is
/// refused when both inputs are piped standard input (one stream cannot be
/// read twice in lock step) and when a start frame is requested but neither
/// stream reports a frame count.
pub fn validate_comparison(
    source_piped: bool,
    distorted_piped: bool,
    start_frame: Option<usize>,
    source_frame_count: Option<usize>,
    distorted_frame_count: Option<usize>,
) -> (r: Result<(), CompareError>)
    ensures
        r is Ok <==> !(source_piped && distorted_piped) && !(start_frame is Some
            && source_frame_count is None && distorted_frame_count is None),
        r is Err ==> r == Result::<(), CompareError>::Err(CompareError::Configuration),
{
    if source_piped && distorted_piped {
        return Err(CompareError::Configuration);
    }
    if start_frame.is_some() && source_frame_count.is_none() && distorted_frame_count.is_none() {
        return Err(CompareError::Configuration);
    }
    Ok(())
}

/// Whether both streams report a frame count and the counts differ; the run
/// then proceeds with a warning, since the shorter stream simply ends first.
pub fn frame_counts_mismatch(
    source_frame_count: Option<usize>,
    distorted_frame_count: Option<usize>,
) -> (r: bool)
    ensures
        r == (source_frame_count matches Some(a) && distorted_frame_count matches Some(b) && a
            != b),
{
    match (source_frame_count, distorted_frame_count) {
        (Some(a), Some(b)) => a != b,
        _ => false,
    }
}

/// The number of frames the shorter stream can yield, when any count is
/// known: the minimum of the reported counts.
pub fn effective_stream_limit(
    source_frame_count: Option<usize>,
    distorted_frame_count: Option<usize>,
) -> (r: Option<usize>)
    ensures
        match (source_frame_count, distorted_frame_count) {
            (Some(a), Some(b)) => r == Some(if a <= b { a } else { b }),
            (Some(a), None) => r == Some(a),
            (None, Some(b)) => r == Some(b),
            (None, None) => r is None,
        },
{
    match (source_frame_count, distorted_frame_count) {
        (Some(a), Some(b)) => Some(if a <= b { a } else { b }),
        (Some(a), None) => Some(a),
        (None, Some(b)) => Some(b),
        (None, None) => None,
    }
}

/// The exclusive upper bound of the scoring window:
/// `start_frame + frames_to_compare * increment`, so that exactly
/// `frames_to_compare` pairs are scored when the streams last long enough.
/// A bound past the machine's index range is a configuration error.
pub fn scoring_end_bound(
    start_frame: usize,
    frames_to_compare: Option<usize>,
    increment: usize,
) -> (r: Result<Option<usize>, CompareError>)
    ensures
        frames_to_compare is None ==> r == Result::<Option<usize>, CompareError>::Ok(None),
        frames_to_compare matches Some(n) ==> {
            if start_frame + n * increment <= usize::MAX {
                r == Result::<Option<usize>, CompareError>::Ok(
                    Some((start_frame + n * increment) as usize),
                )
            } else {
                r == Result::<Option<usize>, CompareError>::Err(CompareError::Configuration)
            }
        },
{
    match frames_to_compare {
        None => Ok(None),
        Some(n) => {
            match n.checked_mul(increment) {
                None => Err(CompareError::Configuration),
                Some(span) => {
                    match start_frame.checked_add(span) {
                        None => Err(CompareError::Configuration),
                        Some(end) => Ok(Some(end)),
                    }
                },
            }
        },
    }
}

/// The ceiling of `a / b`.
pub open spec fn spec_ceil_div(a: int, b: int) -> int {
    (a + b - 1) / b
}

/// How many comparisons a progress display should expect of a stream with a
/// known frame count: the requested number of comparisons — or everything
/// from the start frame on when no number was requested — capped by how many
/// frames the stream can yield at this increment.
pub fn progress_total(
    frame_count: usize,
    start_frame: usize,
    frames_to_compare: Option<usize>,
    increment: usize,
) -> (r: usize)
    requires
        increment >= 1,
        start_frame <= frame_count,
    ensures
        ({
            let base: int = if frames_to_compare is Some {
                frames_to_compare->0 as int
            } else {
                frame_count - start_frame
            };
            let ceil = spec_ceil_div(frame_count as int, increment as int);
            r == if base <= ceil {
                base
            } else {
                ceil
            }
        }),
{
    let base = match frames_to_compare {
        Some(n) => n,
        None => frame_count - start_frame,
    };
    let ceil: usize = if frame_count == 0 {
        proof {
            vstd::arithmetic::div_mod::lemma_basic_div_specific_divisor(increment as int);
        }
        0
    } else {
        proof {
            vstd::arithmetic::div_mod::lemma_hoist_over_denominator(
                frame_count - 1,
                1,
                increment as nat,
            );
            vstd::arithmetic::div_mod::lemma_div_is_ordered_by_denominator(
                frame_count - 1,
                1,
                increment as int,
            );
            vstd::arithmetic::div_mod::lemma_div_basics_2(frame_count - 1);
        }
        (frame_count - 1) / increment + 1
    };
    if base <= ceil {
        base
    } else {
        ceil
    }
}

/// Why no further pair is scored once `n` pairs have been: the next target
/// index is not available from both streams, the successor target would pass
/// the window bound, or the successor target would pass the machine's index
/// range.
pub open spec fn spec_no_more_scores(
    available: int,
    start_frame: int,
    increment: int,
    end_frame: Option<usize>,
    n: int,
) -> bool {
    ||| start_frame + n * increment >= available
    ||| (end_frame matches Some(e) && start_frame + (n + 1) * increment > e)
    ||| start_frame + (n + 1) * increment > usize::MAX
}

/// The exact frame indices a run scores when both streams yield exactly
/// `available` frame pairs: the arithmetic progression from `start_frame`
/// spaced `increment` apart, cut off at the first index the streams cannot
/// yield or the window excludes.
///
/// This is the sequential core of the engine: it drives the shared cursor
/// exactly as the worker pool does, with every read answered from the known
/// stream length.
pub fn planned_frame_indices(
    available: usize,
    start_frame: usize,
    increment: usize,
    end_frame: Option<usize>,
) -> (idx: Vec<usize>)
    requires
        increment >= 1,
    ensures
        forall|k: int|
            0 <= k < idx@.len() ==> #[trigger] idx@[k] == start_frame + k * increment,
        forall|k: int| 0 <= k < idx@.len() ==> #[trigger] idx@[k] < available,
        end_frame matches Some(e) ==> forall|k: int|
            0 <= k < idx@.len() ==> #[trigger] idx@[k] + increment <= e,
        spec_no_more_scores(
            available as int,
            start_frame as int,
            increment as int,
            end_frame,
            idx@.len() as int,
        ),
{
    let mut cursor = FramePairCursor::new(start_frame, increment, end_frame);
    let mut out: Vec<usize> = Vec::new();
    let mut done = false;
    while !done
        invariant
            cursor.wf(),
            !cursor.score_pending,
            cursor.increment == increment,
            cursor.start_frame == start_frame,
            cursor.end_frame == end_frame,
            increment >= 1,
            out@ == cursor.emitted@,
            cursor.current_frame <= available,
            forall|k: int|
                0 <= k < cursor.emitted@.len() ==> #[trigger] cursor.emitted@[k] < available,
            cursor.exhausted ==> spec_no_more_scores(
                available as int,
                start_frame as int,
                increment as int,
                end_frame,
                cursor.emitted@.len() as int,
            ),
            done ==> cursor.exhausted,
        decreases
            (if done {
                0int
            } else if cursor.exhausted {
                1int
            } else {
                2 * (available - cursor.current_frame) + 2
            }),
    {
        let ghost n = cursor.emitted@.len() as int;
        proof {
            lemma_mul_is_distributive_add_other_way(increment as int, n, 1);
        }
        match cursor.advise() {
            CursorStep::SkipPair => {
                let got = cursor.current_frame < available;
                cursor.complete_skip(got);
            },
            CursorStep::ScorePair(i) => {
                let got = cursor.current_frame < available;
                cursor.complete_score(got);
                if got {
                    out.push(i);
                }
            },
            CursorStep::Stop => {
                done = true;
            },
        }
    }
    proof {
        cursor.lemma_emitted_indices();
    }
    out
}

} // verus!
