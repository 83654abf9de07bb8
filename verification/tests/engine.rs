use ssimulacra2_rs::cursor::CursorStep;
use ssimulacra2_rs::cursor::FramePairCursor;
use ssimulacra2_rs::decoder::ColorFamily;
use ssimulacra2_rs::decoder::Resolution;
use ssimulacra2_rs::decoder::SampleType;
use ssimulacra2_rs::decoder::VapoursynthDecoder;
use ssimulacra2_rs::decoder::VideoFormat;
use ssimulacra2_rs::engine::effective_stream_limit;
use ssimulacra2_rs::engine::frame_counts_mismatch;
use ssimulacra2_rs::engine::is_piped_input;
use ssimulacra2_rs::engine::is_script_input;
use ssimulacra2_rs::engine::planned_frame_indices;
use ssimulacra2_rs::engine::progress_total;
use ssimulacra2_rs::engine::scoring_end_bound;
use ssimulacra2_rs::engine::validate_comparison;
use ssimulacra2_rs::error::CompareError;

/// Drives the cursor exactly as a single worker would, answering every read
/// from a pair of model decoders, and returns the scored indices.
fn run_cursor(source_frames: usize, distorted_frames: usize, cursor: &mut FramePairCursor) -> Vec<usize> {
    let mut source = VapoursynthDecoder::new(None, None, source_frames);
    let mut distorted = VapoursynthDecoder::new(None, None, distorted_frames);
    let mut scored = Vec::new();
    loop {
        match cursor.advise() {
            CursorStep::SkipPair => {
                let got = source.advance_frame() && distorted.advance_frame();
                cursor.complete_skip(got);
            }
            CursorStep::ScorePair(idx) => {
                let got = source.advance_frame() && distorted.advance_frame();
                cursor.complete_score(got);
                if got {
                    scored.push(idx);
                }
            }
            CursorStep::Stop => break,
        }
    }
    scored
}

#[test]
fn ten_frames_increment_one_scores_every_frame() {
    // Two 10-frame streams, increment 1, no window: indices 0..9.
    let mut cursor = FramePairCursor::new(0, 1, None);
    let scored = run_cursor(10, 10, &mut cursor);
    assert_eq!(scored, (0..10).collect::<Vec<usize>>());
    assert_eq!(planned_frame_indices(10, 0, 1, None), (0..10).collect::<Vec<usize>>());
}

#[test]
fn hundred_frames_increment_ten_scores_every_tenth() {
    // Two 100-frame streams, increment 10: indices 0, 10, ..., 90.
    let expected: Vec<usize> = (0..10).map(|k| 10 * k).collect();
    let mut cursor = FramePairCursor::new(0, 10, None);
    assert_eq!(run_cursor(100, 100, &mut cursor), expected);
    assert_eq!(planned_frame_indices(100, 0, 10, None), expected);
}

#[test]
fn windowed_run_scores_only_inside_the_window() {
    // start_frame 5, frames_to_compare 3, increment 2: indices 5, 7, 9.
    let end = scoring_end_bound(5, Some(3), 2).unwrap();
    assert_eq!(end, Some(11));
    let mut cursor = FramePairCursor::new(5, 2, end);
    assert_eq!(run_cursor(100, 100, &mut cursor), vec![5, 7, 9]);
    assert_eq!(planned_frame_indices(100, 5, 2, end), vec![5, 7, 9]);
}

#[test]
fn mismatched_frame_counts_warn_and_stop_at_the_shorter_stream() {
    // Source reports 50 frames, distorted 48: a warning, then 48 records.
    assert!(frame_counts_mismatch(Some(50), Some(48)));
    assert_eq!(effective_stream_limit(Some(50), Some(48)), Some(48));
    let mut cursor = FramePairCursor::new(0, 1, None);
    let scored = run_cursor(50, 48, &mut cursor);
    assert_eq!(scored.len(), 48);
    assert_eq!(scored, (0..48).collect::<Vec<usize>>());
    assert_eq!(planned_frame_indices(48, 0, 1, None).len(), 48);
}

#[test]
fn no_mismatch_when_a_count_is_unknown() {
    assert!(!frame_counts_mismatch(None, Some(48)));
    assert!(!frame_counts_mismatch(Some(50), None));
    assert!(!frame_counts_mismatch(Some(50), Some(50)));
    assert_eq!(effective_stream_limit(None, Some(48)), Some(48));
    assert_eq!(effective_stream_limit(None, None), None);
}

#[test]
fn emitted_indices_are_unique_and_evenly_spaced() {
    let scored = planned_frame_indices(50, 3, 7, None);
    for (k, idx) in scored.iter().enumerate() {
        assert_eq!(*idx, 3 + 7 * k);
    }
    for w in scored.windows(2) {
        assert!(w[0] < w[1]);
    }
    // The next index would be out of the stream.
    assert_eq!(scored.len(), 7);
}

#[test]
fn start_frame_beyond_stream_scores_nothing() {
    assert_eq!(planned_frame_indices(10, 10, 1, None), Vec::<usize>::new());
    assert_eq!(planned_frame_indices(10, 12, 1, None), Vec::<usize>::new());
    assert_eq!(planned_frame_indices(0, 0, 1, None), Vec::<usize>::new());
}

#[test]
fn zero_window_scores_nothing() {
    let end = scoring_end_bound(4, Some(0), 3).unwrap();
    assert_eq!(end, Some(4));
    assert_eq!(planned_frame_indices(100, 4, 3, end), Vec::<usize>::new());
}

#[test]
fn end_bound_overflow_is_a_configuration_error() {
    assert_eq!(
        scoring_end_bound(1, Some(usize::MAX), 2),
        Err(CompareError::Configuration)
    );
    assert_eq!(
        scoring_end_bound(usize::MAX, Some(1), 1),
        Err(CompareError::Configuration)
    );
    assert_eq!(scoring_end_bound(7, None, 3), Ok(None));
}

#[test]
fn both_piped_inputs_are_refused() {
    assert_eq!(
        validate_comparison(true, true, None, Some(5), Some(5)),
        Err(CompareError::Configuration)
    );
    assert!(validate_comparison(true, false, None, Some(5), Some(5)).is_ok());
    assert!(validate_comparison(false, true, None, None, Some(5)).is_ok());
}

#[test]
fn start_frame_needs_a_frame_count() {
    assert_eq!(
        validate_comparison(false, false, Some(3), None, None),
        Err(CompareError::Configuration)
    );
    assert!(validate_comparison(false, false, Some(3), Some(10), None).is_ok());
    assert!(validate_comparison(false, false, None, None, None).is_ok());
}

#[test]
fn piped_input_names() {
    assert!(is_piped_input("-"));
    assert!(is_piped_input("/dev/stdin"));
    assert!(!is_piped_input("video.y4m"));
    assert!(!is_piped_input(""));
}

#[test]
fn script_input_names() {
    assert!(is_script_input("clip.vpy"));
    assert!(is_script_input("CLIP.VPY"));
    assert!(is_script_input("a/b/clip.test.vpy"));
    assert!(!is_script_input("clip.y4m"));
    assert!(!is_script_input(".vpy"));
    assert!(!is_script_input("a/.vpy"));
    assert!(!is_script_input("clipvpy"));
}

#[test]
fn progress_total_caps_by_stream_length() {
    // 100 frames, increment 10: at most 10 comparisons.
    assert_eq!(progress_total(100, 0, None, 10), 10);
    assert_eq!(progress_total(100, 0, Some(3), 10), 3);
    assert_eq!(progress_total(100, 0, Some(50), 10), 10);
    // Everything from the start frame when nothing was requested.
    assert_eq!(progress_total(100, 40, None, 1), 60);
    // Integer ceiling: 101 frames at increment 10 allow 11 comparisons.
    assert_eq!(progress_total(101, 0, None, 10), 11);
    assert_eq!(progress_total(0, 0, None, 1), 0);
}

#[test]
fn decoder_model_reports_probed_metadata() {
    let res = Resolution { width: 1280, height: 720 };
    let fmt = VideoFormat {
        bytes_per_sample: 1,
        bits_per_sample: 8,
        sample_type: SampleType::Integer,
        color_family: ColorFamily::YUV,
        sub_sampling_w: 1,
        sub_sampling_h: 1,
    };
    let d = VapoursynthDecoder::new(Some(res), Some(fmt), 24);
    assert_eq!(d.get_resolution(), Ok(res));
    assert_eq!(d.get_format(), Ok(fmt));
    assert_eq!(d.get_frame_count(), 24);
    let details = d.video_details().unwrap();
    assert_eq!(details.width, 1280);
    assert_eq!(details.height, 720);
    assert_eq!(details.bit_depth, 8);
    assert_eq!(
        details.chroma_sampling,
        ssimulacra2_rs::color::ChromaSampling::Cs420
    );
}

#[test]
fn decoder_model_refuses_variable_streams() {
    let d = VapoursynthDecoder::new(None, None, 10);
    assert_eq!(d.get_resolution(), Err(CompareError::UnsupportedStream));
    assert_eq!(d.get_format(), Err(CompareError::UnsupportedStream));
    assert_eq!(d.video_details(), Err(CompareError::UnsupportedStream));
}

#[test]
fn decoder_model_refuses_float_samples() {
    let res = Resolution { width: 64, height: 64 };
    let fmt = VideoFormat {
        bytes_per_sample: 4,
        bits_per_sample: 32,
        sample_type: SampleType::Float,
        color_family: ColorFamily::YUV,
        sub_sampling_w: 0,
        sub_sampling_h: 0,
    };
    let d = VapoursynthDecoder::new(Some(res), Some(fmt), 10);
    assert_eq!(d.video_details(), Err(CompareError::UnsupportedStream));
}

#[test]
fn decoder_model_exhausts_after_its_frames() {
    let mut d = VapoursynthDecoder::new(None, None, 2);
    assert!(d.advance_frame());
    assert!(d.advance_frame());
    assert!(!d.advance_frame());
    assert!(!d.advance_frame());
    assert_eq!(d.cur_frame, 2);
}

#[test]
fn gray_formats_map_to_monochrome() {
    let fmt = VideoFormat {
        bytes_per_sample: 1,
        bits_per_sample: 8,
        sample_type: SampleType::Integer,
        color_family: ColorFamily::Gray,
        sub_sampling_w: 0,
        sub_sampling_h: 0,
    };
    assert_eq!(
        ssimulacra2_rs::decoder::chroma_sampling_of(&fmt),
        ssimulacra2_rs::color::ChromaSampling::Cs400
    );
    let mut f422 = fmt;
    f422.color_family = ColorFamily::YUV;
    f422.sub_sampling_w = 1;
    assert_eq!(
        ssimulacra2_rs::decoder::chroma_sampling_of(&f422),
        ssimulacra2_rs::color::ChromaSampling::Cs422
    );
}
