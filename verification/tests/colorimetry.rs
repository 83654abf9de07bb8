use ssimulacra2_rs::color::ChromaSampling;
use ssimulacra2_rs::color::ColorPrimaries;
use ssimulacra2_rs::color::MatrixCoefficients;
use ssimulacra2_rs::color::TransferCharacteristic;
use ssimulacra2_rs::color::VideoDetails;
use ssimulacra2_rs::color::guess_color_primaries;
use ssimulacra2_rs::color::guess_matrix_coefficients;
use ssimulacra2_rs::color::resolve_color_config;

#[test]
fn matrix_guess_sd_ntsc_like() {
    assert_eq!(guess_matrix_coefficients(720, 480), MatrixCoefficients::ST170M);
    assert_eq!(guess_matrix_coefficients(640, 480), MatrixCoefficients::ST170M);
    assert_eq!(guess_matrix_coefficients(720, 488), MatrixCoefficients::ST170M);
    assert_eq!(guess_matrix_coefficients(1279, 575), MatrixCoefficients::ST170M);
}

#[test]
fn matrix_guess_pal() {
    assert_eq!(guess_matrix_coefficients(720, 576), MatrixCoefficients::BT470BG);
    assert_eq!(guess_matrix_coefficients(704, 576), MatrixCoefficients::BT470BG);
    assert_eq!(guess_matrix_coefficients(1279, 576), MatrixCoefficients::BT470BG);
}

#[test]
fn matrix_guess_hd() {
    assert_eq!(guess_matrix_coefficients(1280, 480), MatrixCoefficients::BT709);
    assert_eq!(guess_matrix_coefficients(1280, 576), MatrixCoefficients::BT709);
    assert_eq!(guess_matrix_coefficients(1920, 1080), MatrixCoefficients::BT709);
    assert_eq!(guess_matrix_coefficients(720, 577), MatrixCoefficients::BT709);
    assert_eq!(guess_matrix_coefficients(3840, 2160), MatrixCoefficients::BT709);
}

#[test]
fn primaries_guess_bt2020_family_wins_at_any_resolution() {
    for (w, h) in [(100usize, 100usize), (720, 480), (720, 576), (1920, 1080), (3840, 2160)] {
        assert_eq!(
            guess_color_primaries(MatrixCoefficients::BT2020NonConstantLuminance, w, h),
            ColorPrimaries::BT2020
        );
        assert_eq!(
            guess_color_primaries(MatrixCoefficients::BT2020ConstantLuminance, w, h),
            ColorPrimaries::BT2020
        );
    }
}

#[test]
fn primaries_guess_by_matrix_and_resolution() {
    assert_eq!(
        guess_color_primaries(MatrixCoefficients::BT709, 720, 480),
        ColorPrimaries::BT709
    );
    assert_eq!(
        guess_color_primaries(MatrixCoefficients::ST170M, 1280, 480),
        ColorPrimaries::BT709
    );
    assert_eq!(
        guess_color_primaries(MatrixCoefficients::ST170M, 720, 577),
        ColorPrimaries::BT709
    );
    assert_eq!(
        guess_color_primaries(MatrixCoefficients::ST170M, 720, 576),
        ColorPrimaries::BT470BG
    );
    assert_eq!(
        guess_color_primaries(MatrixCoefficients::ST170M, 720, 480),
        ColorPrimaries::ST170M
    );
    assert_eq!(
        guess_color_primaries(MatrixCoefficients::ST170M, 720, 488),
        ColorPrimaries::ST170M
    );
    // No rule matches: fall back to BT.709.
    assert_eq!(
        guess_color_primaries(MatrixCoefficients::ST170M, 720, 500),
        ColorPrimaries::BT709
    );
}

#[test]
fn resolve_fills_unspecified_values_from_resolution() {
    let details = VideoDetails {
        width: 720,
        height: 576,
        bit_depth: 8,
        chroma_sampling: ChromaSampling::Cs420,
    };
    let cfg = resolve_color_config(
        MatrixCoefficients::Unspecified,
        TransferCharacteristic::Unspecified,
        ColorPrimaries::Unspecified,
        false,
        &details,
    );
    assert_eq!(cfg.matrix_coefficients, MatrixCoefficients::BT470BG);
    assert_eq!(cfg.transfer_characteristics, TransferCharacteristic::BT1886);
    assert_eq!(cfg.color_primaries, ColorPrimaries::BT470BG);
    assert_eq!(cfg.bit_depth, 8);
    assert_eq!(cfg.subsampling_x, 1);
    assert_eq!(cfg.subsampling_y, 1);
    assert!(!cfg.full_range);
}

#[test]
fn resolve_keeps_specified_values() {
    let details = VideoDetails {
        width: 1920,
        height: 1080,
        bit_depth: 10,
        chroma_sampling: ChromaSampling::Cs444,
    };
    let cfg = resolve_color_config(
        MatrixCoefficients::BT2020NonConstantLuminance,
        TransferCharacteristic::PerceptualQuantizer,
        ColorPrimaries::BT2020,
        true,
        &details,
    );
    assert_eq!(
        cfg.matrix_coefficients,
        MatrixCoefficients::BT2020NonConstantLuminance
    );
    assert_eq!(
        cfg.transfer_characteristics,
        TransferCharacteristic::PerceptualQuantizer
    );
    assert_eq!(cfg.color_primaries, ColorPrimaries::BT2020);
    assert_eq!(cfg.bit_depth, 10);
    assert_eq!(cfg.subsampling_x, 0);
    assert_eq!(cfg.subsampling_y, 0);
    assert!(cfg.full_range);
}

#[test]
fn resolve_primaries_follow_resolved_matrix() {
    // The matrix is inferred first; unspecified primaries then follow the
    // resolved matrix, not the given one.
    let details = VideoDetails {
        width: 3840,
        height: 2160,
        bit_depth: 10,
        chroma_sampling: ChromaSampling::Cs420,
    };
    let cfg = resolve_color_config(
        MatrixCoefficients::BT2020NonConstantLuminance,
        TransferCharacteristic::Unspecified,
        ColorPrimaries::Unspecified,
        false,
        &details,
    );
    assert_eq!(cfg.color_primaries, ColorPrimaries::BT2020);
}

#[test]
fn resolve_monochrome_has_no_subsampling() {
    let details = VideoDetails {
        width: 640,
        height: 480,
        bit_depth: 8,
        chroma_sampling: ChromaSampling::Cs400,
    };
    let cfg = resolve_color_config(
        MatrixCoefficients::BT709,
        TransferCharacteristic::BT1886,
        ColorPrimaries::BT709,
        false,
        &details,
    );
    assert_eq!((cfg.subsampling_x, cfg.subsampling_y), (0, 0));
}

#[test]
fn chroma_decimation_values() {
    assert_eq!(ChromaSampling::Cs420.decimation(), Some((1, 1)));
    assert_eq!(ChromaSampling::Cs422.decimation(), Some((1, 0)));
    assert_eq!(ChromaSampling::Cs444.decimation(), Some((0, 0)));
    assert_eq!(ChromaSampling::Cs400.decimation(), None);
}

#[test]
fn numeric_codes_round_trip() {
    for c in 0u8..=14 {
        let m = MatrixCoefficients::from_code(c).unwrap();
        assert_eq!(m.code(), c);
    }
    assert_eq!(MatrixCoefficients::from_code(15), None);
    for c in 0u8..=18 {
        let t = TransferCharacteristic::from_code(c).unwrap();
        assert_eq!(t.code(), c);
    }
    assert_eq!(TransferCharacteristic::from_code(19), None);
    for c in 0u8..=12 {
        let p = ColorPrimaries::from_code(c).unwrap();
        assert_eq!(p.code(), c);
    }
    for c in 13u8..=21 {
        assert_eq!(ColorPrimaries::from_code(c), None);
    }
    assert_eq!(ColorPrimaries::from_code(22), Some(ColorPrimaries::Tech3213));
}
