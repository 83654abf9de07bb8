use ssimulacra2_rs::color::ColorPrimaries;
use ssimulacra2_rs::color::MatrixCoefficients;
use ssimulacra2_rs::color::TransferCharacteristic;
use ssimulacra2_rs::error::CompareError;
use ssimulacra2_rs::parse::parse_matrix;
use ssimulacra2_rs::parse::parse_primaries;
use ssimulacra2_rs::parse::parse_transfer;
use ssimulacra2_rs::parse::parse_u8_numeral;

#[test]
fn numeral_accepts_plain_and_signed_digits() {
    assert_eq!(parse_u8_numeral("0"), Some(0));
    assert_eq!(parse_u8_numeral("9"), Some(9));
    assert_eq!(parse_u8_numeral("255"), Some(255));
    assert_eq!(parse_u8_numeral("+7"), Some(7));
    assert_eq!(parse_u8_numeral("007"), Some(7));
}

#[test]
fn numeral_rejects_overflow_and_junk() {
    assert_eq!(parse_u8_numeral("256"), None);
    assert_eq!(parse_u8_numeral("709"), None);
    assert_eq!(parse_u8_numeral(""), None);
    assert_eq!(parse_u8_numeral("+"), None);
    assert_eq!(parse_u8_numeral("12a"), None);
    assert_eq!(parse_u8_numeral("-3"), None);
    assert_eq!(parse_u8_numeral("++1"), None);
}

#[test]
fn matrix_numeric_codes() {
    assert_eq!(parse_matrix("0"), Ok(MatrixCoefficients::Identity));
    assert_eq!(parse_matrix("1"), Ok(MatrixCoefficients::BT709));
    assert_eq!(
        parse_matrix("9"),
        Ok(MatrixCoefficients::BT2020NonConstantLuminance)
    );
    assert_eq!(parse_matrix("14"), Ok(MatrixCoefficients::ICtCp));
    assert_eq!(parse_matrix("+3"), Ok(MatrixCoefficients::Reserved));
    assert_eq!(parse_matrix("007"), Ok(MatrixCoefficients::ST240M));
}

#[test]
fn matrix_aliases() {
    assert_eq!(parse_matrix("bt709"), Ok(MatrixCoefficients::BT709));
    assert_eq!(parse_matrix("709"), Ok(MatrixCoefficients::BT709));
    assert_eq!(parse_matrix("PAL"), Ok(MatrixCoefficients::BT470BG));
    assert_eq!(parse_matrix("ntsc"), Ok(MatrixCoefficients::ST170M));
    assert_eq!(parse_matrix("rgb"), Ok(MatrixCoefficients::Identity));
    assert_eq!(
        parse_matrix("2020"),
        Ok(MatrixCoefficients::BT2020NonConstantLuminance)
    );
    assert_eq!(
        parse_matrix("BT2020-CL"),
        Ok(MatrixCoefficients::BT2020ConstantLuminance)
    );
    assert_eq!(parse_matrix("ictcp"), Ok(MatrixCoefficients::ICtCp));
    assert_eq!(parse_matrix("cd-ncl"), Ok(MatrixCoefficients::ChromaticityDerivedNonConstantLuminance));
}

#[test]
fn matrix_unrecognized_tokens_fail() {
    assert_eq!(parse_matrix("nonsense"), Err(CompareError::UnrecognizedToken));
    // A number that is no assigned code and no alias is refused, never
    // silently defaulted.
    assert_eq!(parse_matrix("15"), Err(CompareError::UnrecognizedToken));
    assert_eq!(parse_matrix("240"), Err(CompareError::UnrecognizedToken));
    assert_eq!(parse_matrix(""), Err(CompareError::UnrecognizedToken));
}

#[test]
fn transfer_numeric_codes() {
    assert_eq!(parse_transfer("1"), Ok(TransferCharacteristic::BT1886));
    assert_eq!(parse_transfer("13"), Ok(TransferCharacteristic::SRGB));
    assert_eq!(
        parse_transfer("16"),
        Ok(TransferCharacteristic::PerceptualQuantizer)
    );
    assert_eq!(
        parse_transfer("18"),
        Ok(TransferCharacteristic::HybridLogGamma)
    );
}

#[test]
fn transfer_aliases() {
    assert_eq!(parse_transfer("bt1886"), Ok(TransferCharacteristic::BT1886));
    assert_eq!(parse_transfer("709"), Ok(TransferCharacteristic::BT1886));
    assert_eq!(parse_transfer("srgb"), Ok(TransferCharacteristic::SRGB));
    assert_eq!(
        parse_transfer("PQ"),
        Ok(TransferCharacteristic::PerceptualQuantizer)
    );
    assert_eq!(
        parse_transfer("2084"),
        Ok(TransferCharacteristic::PerceptualQuantizer)
    );
    assert_eq!(parse_transfer("hlg"), Ok(TransferCharacteristic::HybridLogGamma));
    assert_eq!(
        parse_transfer("arib-b67"),
        Ok(TransferCharacteristic::HybridLogGamma)
    );
    assert_eq!(parse_transfer("linear"), Ok(TransferCharacteristic::Linear));
    assert_eq!(parse_transfer("2020-12"), Ok(TransferCharacteristic::BT2020Twelve));
    assert_eq!(parse_transfer("pal"), Ok(TransferCharacteristic::BT470M));
}

#[test]
fn transfer_unrecognized_tokens_fail() {
    assert_eq!(parse_transfer("19"), Err(CompareError::UnrecognizedToken));
    assert_eq!(parse_transfer("gamma"), Err(CompareError::UnrecognizedToken));
}

#[test]
fn primaries_numeric_codes() {
    assert_eq!(parse_primaries("1"), Ok(ColorPrimaries::BT709));
    assert_eq!(parse_primaries("9"), Ok(ColorPrimaries::BT2020));
    assert_eq!(parse_primaries("22"), Ok(ColorPrimaries::Tech3213));
}

#[test]
fn primaries_unassigned_codes_fail() {
    // 13 through 21 are unassigned codes below the largest one.
    for t in ["13", "14", "17", "21"] {
        assert_eq!(parse_primaries(t), Err(CompareError::UnrecognizedToken));
    }
}

#[test]
fn primaries_aliases() {
    assert_eq!(parse_primaries("bt709"), Ok(ColorPrimaries::BT709));
    assert_eq!(parse_primaries("srgb"), Ok(ColorPrimaries::BT709));
    assert_eq!(parse_primaries("NTSC"), Ok(ColorPrimaries::ST170M));
    assert_eq!(parse_primaries("pal"), Ok(ColorPrimaries::BT470BG));
    assert_eq!(parse_primaries("xyz"), Ok(ColorPrimaries::ST428));
    assert_eq!(parse_primaries("p3"), Ok(ColorPrimaries::P3DCI));
    assert_eq!(parse_primaries("P3-Display"), Ok(ColorPrimaries::P3Display));
    assert_eq!(parse_primaries("2100"), Ok(ColorPrimaries::BT2020));
    assert_eq!(parse_primaries("film"), Ok(ColorPrimaries::Film));
    assert_eq!(parse_primaries("tech3213"), Ok(ColorPrimaries::Tech3213));
}

#[test]
fn primaries_unrecognized_tokens_fail() {
    assert_eq!(parse_primaries("widegamut"), Err(CompareError::UnrecognizedToken));
    assert_eq!(parse_primaries("23"), Err(CompareError::UnrecognizedToken));
}

#[test]
fn error_messages_name_each_kind() {
    assert_eq!(
        CompareError::DecoderInit.message(),
        "failed to open or probe a stream"
    );
    assert_eq!(
        CompareError::UnsupportedStream.message(),
        "unsupported stream properties"
    );
    assert_eq!(CompareError::FrameRead.message(), "failed to decode a frame");
    assert_eq!(
        CompareError::MetricComputation.message(),
        "failed to compute the metric"
    );
    assert_eq!(
        CompareError::UnrecognizedToken.message(),
        "unrecognized colorimetry token"
    );
    assert_eq!(CompareError::Configuration.message(), "invalid configuration");
}
