//! Parsing of user-supplied colorimetry names and numeric codes.
//!
//! Each parser accepts the numeric code of a value and a set of
//! case-insensitive aliases, and fails with `UnrecognizedToken` on anything
//! else — never a silent default.  A numeric token too large to be a code is
//! still tried against the aliases, since several aliases are themselves
//! numbers ("709", "2020").

use crate::color::ColorPrimaries;
use crate::color::MatrixCoefficients;
use crate::color::TransferCharacteristic;
use crate::color::spec_matrix_from_code;
use crate::color::spec_primaries_from_code;
use crate::color::spec_transfer_from_code;
use crate::error::CompareError;
use crate::text::eq_lower;
use crate::text::spec_lower;
use vstd::prelude::*;

verus! {

/// An ASCII decimal digit.
pub open spec fn spec_char_digit(c: char) -> bool {
    '0' <= c && c <= '9'
}

/// The value of the digit run `s[i..j)`, most significant digit first.
pub open spec fn spec_chars_value(s: Seq<char>, i: int, j: int) -> int
    decreases j - i,
{
    if i >= j {
        0
    } else {
        spec_chars_value(s, i, j - 1) * 10 + (s[j - 1] as u32 - 48)
    }
}

/// The value of a digit run is never negative.
proof fn lemma_chars_value_nonneg(s: Seq<char>, i: int, j: int)
    requires
        0 <= i,
        j <= s.len(),
        forall|k: int| i <= k < j ==> spec_char_digit(#[trigger] s[k]),
    ensures
        spec_chars_value(s, i, j) >= 0,
    decreases j - i,
{
    if i < j {
        lemma_chars_value_nonneg(s, i, j - 1);
    }
}

/// The unsigned 8-bit number a token denotes: an optional leading plus sign,
/// then at least one digit, with a value of at most 255.
pub open spec fn spec_u8_numeral(s: Seq<char>) -> Option<u8> {
    let start: int = if s.len() > 0 && s[0] == '+' {
        1
    } else {
        0
    };
    if s.len() > start && (forall|i: int| start <= i < s.len() ==> spec_char_digit(#[trigger] s[i]))
        && spec_chars_value(s, start, s.len() as int) <= 255 {
        Some(spec_chars_value(s, start, s.len() as int) as u8)
    } else {
        None
    }
}

/// Reads a token as an unsigned 8-bit number, exactly as `spec_u8_numeral`
/// describes it.
pub fn parse_u8_numeral(s: &str) -> (r: Option<u8>)
    ensures
        r == spec_u8_numeral(s@),
{
    let n = s.unicode_len();
    let mut start: usize = 0;
    if n > 0 && s.get_char(0) == '+' {
        start = 1;
    }
    if n <= start {
        return None;
    }
    let mut value: u32 = 0;
    let mut over = false;
    let mut j: usize = start;
    while j < n
        invariant
            start <= j <= n,
            n == s@.len(),
            n > start,
            start == (if s@.len() > 0 && s@[0] == '+' {
                1int
            } else {
                0int
            }),
            forall|k: int| start <= k < j ==> spec_char_digit(#[trigger] s@[k]),
            !over ==> value == spec_chars_value(s@, start as int, j as int) && value <= 255,
            over ==> spec_chars_value(s@, start as int, j as int) > 255,
        decreases n - j,
    {
        let c = s.get_char(j);
        if !('0' <= c && c <= '9') {
            return None;
        }
        let d = (c as u32) - 48;
        proof {
            lemma_chars_value_nonneg(s@, start as int, j as int);
        }
        if !over {
            let v = value * 10 + d;
            if v > 255 {
                over = true;
            } else {
                value = v;
            }
        }
        j = j + 1;
    }
    if over {
        return None;
    }
    Some(value as u8)
}

/// The matrix coefficients a token denotes: an assigned numeric code of at
/// most 14, or one of the case-insensitive aliases; anything else is an
/// `UnrecognizedToken` error.
pub open spec fn spec_parse_matrix(s: Seq<char>) -> Result<MatrixCoefficients, CompareError> {
    let l = spec_lower(s);
    let num = spec_u8_numeral(s);
    if num is Some && num->0 <= 14 {
        Ok(spec_matrix_from_code(num->0)->0)
    } else if l == "identity"@ || l == "rgb"@ || l == "srgb"@ || l == "smpte428"@ || l == "xyz"@ {
        Ok(MatrixCoefficients::Identity)
    } else if l == "709"@ || l == "bt709"@ {
        Ok(MatrixCoefficients::BT709)
    } else if l == "unspecified"@ {
        Ok(MatrixCoefficients::Unspecified)
    } else if l == "bt470m"@ || l == "470m"@ {
        Ok(MatrixCoefficients::BT470M)
    } else if l == "bt470bg"@ || l == "470bg"@ || l == "601-625"@ || l == "bt601-625"@ || l
        == "pal"@ {
        Ok(MatrixCoefficients::BT470BG)
    } else if l == "smpte170m"@ || l == "170m"@ || l == "601-525"@ || l == "bt601-525"@ || l
        == "bt601"@ || l == "601"@ || l == "ntsc"@ {
        Ok(MatrixCoefficients::ST170M)
    } else if l == "240m"@ || l == "smpte240m"@ {
        Ok(MatrixCoefficients::ST240M)
    } else if l == "ycgco"@ {
        Ok(MatrixCoefficients::YCgCo)
    } else if l == "2020"@ || l == "2020ncl"@ || l == "2020-ncl"@ || l == "bt2020"@ || l
        == "bt2020ncl"@ || l == "bt2020-ncl"@ {
        Ok(MatrixCoefficients::BT2020NonConstantLuminance)
    } else if l == "2020cl"@ || l == "2020-cl"@ || l == "bt2020cl"@ || l == "bt2020-cl"@ {
        Ok(MatrixCoefficients::BT2020ConstantLuminance)
    } else if l == "2085"@ || l == "smpte2085"@ {
        Ok(MatrixCoefficients::ST2085)
    } else if l == "cd-ncl"@ {
        Ok(MatrixCoefficients::ChromaticityDerivedNonConstantLuminance)
    } else if l == "cd-cl"@ {
        Ok(MatrixCoefficients::ChromaticityDerivedConstantLuminance)
    } else if l == "2100"@ || l == "bt2100"@ || l == "ictcp"@ {
        Ok(MatrixCoefficients::ICtCp)
    } else {
        Err(CompareError::UnrecognizedToken)
    }
}

/// Parses a matrix-coefficients token.
pub fn parse_matrix(input: &str) -> (r: Result<MatrixCoefficients, CompareError>)
    ensures
        r == spec_parse_matrix(input@),
{
    if let Some(v) = parse_u8_numeral(input) {
        if v <= 14 {
            return Ok(MatrixCoefficients::from_code(v).unwrap());
        }
    }
    if eq_lower(input, "identity") || eq_lower(input, "rgb") || eq_lower(input, "srgb")
        || eq_lower(input, "smpte428") || eq_lower(input, "xyz") {
        Ok(MatrixCoefficients::Identity)
    } else if eq_lower(input, "709") || eq_lower(input, "bt709") {
        Ok(MatrixCoefficients::BT709)
    } else if eq_lower(input, "unspecified") {
        Ok(MatrixCoefficients::Unspecified)
    } else if eq_lower(input, "bt470m") || eq_lower(input, "470m") {
        Ok(MatrixCoefficients::BT470M)
    } else if eq_lower(input, "bt470bg") || eq_lower(input, "470bg") || eq_lower(input, "601-625")
        || eq_lower(input, "bt601-625") || eq_lower(input, "pal") {
        Ok(MatrixCoefficients::BT470BG)
    } else if eq_lower(input, "smpte170m") || eq_lower(input, "170m") || eq_lower(
        input,
        "601-525",
    ) || eq_lower(input, "bt601-525") || eq_lower(input, "bt601") || eq_lower(input, "601")
        || eq_lower(input, "ntsc") {
        Ok(MatrixCoefficients::ST170M)
    } else if eq_lower(input, "240m") || eq_lower(input, "smpte240m") {
        Ok(MatrixCoefficients::ST240M)
    } else if eq_lower(input, "ycgco") {
        Ok(MatrixCoefficients::YCgCo)
    } else if eq_lower(input, "2020") || eq_lower(input, "2020ncl") || eq_lower(input, "2020-ncl")
        || eq_lower(input, "bt2020") || eq_lower(input, "bt2020ncl") || eq_lower(
        input,
        "bt2020-ncl",
    ) {
        Ok(MatrixCoefficients::BT2020NonConstantLuminance)
    } else if eq_lower(input, "2020cl") || eq_lower(input, "2020-cl") || eq_lower(
        input,
        "bt2020cl",
    ) || eq_lower(input, "bt2020-cl") {
        Ok(MatrixCoefficients::BT2020ConstantLuminance)
    } else if eq_lower(input, "2085") || eq_lower(input, "smpte2085") {
        Ok(MatrixCoefficients::ST2085)
    } else if eq_lower(input, "cd-ncl") {
        Ok(MatrixCoefficients::ChromaticityDerivedNonConstantLuminance)
    } else if eq_lower(input, "cd-cl") {
        Ok(MatrixCoefficients::ChromaticityDerivedConstantLuminance)
    } else if eq_lower(input, "2100") || eq_lower(input, "bt2100") || eq_lower(input, "ictcp") {
        Ok(MatrixCoefficients::ICtCp)
    } else {
        Err(CompareError::UnrecognizedToken)
    }
}

/// The transfer characteristic a token denotes: an assigned numeric code of
/// at most 18, or one of the case-insensitive aliases; anything else is an
/// `UnrecognizedToken` error.
pub open spec fn spec_parse_transfer(s: Seq<char>) -> Result<TransferCharacteristic, CompareError> {
    let l = spec_lower(s);
    let num = spec_u8_numeral(s);
    if num is Some && num->0 <= 18 {
        Ok(spec_transfer_from_code(num->0)->0)
    } else if l == "709"@ || l == "bt709"@ || l == "1886"@ || l == "bt1886"@ || l == "1361"@ || l
        == "bt1361"@ {
        Ok(TransferCharacteristic::BT1886)
    } else if l == "unspecified"@ {
        Ok(TransferCharacteristic::Unspecified)
    } else if l == "470m"@ || l == "bt470m"@ || l == "pal"@ {
        Ok(TransferCharacteristic::BT470M)
    } else if l == "470bg"@ || l == "bt470bg"@ {
        Ok(TransferCharacteristic::BT470BG)
    } else if l == "601"@ || l == "bt601"@ || l == "ntsc"@ || l == "smpte170m"@ || l == "170m"@
        || l == "1358"@ || l == "bt1358"@ || l == "1700"@ || l == "bt1700"@ {
        Ok(TransferCharacteristic::ST170M)
    } else if l == "240m"@ || l == "smpte240m"@ {
        Ok(TransferCharacteristic::ST240M)
    } else if l == "linear"@ {
        Ok(TransferCharacteristic::Linear)
    } else if l == "log100"@ {
        Ok(TransferCharacteristic::Logarithmic100)
    } else if l == "log316"@ {
        Ok(TransferCharacteristic::Logarithmic316)
    } else if l == "xvycc"@ {
        Ok(TransferCharacteristic::XVYCC)
    } else if l == "1361e"@ || l == "bt1361e"@ {
        Ok(TransferCharacteristic::BT1361E)
    } else if l == "srgb"@ {
        Ok(TransferCharacteristic::SRGB)
    } else if l == "2020"@ || l == "bt2020"@ || l == "2020-10"@ || l == "bt2020-10"@ {
        Ok(TransferCharacteristic::BT2020Ten)
    } else if l == "2020-12"@ || l == "bt2020-12"@ {
        Ok(TransferCharacteristic::BT2020Twelve)
    } else if l == "pq"@ || l == "2084"@ || l == "smpte2084"@ || l == "2100"@ || l == "bt2100"@ {
        Ok(TransferCharacteristic::PerceptualQuantizer)
    } else if l == "428"@ || l == "smpte428"@ {
        Ok(TransferCharacteristic::ST428)
    } else if l == "hlg"@ || l == "b67"@ || l == "arib-b67"@ {
        Ok(TransferCharacteristic::HybridLogGamma)
    } else {
        Err(CompareError::UnrecognizedToken)
    }
}

/// Parses a transfer-characteristic token.
pub fn parse_transfer(input: &str) -> (r: Result<TransferCharacteristic, CompareError>)
    ensures
        r == spec_parse_transfer(input@),
{
    if let Some(v) = parse_u8_numeral(input) {
        if v <= 18 {
            return Ok(TransferCharacteristic::from_code(v).unwrap());
        }
    }
    if eq_lower(input, "709") || eq_lower(input, "bt709") || eq_lower(input, "1886") || eq_lower(
        input,
        "bt1886",
    ) || eq_lower(input, "1361") || eq_lower(input, "bt1361") {
        Ok(TransferCharacteristic::BT1886)
    } else if eq_lower(input, "unspecified") {
        Ok(TransferCharacteristic::Unspecified)
    } else if eq_lower(input, "470m") || eq_lower(input, "bt470m") || eq_lower(input, "pal") {
        Ok(TransferCharacteristic::BT470M)
    } else if eq_lower(input, "470bg") || eq_lower(input, "bt470bg") {
        Ok(TransferCharacteristic::BT470BG)
    } else if eq_lower(input, "601") || eq_lower(input, "bt601") || eq_lower(input, "ntsc")
        || eq_lower(input, "smpte170m") || eq_lower(input, "170m") || eq_lower(input, "1358")
        || eq_lower(input, "bt1358") || eq_lower(input, "1700") || eq_lower(input, "bt1700") {
        Ok(TransferCharacteristic::ST170M)
    } else if eq_lower(input, "240m") || eq_lower(input, "smpte240m") {
        Ok(TransferCharacteristic::ST240M)
    } else if eq_lower(input, "linear") {
        Ok(TransferCharacteristic::Linear)
    } else if eq_lower(input, "log100") {
        Ok(TransferCharacteristic::Logarithmic100)
    } else if eq_lower(input, "log316") {
        Ok(TransferCharacteristic::Logarithmic316)
    } else if eq_lower(input, "xvycc") {
        Ok(TransferCharacteristic::XVYCC)
    } else if eq_lower(input, "1361e") || eq_lower(input, "bt1361e") {
        Ok(TransferCharacteristic::BT1361E)
    } else if eq_lower(input, "srgb") {
        Ok(TransferCharacteristic::SRGB)
    } else if eq_lower(input, "2020") || eq_lower(input, "bt2020") || eq_lower(input, "2020-10")
        || eq_lower(input, "bt2020-10") {
        Ok(TransferCharacteristic::BT2020Ten)
    } else if eq_lower(input, "2020-12") || eq_lower(input, "bt2020-12") {
        Ok(TransferCharacteristic::BT2020Twelve)
    } else if eq_lower(input, "pq") || eq_lower(input, "2084") || eq_lower(input, "smpte2084")
        || eq_lower(input, "2100") || eq_lower(input, "bt2100") {
        Ok(TransferCharacteristic::PerceptualQuantizer)
    } else if eq_lower(input, "428") || eq_lower(input, "smpte428") {
        Ok(TransferCharacteristic::ST428)
    } else if eq_lower(input, "hlg") || eq_lower(input, "b67") || eq_lower(input, "arib-b67") {
        Ok(TransferCharacteristic::HybridLogGamma)
    } else {
        Err(CompareError::UnrecognizedToken)
    }
}

/// The color primaries a token denotes: an assigned numeric code of at most
/// 22, or one of the case-insensitive aliases.  A numeric code of at most 22
/// that is unassigned (13 through 21) is an `UnrecognizedToken` error, as is
/// anything that matches no alias.
pub open spec fn spec_parse_primaries(s: Seq<char>) -> Result<ColorPrimaries, CompareError> {
    let l = spec_lower(s);
    let num = spec_u8_numeral(s);
    if num is Some && num->0 <= 22 {
        match spec_primaries_from_code(num->0) {
            Some(p) => Ok(p),
            None => Err(CompareError::UnrecognizedToken),
        }
    } else if l == "709"@ || l == "bt709"@ || l == "1361"@ || l == "bt1361"@ || l == "srgb"@ {
        Ok(ColorPrimaries::BT709)
    } else if l == "unspecified"@ {
        Ok(ColorPrimaries::Unspecified)
    } else if l == "470m"@ || l == "bt470m"@ {
        Ok(ColorPrimaries::BT470M)
    } else if l == "470bg"@ || l == "bt470bg"@ || l == "601-625"@ || l == "bt601-625"@ || l
        == "pal"@ {
        Ok(ColorPrimaries::BT470BG)
    } else if l == "smpte170m"@ || l == "170m"@ || l == "601-525"@ || l == "bt601-525"@ || l
        == "bt601"@ || l == "601"@ || l == "ntsc"@ {
        Ok(ColorPrimaries::ST170M)
    } else if l == "240m"@ || l == "smpte240m"@ {
        Ok(ColorPrimaries::ST240M)
    } else if l == "film"@ || l == "c"@ {
        Ok(ColorPrimaries::Film)
    } else if l == "2020"@ || l == "bt2020"@ || l == "2100"@ || l == "bt2100"@ {
        Ok(ColorPrimaries::BT2020)
    } else if l == "428"@ || l == "smpte428"@ || l == "xyz"@ {
        Ok(ColorPrimaries::ST428)
    } else if l == "p3"@ || l == "p3dci"@ || l == "p3-dci"@ || l == "431"@ || l == "smpte431"@ {
        Ok(ColorPrimaries::P3DCI)
    } else if l == "p3display"@ || l == "p3-display"@ || l == "432"@ || l == "smpte432"@ {
        Ok(ColorPrimaries::P3Display)
    } else if l == "3213"@ || l == "tech3213"@ {
        Ok(ColorPrimaries::Tech3213)
    } else {
        Err(CompareError::UnrecognizedToken)
    }
}

/// Parses a color-primaries token.
pub fn parse_primaries(input: &str) -> (r: Result<ColorPrimaries, CompareError>)
    ensures
        r == spec_parse_primaries(input@),
{
    if let Some(v) = parse_u8_numeral(input) {
        if v <= 22 {
            return match ColorPrimaries::from_code(v) {
                Some(p) => Ok(p),
                None => Err(CompareError::UnrecognizedToken),
            };
        }
    }
    if eq_lower(input, "709") || eq_lower(input, "bt709") || eq_lower(input, "1361") || eq_lower(
        input,
        "bt1361",
    ) || eq_lower(input, "srgb") {
        Ok(ColorPrimaries::BT709)
    } else if eq_lower(input, "unspecified") {
        Ok(ColorPrimaries::Unspecified)
    } else if eq_lower(input, "470m") || eq_lower(input, "bt470m") {
        Ok(ColorPrimaries::BT470M)
    } else if eq_lower(input, "470bg") || eq_lower(input, "bt470bg") || eq_lower(input, "601-625")
        || eq_lower(input, "bt601-625") || eq_lower(input, "pal") {
        Ok(ColorPrimaries::BT470BG)
    } else if eq_lower(input, "smpte170m") || eq_lower(input, "170m") || eq_lower(
        input,
        "601-525",
    ) || eq_lower(input, "bt601-525") || eq_lower(input, "bt601") || eq_lower(input, "601")
        || eq_lower(input, "ntsc") {
        Ok(ColorPrimaries::ST170M)
    } else if eq_lower(input, "240m") || eq_lower(input, "smpte240m") {
        Ok(ColorPrimaries::ST240M)
    } else if eq_lower(input, "film") || eq_lower(input, "c") {
        Ok(ColorPrimaries::Film)
    } else if eq_lower(input, "2020") || eq_lower(input, "bt2020") || eq_lower(input, "2100")
        || eq_lower(input, "bt2100") {
        Ok(ColorPrimaries::BT2020)
    } else if eq_lower(input, "428") || eq_lower(input, "smpte428") || eq_lower(input, "xyz") {
        Ok(ColorPrimaries::ST428)
    } else if eq_lower(input, "p3") || eq_lower(input, "p3dci") || eq_lower(input, "p3-dci")
        || eq_lower(input, "431") || eq_lower(input, "smpte431") {
        Ok(ColorPrimaries::P3DCI)
    } else if eq_lower(input, "p3display") || eq_lower(input, "p3-display") || eq_lower(
        input,
        "432",
    ) || eq_lower(input, "smpte432") {
        Ok(ColorPrimaries::P3Display)
    } else if eq_lower(input, "3213") || eq_lower(input, "tech3213") {
        Ok(ColorPrimaries::Tech3213)
    } else {
        Err(CompareError::UnrecognizedToken)
    }
}

} // verus!
