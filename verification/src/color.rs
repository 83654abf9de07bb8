//! Colorimetry types and the resolution-based inference heuristics.
//!
//! A stream may leave its matrix coefficients, transfer characteristic or
//! color primaries unspecified; the resolver fills them in from the stream's
//! resolution before any scoring begins.  The numeric codes follow the
//! ISO/IEC 23091-4 assignments.

use vstd::prelude::*;

verus! {

/// Matrix coefficients of a YUV stream.
#[derive(Clone, Copy, Debug, PartialEq, Eq, Structural)]
pub enum MatrixCoefficients {
    Identity,
    BT709,
    Unspecified,
    Reserved,
    BT470M,
    BT470BG,
    ST170M,
    ST240M,
    YCgCo,
    BT2020NonConstantLuminance,
    BT2020ConstantLuminance,
    ST2085,
    ChromaticityDerivedNonConstantLuminance,
    ChromaticityDerivedConstantLuminance,
    ICtCp,
}

/// Transfer characteristic of a stream.
#[derive(Clone, Copy, Debug, PartialEq, Eq, Structural)]
pub enum TransferCharacteristic {
    Reserved0,
    BT1886,
    Unspecified,
    Reserved,
    BT470M,
    BT470BG,
    ST170M,
    ST240M,
    Linear,
    Logarithmic100,
    Logarithmic316,
    XVYCC,
    BT1361E,
    SRGB,
    BT2020Ten,
    BT2020Twelve,
    PerceptualQuantizer,
    ST428,
    HybridLogGamma,
}

/// Color primaries of a stream.
#[derive(Clone, Copy, Debug, PartialEq, Eq, Structural)]
pub enum ColorPrimaries {
    Reserved0,
    BT709,
    Unspecified,
    Reserved,
    BT470M,
    BT470BG,
    ST170M,
    ST240M,
    Film,
    BT2020,
    ST428,
    P3DCI,
    P3Display,
    Tech3213,
}

/// Chroma subsampling mode of a stream.
#[derive(Clone, Copy, Debug, PartialEq, Eq, Structural)]
pub enum ChromaSampling {
    /// 4:2:0
    Cs420,
    /// 4:2:2
    Cs422,
    /// 4:4:4
    Cs444,
    /// Monochrome
    Cs400,
}

/// The numeric code of each matrix-coefficients value.
pub open spec fn spec_matrix_code(m: MatrixCoefficients) -> u8 {
    match m {
        MatrixCoefficients::Identity => 0,
        MatrixCoefficients::BT709 => 1,
        MatrixCoefficients::Unspecified => 2,
        MatrixCoefficients::Reserved => 3,
        MatrixCoefficients::BT470M => 4,
        MatrixCoefficients::BT470BG => 5,
        MatrixCoefficients::ST170M => 6,
        MatrixCoefficients::ST240M => 7,
        MatrixCoefficients::YCgCo => 8,
        MatrixCoefficients::BT2020NonConstantLuminance => 9,
        MatrixCoefficients::BT2020ConstantLuminance => 10,
        MatrixCoefficients::ST2085 => 11,
        MatrixCoefficients::ChromaticityDerivedNonConstantLuminance => 12,
        MatrixCoefficients::ChromaticityDerivedConstantLuminance => 13,
        MatrixCoefficients::ICtCp => 14,
    }
}

/// The numeric code of each transfer-characteristic value.
pub open spec fn spec_transfer_code(t: TransferCharacteristic) -> u8 {
    match t {
        TransferCharacteristic::Reserved0 => 0,
        TransferCharacteristic::BT1886 => 1,
        TransferCharacteristic::Unspecified => 2,
        TransferCharacteristic::Reserved => 3,
        TransferCharacteristic::BT470M => 4,
        TransferCharacteristic::BT470BG => 5,
        TransferCharacteristic::ST170M => 6,
        TransferCharacteristic::ST240M => 7,
        TransferCharacteristic::Linear => 8,
        TransferCharacteristic::Logarithmic100 => 9,
        TransferCharacteristic::Logarithmic316 => 10,
        TransferCharacteristic::XVYCC => 11,
        TransferCharacteristic::BT1361E => 12,
        TransferCharacteristic::SRGB => 13,
        TransferCharacteristic::BT2020Ten => 14,
        TransferCharacteristic::BT2020Twelve => 15,
        TransferCharacteristic::PerceptualQuantizer => 16,
        TransferCharacteristic::ST428 => 17,
        TransferCharacteristic::HybridLogGamma => 18,
    }
}

/// The numeric code of each color-primaries value.  The codes are not
/// contiguous: 13 through 21 are unassigned and Tech 3213 is 22.
pub open spec fn spec_primaries_code(p: ColorPrimaries) -> u8 {
    match p {
        ColorPrimaries::Reserved0 => 0,
        ColorPrimaries::BT709 => 1,
        ColorPrimaries::Unspecified => 2,
        ColorPrimaries::Reserved => 3,
        ColorPrimaries::BT470M => 4,
        ColorPrimaries::BT470BG => 5,
        ColorPrimaries::ST170M => 6,
        ColorPrimaries::ST240M => 7,
        ColorPrimaries::Film => 8,
        ColorPrimaries::BT2020 => 9,
        ColorPrimaries::ST428 => 10,
        ColorPrimaries::P3DCI => 11,
        ColorPrimaries::P3Display => 12,
        ColorPrimaries::Tech3213 => 22,
    }
}

/// The matrix value a numeric code denotes, if any.
pub open spec fn spec_matrix_from_code(c: u8) -> Option<MatrixCoefficients> {
    if c == 0 { Some(MatrixCoefficients::Identity) }
    else if c == 1 { Some(MatrixCoefficients::BT709) }
    else if c == 2 { Some(MatrixCoefficients::Unspecified) }
    else if c == 3 { Some(MatrixCoefficients::Reserved) }
    else if c == 4 { Some(MatrixCoefficients::BT470M) }
    else if c == 5 { Some(MatrixCoefficients::BT470BG) }
    else if c == 6 { Some(MatrixCoefficients::ST170M) }
    else if c == 7 { Some(MatrixCoefficients::ST240M) }
    else if c == 8 { Some(MatrixCoefficients::YCgCo) }
    else if c == 9 { Some(MatrixCoefficients::BT2020NonConstantLuminance) }
    else if c == 10 { Some(MatrixCoefficients::BT2020ConstantLuminance) }
    else if c == 11 { Some(MatrixCoefficients::ST2085) }
    else if c == 12 { Some(MatrixCoefficients::ChromaticityDerivedNonConstantLuminance) }
    else if c == 13 { Some(MatrixCoefficients::ChromaticityDerivedConstantLuminance) }
    else if c == 14 { Some(MatrixCoefficients::ICtCp) }
    else { None }
}

/// The transfer value a numeric code denotes, if any.
pub open spec fn spec_transfer_from_code(c: u8) -> Option<TransferCharacteristic> {
    if c == 0 { Some(TransferCharacteristic::Reserved0) }
    else if c == 1 { Some(TransferCharacteristic::BT1886) }
    else if c == 2 { Some(TransferCharacteristic::Unspecified) }
    else if c == 3 { Some(TransferCharacteristic::Reserved) }
    else if c == 4 { Some(TransferCharacteristic::BT470M) }
    else if c == 5 { Some(TransferCharacteristic::BT470BG) }
    else if c == 6 { Some(TransferCharacteristic::ST170M) }
    else if c == 7 { Some(TransferCharacteristic::ST240M) }
    else if c == 8 { Some(TransferCharacteristic::Linear) }
    else if c == 9 { Some(TransferCharacteristic::Logarithmic100) }
    else if c == 10 { Some(TransferCharacteristic::Logarithmic316) }
    else if c == 11 { Some(TransferCharacteristic::XVYCC) }
    else if c == 12 { Some(TransferCharacteristic::BT1361E) }
    else if c == 13 { Some(TransferCharacteristic::SRGB) }
    else if c == 14 { Some(TransferCharacteristic::BT2020Ten) }
    else if c == 15 { Some(TransferCharacteristic::BT2020Twelve) }
    else if c == 16 { Some(TransferCharacteristic::PerceptualQuantizer) }
    else if c == 17 { Some(TransferCharacteristic::ST428) }
    else if c == 18 { Some(TransferCharacteristic::HybridLogGamma) }
    else { None }
}

/// The primaries value a numeric code denotes, if any.
pub open spec fn spec_primaries_from_code(c: u8) -> Option<ColorPrimaries> {
    if c == 0 { Some(ColorPrimaries::Reserved0) }
    else if c == 1 { Some(ColorPrimaries::BT709) }
    else if c == 2 { Some(ColorPrimaries::Unspecified) }
    else if c == 3 { Some(ColorPrimaries::Reserved) }
    else if c == 4 { Some(ColorPrimaries::BT470M) }
    else if c == 5 { Some(ColorPrimaries::BT470BG) }
    else if c == 6 { Some(ColorPrimaries::ST170M) }
    else if c == 7 { Some(ColorPrimaries::ST240M) }
    else if c == 8 { Some(ColorPrimaries::Film) }
    else if c == 9 { Some(ColorPrimaries::BT2020) }
    else if c == 10 { Some(ColorPrimaries::ST428) }
    else if c == 11 { Some(ColorPrimaries::P3DCI) }
    else if c == 12 { Some(ColorPrimaries::P3Display) }
    else if c == 22 { Some(ColorPrimaries::Tech3213) }
    else { None }
}

impl MatrixCoefficients {
    /// The numeric code of this value.
    pub fn code(&self) -> (c: u8)
        ensures
            c == spec_matrix_code(*self),
    {
        match self {
            MatrixCoefficients::Identity => 0,
            MatrixCoefficients::BT709 => 1,
            MatrixCoefficients::Unspecified => 2,
            MatrixCoefficients::Reserved => 3,
            MatrixCoefficients::BT470M => 4,
            MatrixCoefficients::BT470BG => 5,
            MatrixCoefficients::ST170M => 6,
            MatrixCoefficients::ST240M => 7,
            MatrixCoefficients::YCgCo => 8,
            MatrixCoefficients::BT2020NonConstantLuminance => 9,
            MatrixCoefficients::BT2020ConstantLuminance => 10,
            MatrixCoefficients::ST2085 => 11,
            MatrixCoefficients::ChromaticityDerivedNonConstantLuminance => 12,
            MatrixCoefficients::ChromaticityDerivedConstantLuminance => 13,
            MatrixCoefficients::ICtCp => 14,
        }
    }

    /// The value a numeric code denotes; `None` when the code is unassigned.
    pub fn from_code(c: u8) -> (r: Option<MatrixCoefficients>)
        ensures
            r == spec_matrix_from_code(c),
    {
        match c {
            0 => Some(MatrixCoefficients::Identity),
            1 => Some(MatrixCoefficients::BT709),
            2 => Some(MatrixCoefficients::Unspecified),
            3 => Some(MatrixCoefficients::Reserved),
            4 => Some(MatrixCoefficients::BT470M),
            5 => Some(MatrixCoefficients::BT470BG),
            6 => Some(MatrixCoefficients::ST170M),
            7 => Some(MatrixCoefficients::ST240M),
            8 => Some(MatrixCoefficients::YCgCo),
            9 => Some(MatrixCoefficients::BT2020NonConstantLuminance),
            10 => Some(MatrixCoefficients::BT2020ConstantLuminance),
            11 => Some(MatrixCoefficients::ST2085),
            12 => Some(MatrixCoefficients::ChromaticityDerivedNonConstantLuminance),
            13 => Some(MatrixCoefficients::ChromaticityDerivedConstantLuminance),
            14 => Some(MatrixCoefficients::ICtCp),
            _ => None,
        }
    }
}

impl TransferCharacteristic {
    /// The numeric code of this value.
    pub fn code(&self) -> (c: u8)
        ensures
            c == spec_transfer_code(*self),
    {
        match self {
            TransferCharacteristic::Reserved0 => 0,
            TransferCharacteristic::BT1886 => 1,
            TransferCharacteristic::Unspecified => 2,
            TransferCharacteristic::Reserved => 3,
            TransferCharacteristic::BT470M => 4,
            TransferCharacteristic::BT470BG => 5,
            TransferCharacteristic::ST170M => 6,
            TransferCharacteristic::ST240M => 7,
            TransferCharacteristic::Linear => 8,
            TransferCharacteristic::Logarithmic100 => 9,
            TransferCharacteristic::Logarithmic316 => 10,
            TransferCharacteristic::XVYCC => 11,
            TransferCharacteristic::BT1361E => 12,
            TransferCharacteristic::SRGB => 13,
            TransferCharacteristic::BT2020Ten => 14,
            TransferCharacteristic::BT2020Twelve => 15,
            TransferCharacteristic::PerceptualQuantizer => 16,
            TransferCharacteristic::ST428 => 17,
            TransferCharacteristic::HybridLogGamma => 18,
        }
    }

    /// The value a numeric code denotes; `None` when the code is unassigned.
    pub fn from_code(c: u8) -> (r: Option<TransferCharacteristic>)
        ensures
            r == spec_transfer_from_code(c),
    {
        match c {
            0 => Some(TransferCharacteristic::Reserved0),
            1 => Some(TransferCharacteristic::BT1886),
            2 => Some(TransferCharacteristic::Unspecified),
            3 => Some(TransferCharacteristic::Reserved),
            4 => Some(TransferCharacteristic::BT470M),
            5 => Some(TransferCharacteristic::BT470BG),
            6 => Some(TransferCharacteristic::ST170M),
            7 => Some(TransferCharacteristic::ST240M),
            8 => Some(TransferCharacteristic::Linear),
            9 => Some(TransferCharacteristic::Logarithmic100),
            10 => Some(TransferCharacteristic::Logarithmic316),
            11 => Some(TransferCharacteristic::XVYCC),
            12 => Some(TransferCharacteristic::BT1361E),
            13 => Some(TransferCharacteristic::SRGB),
            14 => Some(TransferCharacteristic::BT2020Ten),
            15 => Some(TransferCharacteristic::BT2020Twelve),
            16 => Some(TransferCharacteristic::PerceptualQuantizer),
            17 => Some(TransferCharacteristic::ST428),
            18 => Some(TransferCharacteristic::HybridLogGamma),
            _ => None,
        }
    }
}

impl ColorPrimaries {
    /// The numeric code of this value.
    pub fn code(&self) -> (c: u8)
        ensures
            c == spec_primaries_code(*self),
    {
        match self {
            ColorPrimaries::Reserved0 => 0,
            ColorPrimaries::BT709 => 1,
            ColorPrimaries::Unspecified => 2,
            ColorPrimaries::Reserved => 3,
            ColorPrimaries::BT470M => 4,
            ColorPrimaries::BT470BG => 5,
            ColorPrimaries::ST170M => 6,
            ColorPrimaries::ST240M => 7,
            ColorPrimaries::Film => 8,
            ColorPrimaries::BT2020 => 9,
            ColorPrimaries::ST428 => 10,
            ColorPrimaries::P3DCI => 11,
            ColorPrimaries::P3Display => 12,
            ColorPrimaries::Tech3213 => 22,
        }
    }

    /// The value a numeric code denotes; `None` when the code is unassigned.
    pub fn from_code(c: u8) -> (r: Option<ColorPrimaries>)
        ensures
            r == spec_primaries_from_code(c),
    {
        match c {
            0 => Some(ColorPrimaries::Reserved0),
            1 => Some(ColorPrimaries::BT709),
            2 => Some(ColorPrimaries::Unspecified),
            3 => Some(ColorPrimaries::Reserved),
            4 => Some(ColorPrimaries::BT470M),
            5 => Some(ColorPrimaries::BT470BG),
            6 => Some(ColorPrimaries::ST170M),
            7 => Some(ColorPrimaries::ST240M),
            8 => Some(ColorPrimaries::Film),
            9 => Some(ColorPrimaries::BT2020),
            10 => Some(ColorPrimaries::ST428),
            11 => Some(ColorPrimaries::P3DCI),
            12 => Some(ColorPrimaries::P3Display),
            22 => Some(ColorPrimaries::Tech3213),
            _ => None,
        }
    }
}

/// Right shifts from luma to chroma plane dimensions, or `None` for a
/// monochrome stream, which has no chroma planes.
pub open spec fn spec_decimation(c: ChromaSampling) -> Option<(u8, u8)> {
    match c {
        ChromaSampling::Cs420 => Some((1, 1)),
        ChromaSampling::Cs422 => Some((1, 0)),
        ChromaSampling::Cs444 => Some((0, 0)),
        ChromaSampling::Cs400 => None,
    }
}

impl ChromaSampling {
    /// Right shifts from luma to chroma plane dimensions.
    pub fn decimation(&self) -> (r: Option<(u8, u8)>)
        ensures
            r == spec_decimation(*self),
    {
        match self {
            ChromaSampling::Cs420 => Some((1, 1)),
            ChromaSampling::Cs422 => Some((1, 0)),
            ChromaSampling::Cs444 => Some((0, 0)),
            ChromaSampling::Cs400 => None,
        }
    }
}

/// Immutable metadata of one stream, read once at engine start.
#[derive(Clone, Copy, Debug, PartialEq, Eq, Structural)]
pub struct VideoDetails {
    /// Width in pixels.
    pub width: usize,
    /// Height in pixels.
    pub height: usize,
    /// Bit depth of the samples.
    pub bit_depth: usize,
    /// Chroma subsampling mode.
    pub chroma_sampling: ChromaSampling,
}

/// Fully resolved colorimetry of one stream, immutable once computed and
/// shared read-only by every scoring worker.
#[derive(Clone, Copy, Debug, PartialEq, Eq, Structural)]
pub struct ColorConfig {
    pub bit_depth: u8,
    pub subsampling_x: u8,
    pub subsampling_y: u8,
    pub full_range: bool,
    pub matrix_coefficients: MatrixCoefficients,
    pub transfer_characteristics: TransferCharacteristic,
    pub color_primaries: ColorPrimaries,
}

/// Matrix coefficients inferred from the resolution when a stream leaves
/// them unspecified: BT.709 at or above HD size, BT.470BG for 576-line PAL,
/// and ST 170M for the remaining SD sizes.
pub open spec fn spec_guess_matrix(width: int, height: int) -> MatrixCoefficients {
    if width >= 1280 || height > 576 {
        MatrixCoefficients::BT709
    } else if height == 576 {
        MatrixCoefficients::BT470BG
    } else {
        MatrixCoefficients::ST170M
    }
}

/// Color primaries inferred from the resolved matrix and the resolution when
/// a stream leaves them unspecified: a BT.2020-family matrix always yields
/// BT.2020 primaries; otherwise HD resolutions and a BT.709 matrix yield
/// BT.709, 576 lines yield BT.470BG, 480 or 488 lines yield ST 170M, and
/// everything else falls back to BT.709.
pub open spec fn spec_guess_primaries(
    matrix: MatrixCoefficients,
    width: int,
    height: int,
) -> ColorPrimaries {
    if matrix == MatrixCoefficients::BT2020NonConstantLuminance
        || matrix == MatrixCoefficients::BT2020ConstantLuminance {
        ColorPrimaries::BT2020
    } else if matrix == MatrixCoefficients::BT709 || width >= 1280 || height > 576 {
        ColorPrimaries::BT709
    } else if height == 576 {
        ColorPrimaries::BT470BG
    } else if height == 480 || height == 488 {
        ColorPrimaries::ST170M
    } else {
        ColorPrimaries::BT709
    }
}

/// Infers matrix coefficients from the resolution.
pub fn guess_matrix_coefficients(width: usize, height: usize) -> (m: MatrixCoefficients)
    ensures
        m == spec_guess_matrix(width as int, height as int),
        width < 1280 && height <= 576 && height != 576 ==> m == MatrixCoefficients::ST170M,
        height == 576 && width < 1280 ==> m == MatrixCoefficients::BT470BG,
        width >= 1280 || height > 576 ==> m == MatrixCoefficients::BT709,
{
    if width >= 1280 || height > 576 {
        MatrixCoefficients::BT709
    } else if height == 576 {
        MatrixCoefficients::BT470BG
    } else {
        MatrixCoefficients::ST170M
    }
}

/// Infers color primaries from the resolved matrix and the resolution.
pub fn guess_color_primaries(
    matrix: MatrixCoefficients,
    width: usize,
    height: usize,
) -> (p: ColorPrimaries)
    ensures
        p == spec_guess_primaries(matrix, width as int, height as int),
        matrix == MatrixCoefficients::BT2020NonConstantLuminance
            || matrix == MatrixCoefficients::BT2020ConstantLuminance
            ==> p == ColorPrimaries::BT2020,
{
    if matrix == MatrixCoefficients::BT2020NonConstantLuminance
        || matrix == MatrixCoefficients::BT2020ConstantLuminance
    {
        ColorPrimaries::BT2020
    } else if matrix == MatrixCoefficients::BT709 || width >= 1280 || height > 576 {
        ColorPrimaries::BT709
    } else if height == 576 {
        ColorPrimaries::BT470BG
    } else if height == 480 || height == 488 {
        ColorPrimaries::ST170M
    } else {
        ColorPrimaries::BT709
    }
}

/// The matrix a stream is scored with: the given one, or the inferred one
/// when the given one is unspecified.
pub open spec fn spec_resolve_matrix(
    given: MatrixCoefficients,
    width: int,
    height: int,
) -> MatrixCoefficients {
    if given == MatrixCoefficients::Unspecified {
        spec_guess_matrix(width, height)
    } else {
        given
    }
}

/// The transfer characteristic a stream is scored with: the given one, or
/// BT.1886 when the given one is unspecified, with no resolution dependence.
pub open spec fn spec_resolve_transfer(given: TransferCharacteristic) -> TransferCharacteristic {
    if given == TransferCharacteristic::Unspecified {
        TransferCharacteristic::BT1886
    } else {
        given
    }
}

/// The primaries a stream is scored with: the given ones, or the ones
/// inferred from the resolved matrix when the given ones are unspecified.
pub open spec fn spec_resolve_primaries(
    given: ColorPrimaries,
    resolved_matrix: MatrixCoefficients,
    width: int,
    height: int,
) -> ColorPrimaries {
    if given == ColorPrimaries::Unspecified {
        spec_guess_primaries(resolved_matrix, width, height)
    } else {
        given
    }
}

/// Resolves the full colorimetry of one stream from the caller's possibly
/// unspecified values and the stream's metadata.  Applied independently per
/// stream; pure and side-effect-free.
pub fn resolve_color_config(
    matrix: MatrixCoefficients,
    transfer: TransferCharacteristic,
    primaries: ColorPrimaries,
    full_range: bool,
    details: &VideoDetails,
) -> (cfg: ColorConfig)
    requires
        details.bit_depth <= u8::MAX,
    ensures
        cfg.matrix_coefficients == spec_resolve_matrix(
            matrix,
            details.width as int,
            details.height as int,
        ),
        cfg.transfer_characteristics == spec_resolve_transfer(transfer),
        cfg.color_primaries == spec_resolve_primaries(
            primaries,
            spec_resolve_matrix(matrix, details.width as int, details.height as int),
            details.width as int,
            details.height as int,
        ),
        cfg.full_range == full_range,
        cfg.bit_depth == details.bit_depth,
        Some((cfg.subsampling_x, cfg.subsampling_y))
            == spec_decimation(details.chroma_sampling)
            || ((cfg.subsampling_x, cfg.subsampling_y) == (0u8, 0u8)
                && spec_decimation(details.chroma_sampling) is None),
{
    let resolved_matrix = if matrix == MatrixCoefficients::Unspecified {
        guess_matrix_coefficients(details.width, details.height)
    } else {
        matrix
    };
    let resolved_transfer = if transfer == TransferCharacteristic::Unspecified {
        TransferCharacteristic::BT1886
    } else {
        transfer
    };
    let resolved_primaries = if primaries == ColorPrimaries::Unspecified {
        guess_color_primaries(resolved_matrix, details.width, details.height)
    } else {
        primaries
    };
    let (ss_x, ss_y) = match details.chroma_sampling.decimation() {
        Some(d) => d,
        None => (0, 0),
    };
    ColorConfig {
        bit_depth: details.bit_depth as u8,
        subsampling_x: ss_x,
        subsampling_y: ss_y,
        full_range,
        matrix_coefficients: resolved_matrix,
        transfer_characteristics: resolved_transfer,
        color_primaries: resolved_primaries,
    }
}

} // verus!
