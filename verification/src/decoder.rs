//! The engine's model of one script-hosted decoder.
//!
//! Opening the stream, probing it and copying frame data are I/O and belong
//! to the surrounding application; the engine works on what that probing
//! yields: the stream's constant resolution and format — or the fact that
//! they vary — its frame count, and the position of the next frame to read.

use crate::color::ChromaSampling;
use crate::color::VideoDetails;
use crate::error::CompareError;
use vstd::prelude::*;

verus! {

/// Constant resolution of a stream.
#[derive(Clone, Copy, Debug, PartialEq, Eq, Structural)]
pub struct Resolution {
    /// Width in pixels.
    pub width: usize,
    /// Height in pixels.
    pub height: usize,
}

/// How the samples of a format are stored.
#[derive(Clone, Copy, Debug, PartialEq, Eq, Structural)]
pub enum SampleType {
    /// Integer samples; the only kind the comparison supports.
    Integer,
    /// Floating-point samples.
    Float,
}

/// The color family of a format.
#[derive(Clone, Copy, Debug, PartialEq, Eq, Structural)]
pub enum ColorFamily {
    /// Luma only: no chroma planes.
    Gray,
    /// Luma and two chroma planes.
    YUV,
    /// Three color planes.
    RGB,
}

/// Constant format of a stream, as the script host reports it.
#[derive(Clone, Copy, Debug, PartialEq, Eq, Structural)]
pub struct VideoFormat {
    /// Bytes each sample occupies.
    pub bytes_per_sample: u8,
    /// Significant bits of each sample.
    pub bits_per_sample: u8,
    /// How the samples are stored.
    pub sample_type: SampleType,
    /// The color family of the planes.
    pub color_family: ColorFamily,
    /// Right shift from luma to chroma width.
    pub sub_sampling_w: u8,
    /// Right shift from luma to chroma height.
    pub sub_sampling_h: u8,
}

/// The chroma sampling mode a format implies: monochrome for a gray family,
/// otherwise 4:4:4, 4:2:2 or 4:2:0 by the total subsampling.
pub open spec fn spec_chroma_sampling_of(f: VideoFormat) -> ChromaSampling {
    if f.color_family == ColorFamily::Gray {
        ChromaSampling::Cs400
    } else if f.sub_sampling_w + f.sub_sampling_h == 0 {
        ChromaSampling::Cs444
    } else if f.sub_sampling_w + f.sub_sampling_h == 1 {
        ChromaSampling::Cs422
    } else {
        ChromaSampling::Cs420
    }
}

/// The chroma sampling mode of a format.
pub fn chroma_sampling_of(f: &VideoFormat) -> (c: ChromaSampling)
    ensures
        c == spec_chroma_sampling_of(*f),
{
    if f.color_family == ColorFamily::Gray {
        ChromaSampling::Cs400
    } else {
        let total = (f.sub_sampling_w as u32) + (f.sub_sampling_h as u32);
        if total == 0 {
            ChromaSampling::Cs444
        } else if total == 1 {
            ChromaSampling::Cs422
        } else {
            ChromaSampling::Cs420
        }
    }
}

/// One decoder of the comparison: the probed properties of a stream and the
/// read position.  The decoder is owned by the frame-pair cursor and only
/// ever advanced under its exclusive access.
pub struct VapoursynthDecoder {
    /// The stream's resolution, or `None` when it varies frame to frame.
    pub resolution: Option<Resolution>,
    /// The stream's format, or `None` when it varies frame to frame.
    pub format: Option<VideoFormat>,
    /// Total number of frames the stream yields.
    pub num_frames: usize,
    /// The next frame to read.
    pub cur_frame: usize,
}

impl VapoursynthDecoder {
    /// A decoder over a freshly probed stream: reading starts at frame zero.
    pub fn new(
        resolution: Option<Resolution>,
        format: Option<VideoFormat>,
        num_frames: usize,
    ) -> (d: Self)
        ensures
            d.resolution == resolution,
            d.format == format,
            d.num_frames == num_frames,
            d.cur_frame == 0,
    {
        VapoursynthDecoder { resolution, format, num_frames, cur_frame: 0 }
    }

    /// The stream's resolution; a stream whose resolution varies is not
    /// supported.
    pub fn get_resolution(&self) -> (r: Result<Resolution, CompareError>)
        ensures
            match self.resolution {
                Some(res) => r == Result::<Resolution, CompareError>::Ok(res),
                None => r == Result::<Resolution, CompareError>::Err(
                    CompareError::UnsupportedStream,
                ),
            },
    {
        match self.resolution {
            Some(res) => Ok(res),
            None => Err(CompareError::UnsupportedStream),
        }
    }

    /// The stream's format; a stream whose format varies is not supported.
    pub fn get_format(&self) -> (r: Result<VideoFormat, CompareError>)
        ensures
            match self.format {
                Some(f) => r == Result::<VideoFormat, CompareError>::Ok(f),
                None => r == Result::<VideoFormat, CompareError>::Err(
                    CompareError::UnsupportedStream,
                ),
            },
    {
        match self.format {
            Some(f) => Ok(f),
            None => Err(CompareError::UnsupportedStream),
        }
    }

    /// The total number of frames the stream yields.
    pub fn get_frame_count(&self) -> (n: usize)
        ensures
            n == self.num_frames,
    {
        self.num_frames
    }

    /// The stream's metadata for the engine: resolution, bit depth and
    /// chroma sampling.  Fails on a variable or non-integer stream.
    pub fn video_details(&self) -> (r: Result<VideoDetails, CompareError>)
        ensures
            match (self.resolution, self.format) {
                (Some(res), Some(f)) => {
                    if f.sample_type == SampleType::Integer {
                        r == Result::<VideoDetails, CompareError>::Ok(
                            VideoDetails {
                                width: res.width,
                                height: res.height,
                                bit_depth: f.bits_per_sample as usize,
                                chroma_sampling: spec_chroma_sampling_of(f),
                            },
                        )
                    } else {
                        r == Result::<VideoDetails, CompareError>::Err(
                            CompareError::UnsupportedStream,
                        )
                    }
                },
                _ => r == Result::<VideoDetails, CompareError>::Err(
                    CompareError::UnsupportedStream,
                ),
            },
    {
        let res = self.get_resolution()?;
        let f = self.get_format()?;
        if f.sample_type != SampleType::Integer {
            return Err(CompareError::UnsupportedStream);
        }
        Ok(
            VideoDetails {
                width: res.width,
                height: res.height,
                bit_depth: f.bits_per_sample as usize,
                chroma_sampling: chroma_sampling_of(&f),
            },
        )
    }

    /// Models one frame read: the read succeeds exactly when the stream has
    /// a frame left, and consumes it.
    pub fn advance_frame(&mut self) -> (got: bool)
        ensures
            got == (old(self).cur_frame < old(self).num_frames),
            final(self).resolution == old(self).resolution,
            final(self).format == old(self).format,
            final(self).num_frames == old(self).num_frames,
            got ==> final(self).cur_frame == old(self).cur_frame + 1,
            !got ==> final(self).cur_frame == old(self).cur_frame,
    {
        if self.cur_frame < self.num_frames {
            self.cur_frame = self.cur_frame + 1;
            true
        } else {
            false
        }
    }
}

} // verus!
