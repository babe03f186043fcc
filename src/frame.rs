//! How large a decoded frame is: the scaling of each decode mode, the layout of
//! each pixel type, and the check of a caller's output buffer against it.

use vstd::prelude::*;
use crate::enums::{VideoDecodeMode, VideoPixelType};
use crate::error::{RedError, RedResult};

verus! {

/// By how much a decode mode divides each side of the image.
pub open spec fn spec_mode_divisor(mode: VideoDecodeMode) -> nat {
    match mode {
        VideoDecodeMode::FullResPremium => 1,
        VideoDecodeMode::HalfResPremium => 2,
        VideoDecodeMode::HalfResGood => 2,
        VideoDecodeMode::QuarterResGood => 4,
        VideoDecodeMode::EightResGood => 8,
        VideoDecodeMode::SixteenthResGood => 16,
    }
}

pub fn mode_divisor(mode: VideoDecodeMode) -> (d: usize)
    ensures
        d == spec_mode_divisor(mode),
{
    match mode {
        VideoDecodeMode::FullResPremium => 1,
        VideoDecodeMode::HalfResPremium => 2,
        VideoDecodeMode::HalfResGood => 2,
        VideoDecodeMode::QuarterResGood => 4,
        VideoDecodeMode::EightResGood => 8,
        VideoDecodeMode::SixteenthResGood => 16,
    }
}

/// The decoded image's width and height after the mode's scaling.
pub fn scaled_dims(src_w: u32, src_h: u32, mode: VideoDecodeMode) -> (r: (usize, usize))
    ensures
        r.0 == src_w as nat / spec_mode_divisor(mode),
        r.1 == src_h as nat / spec_mode_divisor(mode),
{
    let div = mode_divisor(mode);
    (src_w as usize / div, src_h as usize / div)
}

/// The memory layout of a pixel type.
#[derive(Clone, Copy, Debug, PartialEq, Eq, Structural)]
pub struct PixelInfo {
    /// Bytes per pixel when interleaved, bytes per sample of one plane when planar.
    pub bpp_or_sample: usize,
    /// The number of planes.
    pub channels: usize,
    /// Whether all channels of a pixel lie together.
    pub interleaved: bool,
}

pub open spec fn spec_pixel_info(pt: VideoPixelType) -> PixelInfo {
    match pt {
        VideoPixelType::Rgb16bitInterleaved => PixelInfo {
            bpp_or_sample: 6,
            channels: 1,
            interleaved: true,
        },
        VideoPixelType::RgbHalfFloatInterleaved => PixelInfo {
            bpp_or_sample: 6,
            channels: 1,
            interleaved: true,
        },
        VideoPixelType::RgbHalfFloatAcesInt => PixelInfo {
            bpp_or_sample: 6,
            channels: 1,
            interleaved: true,
        },
        VideoPixelType::Rgb16bitPlanar => PixelInfo {
            bpp_or_sample: 2,
            channels: 3,
            interleaved: false,
        },
        VideoPixelType::Bgr8bitInterleaved => PixelInfo {
            bpp_or_sample: 3,
            channels: 1,
            interleaved: true,
        },
        VideoPixelType::Bgra8bitInterleaved => PixelInfo {
            bpp_or_sample: 4,
            channels: 1,
            interleaved: true,
        },
        VideoPixelType::Dpx10bitMethodB => PixelInfo {
            bpp_or_sample: 4,
            channels: 1,
            interleaved: true,
        },
    }
}

/// The layout of a pixel type: interleaved RGB at two bytes per sample, planar
/// RGB as three planes of two-byte samples, eight-bit BGR and BGRA, and packed
/// ten-bit DPX at four bytes per pixel.
pub fn pixel_info(pt: VideoPixelType) -> (r: PixelInfo)
    ensures
        r == spec_pixel_info(pt),
{
    match pt {
        VideoPixelType::Rgb16bitInterleaved => PixelInfo {
            bpp_or_sample: 6,
            channels: 1,
            interleaved: true,
        },
        VideoPixelType::RgbHalfFloatInterleaved => PixelInfo {
            bpp_or_sample: 6,
            channels: 1,
            interleaved: true,
        },
        VideoPixelType::RgbHalfFloatAcesInt => PixelInfo {
            bpp_or_sample: 6,
            channels: 1,
            interleaved: true,
        },
        VideoPixelType::Rgb16bitPlanar => PixelInfo {
            bpp_or_sample: 2,
            channels: 3,
            interleaved: false,
        },
        VideoPixelType::Bgr8bitInterleaved => PixelInfo {
            bpp_or_sample: 3,
            channels: 1,
            interleaved: true,
        },
        VideoPixelType::Bgra8bitInterleaved => PixelInfo {
            bpp_or_sample: 4,
            channels: 1,
            interleaved: true,
        },
        VideoPixelType::Dpx10bitMethodB => PixelInfo {
            bpp_or_sample: 4,
            channels: 1,
            interleaved: true,
        },
    }
}

/// The bytes that a frame of `width` by `height` source pixels takes once
/// decoded with `mode` into `pixel_type`.
pub open spec fn frame_bytes(
    width: u32,
    height: u32,
    mode: VideoDecodeMode,
    pixel_type: VideoPixelType,
) -> nat {
    let div = spec_mode_divisor(mode);
    let info = spec_pixel_info(pixel_type);
    let per_plane = (width as nat / div) * (height as nat / div) * (info.bpp_or_sample as nat);
    if info.interleaved {
        per_plane
    } else {
        per_plane * (info.channels as nat)
    }
}

/// The size of the output buffer that decoding a frame needs; `None` when the
/// size does not fit the machine's address space.
pub fn calculate_buffer_size(
    width: u32,
    height: u32,
    mode: VideoDecodeMode,
    pixel_type: VideoPixelType,
) -> (bytes: Option<usize>)
    ensures
        bytes == if frame_bytes(width, height, mode, pixel_type) <= usize::MAX {
            Some(frame_bytes(width, height, mode, pixel_type) as usize)
        } else {
            None::<usize>
        },
{
    let (w, h) = scaled_dims(width, height, mode);
    let info = pixel_info(pixel_type);
    let ghost pixels: nat = w as nat * h as nat;
    let ghost plane: nat = pixels * (info.bpp_or_sample as nat);
    let ghost total = frame_bytes(width, height, mode, pixel_type);
    assert(pixels <= plane) by (nonlinear_arith)
        requires
            plane == pixels * (info.bpp_or_sample as nat),
            info.bpp_or_sample >= 1,
    ;
    assert(plane <= total) by (nonlinear_arith)
        requires
            total == if info.interleaved {
                plane
            } else {
                plane * (info.channels as nat)
            },
            info.channels >= 1,
    ;
    let px = match w.checked_mul(h) {
        Some(px) => px,
        None => return None,
    };
    let per_plane = match px.checked_mul(info.bpp_or_sample) {
        Some(n) => n,
        None => return None,
    };
    if info.interleaved {
        Some(per_plane)
    } else {
        per_plane.checked_mul(info.channels)
    }
}

/// Checks a caller's output buffer of `provided` bytes against the `needed`
/// size: too small a buffer is refused with both sizes.
pub fn check_buffer_len(needed: usize, provided: usize) -> (r: RedResult<()>)
    ensures
        r == if provided < needed {
            Err::<(), RedError>(RedError::BufferTooSmall { needed, provided })
        } else {
            Ok::<(), RedError>(())
        },
{
    if provided < needed {
        Err(RedError::BufferTooSmall { needed, provided })
    } else {
        Ok(())
    }
}

} // verus!
