use vstd::prelude::*;

use crate::errors::{APNGError, APNGResult};
use crate::filter::FilterType;
use crate::png::{BitDepth, ColorType, PNGImage};

verus! {

/// The immutable encoding parameters of one animation.
#[derive(Clone, Debug, PartialEq, Eq, Structural)]
pub struct Config {
    pub width: u32,
    pub height: u32,
    /// Number of frames the stream will declare and carry.
    pub num_frames: u32,
    /// Number of times the animation plays; 0 loops forever.
    pub num_plays: u32,
    pub color: ColorType,
    pub depth: BitDepth,
    pub filter: FilterType,
}

/// Bits in one row of pixels.
pub open spec fn row_bits(c: Config) -> int {
    c.width * c.color.samples_spec() * c.depth.code_spec()
}

/// Bytes in one row of pixels, the last byte padded.
pub open spec fn row_len(c: Config) -> int {
    row_bits(c) / 8 + if row_bits(c) % 8 == 0 {
        0int
    } else {
        1int
    }
}

/// The filter stride in bytes: the bytes one pixel occupies, at least 1.
pub open spec fn bytes_per_pixel_spec(c: Config) -> int {
    let b = c.color.samples_spec() * c.depth.code_spec();
    b / 8 + if b % 8 == 0 {
        0int
    } else {
        1int
    }
}

/// Bytes in one stored row: the pixel bytes plus the leading filter-type
/// byte.
pub open spec fn raw_row_length_spec(c: Config) -> int {
    row_len(c) + 1
}

/// Bytes a whole frame's pixel data must occupy.
pub open spec fn expected_data_len(c: Config) -> int {
    row_len(c) * c.height
}

impl Config {
    /// The geometry fits the machine: a stored row and a whole frame each
    /// fit in a usize.
    pub open spec fn wf(self) -> bool {
        &&& raw_row_length_spec(self) <= usize::MAX
        &&& expected_data_len(self) <= usize::MAX
    }

    /// The filter stride in bytes, at least 1; sub-byte pixel formats use 1.
    pub fn bytes_per_pixel(&self) -> (r: usize)
        ensures
            r == bytes_per_pixel_spec(*self),
            1 <= r <= 8,
    {
        let s = self.color.samples();
        let d = self.depth.code() as usize;
        assert(s * d <= 64) by (nonlinear_arith)
            requires
                0 <= s <= 4,
                0 <= d <= 16,
        ;
        let b = s * d;
        b / 8 + if b % 8 == 0 {
            0
        } else {
            1
        }
    }

    /// The number of bytes needed for one stored row, filter byte included.
    pub fn raw_row_length(&self) -> (r: usize)
        requires
            self.wf(),
        ensures
            r == raw_row_length_spec(*self),
    {
        let w = self.width as u64;
        let s = self.color.samples() as u64;
        let d = self.depth.code() as u64;
        assert(w * s <= 0xFFFF_FFFFu64 * 4 && w * s * d <= 0xFFFF_FFFFu64 * 64) by (nonlinear_arith)
            requires
                0 <= w <= 0xFFFF_FFFFu64,
                0 <= s <= 4,
                0 <= d <= 16,
        ;
        let bits: u64 = w * s * d;
        let extra = bits % 8;
        let rb: u64 = bits / 8 + match extra {
            0 => 0,
            _ => 1,
        } + 1;
        rb as usize
    }

    /// Whether the geometry fits the machine; true exactly on well-formed
    /// configurations.
    pub fn is_valid(&self) -> (r: bool)
        ensures
            r == self.wf(),
    {
        let w = self.width as u128;
        let s = self.color.samples() as u128;
        let d = self.depth.code() as u128;
        assert(w * s <= 0xFFFF_FFFFu128 * 4 && w * s * d <= 0xFFFF_FFFFu128 * 64) by (nonlinear_arith)
            requires
                0 <= w <= 0xFFFF_FFFFu128,
                0 <= s <= 4,
                0 <= d <= 16,
        ;
        let bits: u128 = w * s * d;
        let rl: u128 = bits / 8 + if bits % 8 == 0 {
            0
        } else {
            1
        };
        let h = self.height as u128;
        assert(rl * h <= 0x1_0000_0000_0000_0000u128 * 0x1_0000_0000u128) by (nonlinear_arith)
            requires
                0 <= rl <= 0x1_0000_0000_0000_0000u128,
                0 <= h <= 0xFFFF_FFFFu128,
        ;
        rl + 1 <= usize::MAX as u128 && rl * h <= usize::MAX as u128
    }
}

/// The configuration read off a first image: its geometry and format, the
/// given frame count and play count, and no filtering.
pub open spec fn config_from(im: PNGImage, num_frames: u32, plays: Option<u32>) -> Config {
    Config {
        width: im.width,
        height: im.height,
        num_frames,
        num_plays: match plays {
            Some(p) => p,
            None => 0,
        },
        color: im.color_type,
        depth: im.bit_depth,
        filter: FilterType::NoFilter,
    }
}

/// Builds the configuration for a list of frames: the first image gives the
/// geometry and format, the list's length gives the frame count. An empty
/// list is rejected.
pub fn create_config(images: &[PNGImage], plays: Option<u32>) -> (r: APNGResult<Config>)
    requires
        images@.len() <= u32::MAX,
    ensures
        images@.len() == 0 <==> r == Err::<Config, APNGError>(APNGError::ImagesNotFound),
        images@.len() > 0 ==> r == Ok::<Config, APNGError>(
            config_from(images@[0], images@.len() as u32, plays),
        ),
{
    if images.len() == 0 {
        return Err(APNGError::ImagesNotFound);
    }
    let first = &images[0];
    Ok(
        Config {
            width: first.width,
            height: first.height,
            num_frames: images.len() as u32,
            num_plays: match plays {
                Some(p) => p,
                None => 0,
            },
            color: first.color_type,
            depth: first.bit_depth,
            filter: FilterType::NoFilter,
        },
    )
}

/// Builds the configuration from one image and an explicit frame count.
pub fn create_config_with_num_frames(image: &PNGImage, num_frames: u32, plays: Option<u32>) -> (r:
    APNGResult<Config>)
    ensures
        r == Ok::<Config, APNGError>(config_from(*image, num_frames, plays)),
{
    Ok(
        Config {
            width: image.width,
            height: image.height,
            num_frames,
            num_plays: match plays {
                Some(p) => p,
                None => 0,
            },
            color: image.color_type,
            depth: image.bit_depth,
            filter: FilterType::NoFilter,
        },
    )
}

} // verus!
