use vstd::prelude::*;

verus! {

/// The PNG color types, with their standard numeric codes and sample counts.
#[derive(Clone, Copy, Debug, PartialEq, Eq, Structural)]
pub enum ColorType {
    Grayscale,
    RGB,
    Indexed,
    GrayscaleAlpha,
    RGBA,
}

impl ColorType {
    /// The number of samples (channels) each pixel carries.
    pub open spec fn samples_spec(self) -> nat {
        match self {
            ColorType::Grayscale => 1,
            ColorType::RGB => 3,
            ColorType::Indexed => 1,
            ColorType::GrayscaleAlpha => 2,
            ColorType::RGBA => 4,
        }
    }

    pub fn samples(&self) -> (r: usize)
        ensures
            r == self.samples_spec(),
            1 <= r <= 4,
    {
        match self {
            ColorType::Grayscale => 1,
            ColorType::RGB => 3,
            ColorType::Indexed => 1,
            ColorType::GrayscaleAlpha => 2,
            ColorType::RGBA => 4,
        }
    }

    /// The color-type byte stored in the IHDR chunk.
    pub open spec fn code_spec(self) -> u8 {
        match self {
            ColorType::Grayscale => 0,
            ColorType::RGB => 2,
            ColorType::Indexed => 3,
            ColorType::GrayscaleAlpha => 4,
            ColorType::RGBA => 6,
        }
    }

    pub fn code(&self) -> (r: u8)
        ensures
            r == self.code_spec(),
    {
        match self {
            ColorType::Grayscale => 0,
            ColorType::RGB => 2,
            ColorType::Indexed => 3,
            ColorType::GrayscaleAlpha => 4,
            ColorType::RGBA => 6,
        }
    }
}

/// The PNG bit depths; the code is both the IHDR byte and the numeric depth.
#[derive(Clone, Copy, Debug, PartialEq, Eq, Structural)]
pub enum BitDepth {
    One,
    Two,
    Four,
    Eight,
    Sixteen,
}

impl BitDepth {
    /// Bits per sample, which is also the depth byte stored in the IHDR chunk.
    pub open spec fn code_spec(self) -> u8 {
        match self {
            BitDepth::One => 1,
            BitDepth::Two => 2,
            BitDepth::Four => 4,
            BitDepth::Eight => 8,
            BitDepth::Sixteen => 16,
        }
    }

    pub fn code(&self) -> (r: u8)
        ensures
            r == self.code_spec(),
            1 <= r <= 16,
    {
        match self {
            BitDepth::One => 1,
            BitDepth::Two => 2,
            BitDepth::Four => 4,
            BitDepth::Eight => 8,
            BitDepth::Sixteen => 16,
        }
    }
}

/// One already-decoded frame: geometry, sample format, and the raw
/// row-major pixel bytes.
#[derive(Clone, Debug, PartialEq, Eq)]
pub struct PNGImage {
    pub width: u32,
    pub height: u32,
    pub color_type: ColorType,
    pub bit_depth: BitDepth,
    pub data: Vec<u8>,
}

} // verus!
