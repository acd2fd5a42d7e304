use vstd::prelude::*;

verus! {

/// Everything that can go wrong while building an animation.
#[derive(Clone, Copy, Debug, PartialEq, Eq, Structural)]
pub enum APNGError {
    /// A configuration was requested for an empty list of images.
    ImagesNotFound,
    /// A pixel buffer's length disagrees with the declared geometry:
    /// the expected and the actual number of bytes.
    WrongDataSize(usize, usize),
    /// The stream was finished before every declared frame was written:
    /// the declared and the actual frame count.
    WrongFrameNums(usize, usize),
}

pub type APNGResult<T> = Result<T, APNGError>;

} // verus!
