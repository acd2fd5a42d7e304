use vstd::prelude::*;

use crate::bytes::{push_bytes, zeros};
use crate::config::{bytes_per_pixel_spec, expected_data_len, row_len, Config};
use crate::errors::{APNGError, APNGResult};
use crate::filter::{filter, filtered_row};
use crate::png::PNGImage;

verus! {

/// The zlib stream that deflate at the highest compression level produces
/// for a byte sequence.
pub uninterp spec fn zlib_of(data: Seq<u8>) -> Seq<u8>;

/// Relies on flate2::write::ZlibEncoder at Compression::best: the zlib
/// stream is a function of the input bytes alone, and writing into a
/// memory buffer does not fail.
#[verifier::external_body]
fn zlib_compress(data: &[u8]) -> (r: Vec<u8>)
    ensures
        r@ == zlib_of(data@),
{
    let mut z = flate2::write::ZlibEncoder::new(Vec::new(), flate2::Compression::best());
    std::io::Write::write_all(&mut z, data).unwrap();
    z.finish().unwrap()
}

/// A sequence of `n` zero bytes.
pub open spec fn zero_row(n: int) -> Seq<u8> {
    Seq::new(n as nat, |i: int| 0u8)
}

/// Row `r` of a frame's pixel data.
pub open spec fn row_of(data: Seq<u8>, len: int, r: int) -> Seq<u8> {
    data.subrange(r * len, (r + 1) * len)
}

/// Row `r` after filtering. The row above it is the previous row as it was
/// filtered, and the first row sits above a row of zeroes.
pub open spec fn filtered_frame_row(c: Config, data: Seq<u8>, r: int) -> Seq<u8>
    decreases r,
{
    filtered_row(
        c.filter,
        bytes_per_pixel_spec(c),
        if r <= 0 {
            zero_row(row_len(c))
        } else {
            filtered_frame_row(c, data, r - 1)
        },
        row_of(data, row_len(c), r),
    )
}

/// The first `n` rows of the stream handed to deflate: for each row, the
/// filter-type byte then the filtered row.
pub open spec fn filtered_stream(c: Config, data: Seq<u8>, n: int) -> Seq<u8>
    decreases n,
{
    if n <= 0 {
        Seq::empty()
    } else {
        filtered_stream(c, data, n - 1) + seq![c.filter.code_spec()] + filtered_frame_row(
            c,
            data,
            n - 1,
        )
    }
}

/// The compressed payload of one frame: the filtered rows, deflated.
pub open spec fn frame_payload(c: Config, data: Seq<u8>) -> Seq<u8> {
    zlib_of(filtered_stream(c, data, c.height as int))
}

/// The most data an IDAT or fdAT chunk of this encoder will carry.
pub const MAX_FRAME_PAYLOAD: usize = 0xFFFF_FFFB;

/// Whether a pixel buffer of this length fits the configured geometry.
pub open spec fn data_len_ok(c: Config, data: Seq<u8>) -> bool {
    data.len() == expected_data_len(c)
}

/// Whether a frame's compressed payload fits in one chunk, sequence prefix
/// included.
pub open spec fn payload_fits(c: Config, data: Seq<u8>) -> bool {
    frame_payload(c, data).len() <= MAX_FRAME_PAYLOAD
}

/// Whether the frame compressor accepts this pixel buffer.
pub open spec fn frame_ok(c: Config, data: Seq<u8>) -> bool {
    data_len_ok(c, data) && payload_fits(c, data)
}

/// The error the frame compressor reports for a rejected pixel buffer.
pub open spec fn frame_err(c: Config, data: Seq<u8>) -> APNGError {
    if !data_len_ok(c, data) {
        APNGError::WrongDataSize(expected_data_len(c) as usize, data.len() as usize)
    } else {
        APNGError::WrongDataSize(MAX_FRAME_PAYLOAD, frame_payload(c, data).len() as usize)
    }
}

/// The compressed bytes of one frame's payload, without any sequence
/// prefix.
#[derive(Clone, Debug, PartialEq, Eq)]
pub struct ImageBuffer(pub Vec<u8>);

impl ImageBuffer {
    /// Filters and deflates one frame. Rejects a pixel buffer whose length
    /// disagrees with the configured geometry, and a compressed payload too
    /// large for one chunk; otherwise returns exactly the frame's payload.
    pub fn new(config: &Config, png_image: &PNGImage) -> (r: APNGResult<ImageBuffer>)
        requires
            config.wf(),
        ensures
            !data_len_ok(*config, png_image.data@) ==> r == Err::<ImageBuffer, APNGError>(
                APNGError::WrongDataSize(
                    expected_data_len(*config) as usize,
                    png_image.data@.len() as usize,
                ),
            ),
            data_len_ok(*config, png_image.data@) && payload_fits(*config, png_image.data@)
                ==> (r matches Ok(b) && b.0@ == frame_payload(*config, png_image.data@)),
            data_len_ok(*config, png_image.data@) && !payload_fits(*config, png_image.data@)
                ==> r == Err::<ImageBuffer, APNGError>(
                APNGError::WrongDataSize(
                    MAX_FRAME_PAYLOAD,
                    frame_payload(*config, png_image.data@).len() as usize,
                ),
            ),
    {
        let data = &png_image.data;
        let bpp = config.bytes_per_pixel();
        let in_len = config.raw_row_length() - 1;
        let height: usize = config.height as usize;

        assert(row_len(*config) * config.height == expected_data_len(*config));
        let data_size: usize = in_len * height;
        if data_size != data.len() {
            return Err(APNGError::WrongDataSize(data_size, data.len()));
        }

        let mut raw: Vec<u8> = Vec::new();
        let mut prev = zeros(in_len);
        let mut r: usize = 0;
        while r < height
            invariant
                r <= height,
                raw@ == filtered_stream(*config, data@, r as int),
                prev@ == if r == 0 {
                    zero_row(row_len(*config))
                } else {
                    filtered_frame_row(*config, data@, r as int - 1)
                },
                prev@.len() == in_len,
            decreases height - r,
        {
            let mut current: Vec<u8> = Vec::new();
            assert((r as int) * (in_len as int) + in_len <= data@.len()
                && (r as int + 1) * (in_len as int) == (r as int) * (in_len as int) + in_len)
                by (nonlinear_arith)
                requires
                    r < height,
                    data@.len() == (in_len as int) * (height as int),
            ;
            let start = r * in_len;
            let mut j: usize = 0;
            while j < in_len
                invariant
                    j <= in_len,
                    start + in_len <= data@.len(),
                    current@ == data@.subrange(start as int, start as int + j as int),
                decreases in_len - j,
            {
                current.push(data[start + j]);
                assert(current@ =~= data@.subrange(start as int, start as int + j as int + 1));
                j = j + 1;
            }
            assert(current@ =~= row_of(data@, row_len(*config), r as int));
            raw.push(config.filter.code());
            filter(config.filter, bpp, &prev, &mut current);
            push_bytes(&mut raw, current.as_slice());
            assert(raw@ =~= filtered_stream(*config, data@, r as int + 1));
            prev = current;
            r = r + 1;
        }

        let payload = zlib_compress(raw.as_slice());
        if payload.len() > MAX_FRAME_PAYLOAD {
            return Err(APNGError::WrongDataSize(MAX_FRAME_PAYLOAD, payload.len()));
        }
        Ok(ImageBuffer(payload))
    }
}

} // verus!
