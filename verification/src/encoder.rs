use vstd::prelude::*;

use crate::bytes::{be16, be32, push_be16, push_be32, push_bytes};
use crate::chunk::{chunk_bytes, write_chunk};
use crate::compress::{frame_err, frame_ok, frame_payload, ImageBuffer, MAX_FRAME_PAYLOAD};
use crate::config::Config;
use crate::errors::{APNGError, APNGResult};
use crate::png::PNGImage;

verus! {

/// Optional per-frame overrides; a missing field falls back to the
/// configuration's dimensions, offset 0, delay 1/3, and the no-op
/// compositing directives.
#[derive(Clone, Debug, Eq, PartialEq)]
pub struct Frame {
    pub width: Option<u32>,
    pub height: Option<u32>,
    pub offset_x: Option<u32>,
    pub offset_y: Option<u32>,
    /// Numerator of the frame delay.
    pub delay_num: Option<u16>,
    /// Denominator of the frame delay.
    pub delay_den: Option<u16>,
    /// What to do with the output buffer before rendering the next frame.
    pub dispose_op: Option<DisposeOp>,
    /// Whether the frame is alpha-blended over or replaces the output buffer.
    pub blend_op: Option<BlendOp>,
}

impl Default for Frame {
    fn default() -> (r: Self)
        ensures
            r == (Frame {
                width: None,
                height: None,
                offset_x: None,
                offset_y: None,
                delay_num: None,
                delay_den: None,
                dispose_op: None,
                blend_op: None,
            }),
    {
        Frame {
            width: None,
            height: None,
            offset_x: None,
            offset_y: None,
            delay_num: None,
            delay_den: None,
            dispose_op: None,
            blend_op: None,
        }
    }
}

/// The APNG dispose operations.
#[derive(Clone, Copy, Debug, Eq, PartialEq, Structural)]
pub enum DisposeOp {
    ApngDisposeOpNone,
    ApngDisposeOpBackground,
    ApngDisposeOpPrevious,
}

impl DisposeOp {
    /// The byte this operation occupies in an fcTL chunk.
    pub open spec fn code_spec(self) -> u8 {
        match self {
            DisposeOp::ApngDisposeOpNone => 0,
            DisposeOp::ApngDisposeOpBackground => 1,
            DisposeOp::ApngDisposeOpPrevious => 2,
        }
    }

    pub fn code(&self) -> (r: u8)
        ensures
            r == self.code_spec(),
    {
        match self {
            DisposeOp::ApngDisposeOpNone => 0,
            DisposeOp::ApngDisposeOpBackground => 1,
            DisposeOp::ApngDisposeOpPrevious => 2,
        }
    }
}

/// The APNG blend operations.
#[derive(Clone, Copy, Debug, Eq, PartialEq, Structural)]
pub enum BlendOp {
    ApngBlendOpSource,
    ApngBlendOpOver,
}

impl BlendOp {
    /// The byte this operation occupies in an fcTL chunk.
    pub open spec fn code_spec(self) -> u8 {
        match self {
            BlendOp::ApngBlendOpSource => 0,
            BlendOp::ApngBlendOpOver => 1,
        }
    }

    pub fn code(&self) -> (r: u8)
        ensures
            r == self.code_spec(),
    {
        match self {
            BlendOp::ApngBlendOpSource => 0,
            BlendOp::ApngBlendOpOver => 1,
        }
    }
}

/// The per-frame override seen through a borrow.
pub open spec fn opt_frame(f: Option<&Frame>) -> Option<Frame> {
    match f {
        Some(fr) => Some(*fr),
        None => None,
    }
}

/// The frame width an fcTL chunk carries.
pub open spec fn fr_width(c: Config, f: Option<Frame>) -> u32 {
    match f {
        Some(fr) => match fr.width {
            Some(v) => v,
            None => c.width,
        },
        None => c.width,
    }
}

/// The frame height an fcTL chunk carries.
pub open spec fn fr_height(c: Config, f: Option<Frame>) -> u32 {
    match f {
        Some(fr) => match fr.height {
            Some(v) => v,
            None => c.height,
        },
        None => c.height,
    }
}

/// The x offset an fcTL chunk carries; 0 unless overridden.
pub open spec fn fr_offset_x(f: Option<Frame>) -> u32 {
    match f {
        Some(fr) => match fr.offset_x {
            Some(v) => v,
            None => 0,
        },
        None => 0,
    }
}

/// The y offset an fcTL chunk carries; 0 unless overridden.
pub open spec fn fr_offset_y(f: Option<Frame>) -> u32 {
    match f {
        Some(fr) => match fr.offset_y {
            Some(v) => v,
            None => 0,
        },
        None => 0,
    }
}

/// The delay numerator an fcTL chunk carries; 1 unless overridden.
pub open spec fn fr_delay_num(f: Option<Frame>) -> u16 {
    match f {
        Some(fr) => match fr.delay_num {
            Some(v) => v,
            None => 1,
        },
        None => 1,
    }
}

/// The delay denominator an fcTL chunk carries; 3 unless overridden.
pub open spec fn fr_delay_den(f: Option<Frame>) -> u16 {
    match f {
        Some(fr) => match fr.delay_den {
            Some(v) => v,
            None => 3,
        },
        None => 3,
    }
}

/// The dispose operation an fcTL chunk carries.
pub open spec fn fr_dispose(f: Option<Frame>) -> DisposeOp {
    match f {
        Some(fr) => match fr.dispose_op {
            Some(v) => v,
            None => DisposeOp::ApngDisposeOpNone,
        },
        None => DisposeOp::ApngDisposeOpNone,
    }
}

/// The blend operation an fcTL chunk carries.
pub open spec fn fr_blend(f: Option<Frame>) -> BlendOp {
    match f {
        Some(fr) => match fr.blend_op {
            Some(v) => v,
            None => BlendOp::ApngBlendOpSource,
        },
        None => BlendOp::ApngBlendOpSource,
    }
}

/// The eight signature bytes every PNG stream starts with.
pub open spec fn png_signature() -> Seq<u8> {
    seq![0x89u8, 0x50u8, 0x4Eu8, 0x47u8, 0x0Du8, 0x0Au8, 0x1Au8, 0x0Au8]
}

pub open spec fn ihdr_type() -> Seq<u8> {
    seq![0x49u8, 0x48u8, 0x44u8, 0x52u8]
}

pub open spec fn actl_type() -> Seq<u8> {
    seq![0x61u8, 0x63u8, 0x54u8, 0x4Cu8]
}

pub open spec fn fctl_type() -> Seq<u8> {
    seq![0x66u8, 0x63u8, 0x54u8, 0x4Cu8]
}

pub open spec fn idat_type() -> Seq<u8> {
    seq![0x49u8, 0x44u8, 0x41u8, 0x54u8]
}

pub open spec fn fdat_type() -> Seq<u8> {
    seq![0x66u8, 0x64u8, 0x41u8, 0x54u8]
}

pub open spec fn iend_type() -> Seq<u8> {
    seq![0x49u8, 0x45u8, 0x4Eu8, 0x44u8]
}

/// The 13 bytes of IHDR data: width, height, depth, color type, and the
/// fixed compression, filter and interlace methods.
pub open spec fn ihdr_data(c: Config) -> Seq<u8> {
    be32(c.width) + be32(c.height) + seq![
        c.depth.code_spec(),
        c.color.code_spec(),
        0u8,
        0u8,
        0u8,
    ]
}

/// The 8 bytes of acTL data: frame count and play count.
pub open spec fn actl_data(c: Config) -> Seq<u8> {
    be32(c.num_frames) + be32(c.num_plays)
}

/// The 26 bytes of fcTL data: sequence number, geometry, delay, and the
/// compositing directives, defaults resolved.
pub open spec fn fctl_data(seq: u32, c: Config, f: Option<Frame>) -> Seq<u8> {
    be32(seq) + be32(fr_width(c, f)) + be32(fr_height(c, f)) + be32(fr_offset_x(f)) + be32(
        fr_offset_y(f),
    ) + be16(fr_delay_num(f)) + be16(fr_delay_den(f)) + seq![
        fr_dispose(f).code_spec(),
        fr_blend(f).code_spec(),
    ]
}

/// Everything before the first frame: signature, IHDR, acTL.
pub open spec fn header_stream(c: Config) -> Seq<u8> {
    png_signature() + chunk_bytes(ihdr_type(), ihdr_data(c)) + chunk_bytes(actl_type(), actl_data(c))
}

/// The IEND chunk that terminates a stream.
pub open spec fn iend_chunk() -> Seq<u8> {
    chunk_bytes(iend_type(), Seq::empty())
}

/// The two chunks of one frame: its fcTL, then IDAT for the stream's first
/// frame or fdAT with the following sequence number for every other frame.
pub open spec fn frame_chunks(
    c: Config,
    payload: Seq<u8>,
    f: Option<Frame>,
    seq: u32,
    first: bool,
) -> Seq<u8> {
    chunk_bytes(fctl_type(), fctl_data(seq, c, f)) + if first {
        chunk_bytes(idat_type(), payload)
    } else {
        chunk_bytes(fdat_type(), be32((seq + 1) as u32) + payload)
    }
}

/// The sequence counter before frame `i` of a run that starts at `s0`:
/// the first frame advances it by 1 (its fcTL), every later one by 2
/// (fcTL and fdAT).
pub open spec fn seq_before(s0: int, i: int) -> int {
    if i <= 0 {
        s0
    } else {
        s0 + 2 * i - 1
    }
}

/// The chunks of the first `n` frames of `datas`, emitted in order, frame 0
/// as IDAT and the rest as fdAT.
pub open spec fn frames_stream(
    c: Config,
    datas: Seq<Seq<u8>>,
    f: Option<Frame>,
    s0: int,
    n: int,
) -> Seq<u8>
    decreases n,
{
    if n <= 0 {
        Seq::empty()
    } else {
        frames_stream(c, datas, f, s0, n - 1) + frame_chunks(
            c,
            frame_payload(c, datas[n - 1]),
            f,
            seq_before(s0, n - 1) as u32,
            n - 1 == 0,
        )
    }
}

/// A whole animation: header, every frame's chunks, IEND.
pub open spec fn apng_stream(c: Config, datas: Seq<Seq<u8>>, f: Option<Frame>) -> Seq<u8> {
    header_stream(c) + frames_stream(c, datas, f, 0, datas.len() as int) + iend_chunk()
}

/// The index of the first frame the encoder rejects, or the list's length
/// if it accepts them all.
pub open spec fn first_bad(c: Config, datas: Seq<Seq<u8>>, i: int) -> int
    decreases datas.len() - i,
{
    if i >= datas.len() {
        datas.len() as int
    } else if !frame_ok(c, datas[i]) {
        i
    } else {
        first_bad(c, datas, i + 1)
    }
}

/// How many frames a counter value says were emitted: each frame past the
/// first advanced it twice, the first once.
pub open spec fn frames_written(seq: u32) -> int {
    (seq + 1) / 2
}

proof fn lemma_first_bad_is(c: Config, datas: Seq<Seq<u8>>, k: int, i: int)
    requires
        0 <= k <= i <= datas.len(),
        forall|m: int| k <= m < i ==> frame_ok(c, datas[m]),
        i < datas.len() ==> !frame_ok(c, datas[i]),
    ensures
        first_bad(c, datas, k) == i,
    decreases i - k,
{
    if k < i {
        lemma_first_bad_is(c, datas, k + 1, i);
    }
}

/// The streaming APNG encoder. It appends chunks to `out` and owns the
/// 32-bit sequence counter shared by fcTL and fdAT chunks.
#[derive(Debug, PartialEq, Eq)]
pub struct Encoder {
    pub config: Config,
    /// The byte stream emitted so far.
    pub out: Vec<u8>,
    /// The next sequence number an fcTL or fdAT chunk will carry.
    pub seq_num: u32,
}

impl Encoder {
    /// Starts a stream: emits the signature, IHDR and acTL, and leaves the
    /// counter at 0.
    pub fn new(config: Config) -> (r: APNGResult<Encoder>)
        ensures
            r matches Ok(e) && e.config == config && e.seq_num == 0 && e.out@ == header_stream(
                config,
            ),
    {
        let mut e = Encoder { config, out: Vec::new(), seq_num: 0 };
        e.write_png_header();
        e.write_ihdr();
        e.write_ac_tl();
        assert(e.out@ =~= header_stream(config));
        Ok(e)
    }

    fn write_png_header(&mut self)
        ensures
            final(self).out@ == old(self).out@ + png_signature(),
            final(self).config == old(self).config,
            final(self).seq_num == old(self).seq_num,
    {
        let sig: [u8; 8] = [0x89, 0x50, 0x4E, 0x47, 0x0D, 0x0A, 0x1A, 0x0A];
        push_bytes(&mut self.out, sig.as_slice());
        assert(self.out@ =~= old(self).out@ + png_signature());
    }

    fn write_ihdr(&mut self)
        ensures
            final(self).out@ == old(self).out@ + chunk_bytes(ihdr_type(), ihdr_data(old(self).config)),
            final(self).config == old(self).config,
            final(self).seq_num == old(self).seq_num,
    {
        let mut buf: Vec<u8> = Vec::new();
        push_be32(&mut buf, self.config.width);
        push_be32(&mut buf, self.config.height);
        buf.push(self.config.depth.code());
        buf.push(self.config.color.code());
        buf.push(0);
        buf.push(0);
        buf.push(0);
        assert(buf@ =~= ihdr_data(self.config));
        let t: [u8; 4] = [0x49, 0x48, 0x44, 0x52];
        assert(t@ =~= ihdr_type());
        write_chunk(&mut self.out, buf.as_slice(), t);
    }

    fn write_ac_tl(&mut self)
        ensures
            final(self).out@ == old(self).out@ + chunk_bytes(actl_type(), actl_data(old(self).config)),
            final(self).config == old(self).config,
            final(self).seq_num == old(self).seq_num,
    {
        let mut buf: Vec<u8> = Vec::new();
        push_be32(&mut buf, self.config.num_frames);
        push_be32(&mut buf, self.config.num_plays);
        assert(buf@ =~= actl_data(self.config));
        let t: [u8; 4] = [0x61, 0x63, 0x54, 0x4C];
        assert(t@ =~= actl_type());
        write_chunk(&mut self.out, buf.as_slice(), t);
    }

    fn write_fc_tl(&mut self, frame: Option<&Frame>)
        requires
            old(self).seq_num < u32::MAX,
        ensures
            final(self).out@ == old(self).out@ + chunk_bytes(
                fctl_type(),
                fctl_data(old(self).seq_num, old(self).config, opt_frame(frame)),
            ),
            final(self).config == old(self).config,
            final(self).seq_num == old(self).seq_num + 1,
    {
        let c_width = match frame {
            Some(f) => match f.width {
                Some(v) => v,
                None => self.config.width,
            },
            None => self.config.width,
        };
        let c_height = match frame {
            Some(f) => match f.height {
                Some(v) => v,
                None => self.config.height,
            },
            None => self.config.height,
        };
        let c_off_x = match frame {
            Some(f) => match f.offset_x {
                Some(v) => v,
                None => 0,
            },
            None => 0,
        };
        let c_off_y = match frame {
            Some(f) => match f.offset_y {
                Some(v) => v,
                None => 0,
            },
            None => 0,
        };
        let c_delay_num = match frame {
            Some(f) => match f.delay_num {
                Some(v) => v,
                None => 1,
            },
            None => 1,
        };
        let c_delay_den = match frame {
            Some(f) => match f.delay_den {
                Some(v) => v,
                None => 3,
            },
            None => 3,
        };
        let dis = match frame {
            Some(f) => match f.dispose_op {
                Some(v) => v,
                None => DisposeOp::ApngDisposeOpNone,
            },
            None => DisposeOp::ApngDisposeOpNone,
        };
        let ble = match frame {
            Some(f) => match f.blend_op {
                Some(v) => v,
                None => BlendOp::ApngBlendOpSource,
            },
            None => BlendOp::ApngBlendOpSource,
        };
        let mut buf: Vec<u8> = Vec::new();
        push_be32(&mut buf, self.seq_num);
        push_be32(&mut buf, c_width);
        push_be32(&mut buf, c_height);
        push_be32(&mut buf, c_off_x);
        push_be32(&mut buf, c_off_y);
        push_be16(&mut buf, c_delay_num);
        push_be16(&mut buf, c_delay_den);
        buf.push(dis.code());
        buf.push(ble.code());
        assert(buf@ =~= fctl_data(self.seq_num, self.config, opt_frame(frame)));
        let t: [u8; 4] = [0x66, 0x63, 0x54, 0x4C];
        assert(t@ =~= fctl_type());
        write_chunk(&mut self.out, buf.as_slice(), t);
        self.seq_num = self.seq_num + 1;
    }

    fn write_idats(&mut self, data: &ImageBuffer)
        requires
            data.0@.len() <= MAX_FRAME_PAYLOAD,
        ensures
            final(self).out@ == old(self).out@ + chunk_bytes(idat_type(), data.0@),
            final(self).config == old(self).config,
            final(self).seq_num == old(self).seq_num,
    {
        let t: [u8; 4] = [0x49, 0x44, 0x41, 0x54];
        assert(t@ =~= idat_type());
        write_chunk(&mut self.out, data.0.as_slice(), t);
    }

    fn write_fd_at(&mut self, data: &ImageBuffer)
        requires
            old(self).seq_num < u32::MAX,
            data.0@.len() <= MAX_FRAME_PAYLOAD,
        ensures
            final(self).out@ == old(self).out@ + chunk_bytes(
                fdat_type(),
                be32(old(self).seq_num) + data.0@,
            ),
            final(self).config == old(self).config,
            final(self).seq_num == old(self).seq_num + 1,
    {
        let mut buf: Vec<u8> = Vec::new();
        push_be32(&mut buf, self.seq_num);
        push_bytes(&mut buf, data.0.as_slice());
        assert(buf@ =~= be32(self.seq_num) + data.0@);
        let t: [u8; 4] = [0x66, 0x64, 0x41, 0x54];
        assert(t@ =~= fdat_type());
        write_chunk(&mut self.out, buf.as_slice(), t);
        self.seq_num = self.seq_num + 1;
    }

    fn write_iend(&mut self)
        ensures
            final(self).out@ == old(self).out@ + iend_chunk(),
            final(self).config == old(self).config,
            final(self).seq_num == old(self).seq_num,
    {
        let e: [u8; 0] = [];
        let t: [u8; 4] = [0x49, 0x45, 0x4E, 0x44];
        assert(t@ =~= iend_type());
        assert(e@ =~= Seq::<u8>::empty());
        write_chunk(&mut self.out, e.as_slice(), t);
    }

    /// Emits a frame's fcTL followed by its payload as IDAT; for the
    /// stream's first frame.
    pub fn write_first_frame(&mut self, image_buffer: &ImageBuffer, frame: Option<&Frame>) -> (r:
        APNGResult<()>)
        requires
            old(self).seq_num < u32::MAX,
            image_buffer.0@.len() <= MAX_FRAME_PAYLOAD,
        ensures
            r is Ok,
            final(self).out@ == old(self).out@ + frame_chunks(
                old(self).config,
                image_buffer.0@,
                opt_frame(frame),
                old(self).seq_num,
                true,
            ),
            final(self).config == old(self).config,
            final(self).seq_num == old(self).seq_num + 1,
    {
        self.write_fc_tl(frame);
        self.write_idats(image_buffer);
        assert(self.out@ =~= old(self).out@ + frame_chunks(
            old(self).config,
            image_buffer.0@,
            opt_frame(frame),
            old(self).seq_num,
            true,
        ));
        Ok(())
    }

    /// Emits a frame's fcTL followed by its payload as fdAT with the next
    /// sequence number; for every frame after the first.
    pub fn write_rest_frame(&mut self, image_buffer: &ImageBuffer, frame: Option<&Frame>) -> (r:
        APNGResult<()>)
        requires
            old(self).seq_num + 2 <= u32::MAX,
            image_buffer.0@.len() <= MAX_FRAME_PAYLOAD,
        ensures
            r is Ok,
            final(self).out@ == old(self).out@ + frame_chunks(
                old(self).config,
                image_buffer.0@,
                opt_frame(frame),
                old(self).seq_num,
                false,
            ),
            final(self).config == old(self).config,
            final(self).seq_num == old(self).seq_num + 2,
    {
        self.write_fc_tl(frame);
        self.write_fd_at(image_buffer);
        assert(self.out@ =~= old(self).out@ + frame_chunks(
            old(self).config,
            image_buffer.0@,
            opt_frame(frame),
            old(self).seq_num,
            false,
        ));
        Ok(())
    }

    /// Compresses one image and emits its chunks, routing on the counter:
    /// a fresh encoder writes the frame as IDAT, a used one as fdAT.
    /// Rejects the image exactly as the frame compressor does, leaving the
    /// stream untouched.
    pub fn write_frame(&mut self, image: &PNGImage, frame: Frame) -> (r: APNGResult<()>)
        requires
            old(self).config.wf(),
            old(self).seq_num + 2 <= u32::MAX,
        ensures
            final(self).config == old(self).config,
            !frame_ok(old(self).config, image.data@) ==> (r == Err::<(), APNGError>(
                frame_err(old(self).config, image.data@),
            ) && final(self).out@ == old(self).out@ && final(self).seq_num == old(self).seq_num),
            frame_ok(old(self).config, image.data@) && old(self).seq_num == 0 ==> (r is Ok
                && final(self).out@ == old(self).out@ + frame_chunks(
                old(self).config,
                frame_payload(old(self).config, image.data@),
                Some(frame),
                0,
                true,
            ) && final(self).seq_num == 1),
            frame_ok(old(self).config, image.data@) && old(self).seq_num != 0 ==> (r is Ok
                && final(self).out@ == old(self).out@ + frame_chunks(
                old(self).config,
                frame_payload(old(self).config, image.data@),
                Some(frame),
                old(self).seq_num,
                false,
            ) && final(self).seq_num == old(self).seq_num + 2),
    {
        let image_buffer = match ImageBuffer::new(&self.config, image) {
            Ok(b) => b,
            Err(e) => {
                return Err(e);
            },
        };
        if self.seq_num == 0 {
            self.write_first_frame(&image_buffer, Some(&frame))
        } else {
            self.write_rest_frame(&image_buffer, Some(&frame))
        }
    }

    /// Compresses and emits every image in order - the first as IDAT, the
    /// rest as fdAT - then terminates the stream with IEND. Stops at the
    /// first rejected image with its error, everything before it already
    /// emitted.
    pub fn encode_all(&mut self, images: Vec<PNGImage>, frame: Option<&Frame>) -> (r: APNGResult<
        (),
    >)
        requires
            old(self).config.wf(),
            old(self).seq_num + 2 * images@.len() <= u32::MAX,
        ensures
            final(self).config == old(self).config,
            ({
                let c = old(self).config;
                let datas = images@.map_values(|im: PNGImage| im.data@);
                let s0 = old(self).seq_num as int;
                let j = first_bad(c, datas, 0);
                &&& (j == datas.len() ==> (r is Ok && final(self).out@ == old(self).out@
                    + frames_stream(c, datas, opt_frame(frame), s0, datas.len() as int)
                    + iend_chunk() && final(self).seq_num as int == seq_before(
                    s0,
                    datas.len() as int,
                )))
                &&& (j < datas.len() ==> (r == Err::<(), APNGError>(frame_err(c, datas[j]))
                    && final(self).out@ == old(self).out@ + frames_stream(
                    c,
                    datas,
                    opt_frame(frame),
                    s0,
                    j,
                ) && final(self).seq_num as int == seq_before(s0, j)))
            }),
    {
        let ghost c = self.config;
        let ghost datas = images@.map_values(|im: PNGImage| im.data@);
        let ghost s0 = self.seq_num as int;
        let mut i: usize = 0;
        while i < images.len()
            invariant
                i <= images@.len(),
                self.config == c,
                self.config.wf(),
                datas == images@.map_values(|im: PNGImage| im.data@),
                s0 + 2 * images@.len() <= u32::MAX,
                forall|m: int| 0 <= m < i ==> frame_ok(c, datas[m]),
                self.out@ == old(self).out@ + frames_stream(
                    c,
                    datas,
                    opt_frame(frame),
                    s0,
                    i as int,
                ),
                self.seq_num as int == seq_before(s0, i as int),
            decreases images@.len() - i,
        {
            let image_buffer = match ImageBuffer::new(&self.config, &images[i]) {
                Ok(b) => b,
                Err(e) => {
                    proof {
                        lemma_first_bad_is(c, datas, 0, i as int);
                    }
                    return Err(e);
                },
            };
            if i == 0 {
                let _ = self.write_first_frame(&image_buffer, frame);
            } else {
                let _ = self.write_rest_frame(&image_buffer, frame);
            }
            assert(self.out@ =~= old(self).out@ + frames_stream(
                c,
                datas,
                opt_frame(frame),
                s0,
                i as int + 1,
            ));
            i = i + 1;
        }
        proof {
            lemma_first_bad_is(c, datas, 0, images@.len() as int);
        }
        self.write_iend();
        Ok(())
    }

    /// Checks that every declared frame was emitted and, if so, terminates
    /// the stream with IEND; otherwise reports the declared and the actual
    /// frame count and leaves the stream untouched.
    pub fn finish_encode(&mut self) -> (r: APNGResult<()>)
        ensures
            final(self).config == old(self).config,
            final(self).seq_num == old(self).seq_num,
            old(self).config.num_frames > frames_written(old(self).seq_num) ==> (r == Err::<
                (),
                APNGError,
            >(
                APNGError::WrongFrameNums(
                    old(self).config.num_frames as usize,
                    frames_written(old(self).seq_num) as usize,
                ),
            ) && final(self).out@ == old(self).out@),
            old(self).config.num_frames <= frames_written(old(self).seq_num) ==> (r is Ok
                && final(self).out@ == old(self).out@ + iend_chunk()),
    {
        let encoded_frames: u32 = self.seq_num / 2 + self.seq_num % 2;
        assert(encoded_frames == frames_written(self.seq_num));
        if self.config.num_frames > encoded_frames {
            return Err(
                APNGError::WrongFrameNums(self.config.num_frames as usize, encoded_frames as usize),
            );
        }
        self.write_iend();
        Ok(())
    }
}

} // verus!
