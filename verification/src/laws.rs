use vstd::prelude::*;

use crate::bytes::be32;
use crate::chunk::chunk_bytes;
use crate::compress::frame_payload;
use crate::config::Config;
use crate::encoder::{
    actl_data, actl_type, apng_stream, fctl_data, fctl_type, fdat_type, frame_chunks,
    frames_stream, idat_type, iend_chunk, ihdr_data, ihdr_type, png_signature, seq_before, Frame,
};

verus! {

/// Stream shape law: every encoded animation starts with the eight PNG
/// signature bytes, continues immediately with the IHDR chunk, then the
/// acTL chunk; all frame data lies between the acTL and the IEND chunk
/// that ends the stream.
pub proof fn lemma_stream_shape(c: Config, datas: Seq<Seq<u8>>, f: Option<Frame>)
    ensures
        apng_stream(c, datas, f).len() >= 65,
        apng_stream(c, datas, f).take(8) == png_signature(),
        apng_stream(c, datas, f).subrange(8, 33) == chunk_bytes(ihdr_type(), ihdr_data(c)),
        apng_stream(c, datas, f).subrange(33, 53) == chunk_bytes(actl_type(), actl_data(c)),
        apng_stream(c, datas, f).subrange(53, apng_stream(c, datas, f).len() - 12)
            == frames_stream(c, datas, f, 0, datas.len() as int),
        apng_stream(c, datas, f).skip(apng_stream(c, datas, f).len() - 12) == iend_chunk(),
{
    let s = apng_stream(c, datas, f);
    assert(chunk_bytes(ihdr_type(), ihdr_data(c)).len() == 25);
    assert(chunk_bytes(actl_type(), actl_data(c)).len() == 20);
    assert(iend_chunk().len() == 12);
    assert(s.take(8) =~= png_signature());
    assert(s.subrange(8, 33) =~= chunk_bytes(ihdr_type(), ihdr_data(c)));
    assert(s.subrange(33, 53) =~= chunk_bytes(actl_type(), actl_data(c)));
    assert(s.subrange(53, s.len() - 12) =~= frames_stream(c, datas, f, 0, datas.len() as int));
    assert(s.skip(s.len() - 12) =~= iend_chunk());
}

/// Sequence-number law: emitted from a fresh stream, frame k's chunks carry
/// the counter values the format demands - the first frame's fcTL carries
/// 0, and for k at least 2 the last sequence-bearing chunk of k frames is
/// frame k's fdAT carrying 2k - 2, its fcTL carrying 2k - 3 - and the
/// counter afterwards stands at 2k - 1.
pub proof fn lemma_seq_num_law(c: Config, datas: Seq<Seq<u8>>, f: Option<Frame>, k: int)
    requires
        1 <= k <= datas.len(),
        2 * k <= u32::MAX,
    ensures
        seq_before(0, k) == 2 * k - 1,
        k == 1 ==> frames_stream(c, datas, f, 0, 1) == chunk_bytes(fctl_type(), fctl_data(0, c, f))
            + chunk_bytes(idat_type(), frame_payload(c, datas[0])),
        k >= 2 ==> frames_stream(c, datas, f, 0, k) == frames_stream(c, datas, f, 0, k - 1)
            + chunk_bytes(fctl_type(), fctl_data((2 * k - 3) as u32, c, f)) + chunk_bytes(
            fdat_type(),
            be32((2 * k - 2) as u32) + frame_payload(c, datas[k - 1]),
        ),
{
    if k == 1 {
        assert(frames_stream(c, datas, f, 0, 0) =~= Seq::<u8>::empty());
        assert(frames_stream(c, datas, f, 0, 1) =~= chunk_bytes(fctl_type(), fctl_data(0, c, f))
            + chunk_bytes(idat_type(), frame_payload(c, datas[0])));
    } else {
        assert(frames_stream(c, datas, f, 0, k) =~= frames_stream(c, datas, f, 0, k - 1)
            + chunk_bytes(fctl_type(), fctl_data((2 * k - 3) as u32, c, f)) + chunk_bytes(
            fdat_type(),
            be32((2 * k - 2) as u32) + frame_payload(c, datas[k - 1]),
        ));
    }
}

/// The counter before step `i` when frames are handed one at a time to an
/// encoder that routes on its live counter: a step from counter 0 advances
/// it by 1, any other step by 2.
pub open spec fn stepwise_seq(s0: int, i: int) -> int
    decreases i,
{
    if i <= 0 {
        s0
    } else {
        let p = stepwise_seq(s0, i - 1);
        p + if p == 0 {
            1int
        } else {
            2int
        }
    }
}

/// The chunks emitted by handing the first `n` frames one at a time to an
/// encoder that routes on its live counter: a frame meeting counter 0
/// becomes IDAT, every other one fdAT.
pub open spec fn stepwise_stream(
    c: Config,
    datas: Seq<Seq<u8>>,
    f: Option<Frame>,
    s0: int,
    n: int,
) -> Seq<u8>
    decreases n,
{
    if n <= 0 {
        Seq::empty()
    } else {
        stepwise_stream(c, datas, f, s0, n - 1) + frame_chunks(
            c,
            frame_payload(c, datas[n - 1]),
            f,
            stepwise_seq(s0, n - 1) as u32,
            stepwise_seq(s0, n - 1) == 0,
        )
    }
}

proof fn lemma_stepwise_seq_from_zero(i: int)
    requires
        i >= 0,
    ensures
        stepwise_seq(0, i) == seq_before(0, i),
        i >= 1 ==> stepwise_seq(0, i) > 0,
    decreases i,
{
    if i > 0 {
        lemma_stepwise_seq_from_zero(i - 1);
    }
}

/// Emission equivalence law: handing frames one at a time to a fresh
/// encoder that routes on its live counter emits exactly the chunks that
/// encoding all frames at once emits - so a pipeline that compresses frames
/// concurrently but hands the payloads over in submission order produces
/// the byte stream of the sequential encoder.
pub proof fn lemma_emission_equivalence(c: Config, datas: Seq<Seq<u8>>, f: Option<Frame>, n: int)
    requires
        n >= 0,
    ensures
        stepwise_stream(c, datas, f, 0, n) == frames_stream(c, datas, f, 0, n),
    decreases n,
{
    if n > 0 {
        lemma_emission_equivalence(c, datas, f, n - 1);
        lemma_stepwise_seq_from_zero(n - 1);
    }
}

} // verus!
