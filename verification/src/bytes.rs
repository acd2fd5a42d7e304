use vstd::prelude::*;

verus! {

/// The four big-endian bytes of a 32-bit integer.
pub open spec fn be32(x: u32) -> Seq<u8> {
    seq![
        (x / 0x1000000) as u8,
        ((x / 0x10000) % 256) as u8,
        ((x / 0x100) % 256) as u8,
        (x % 256) as u8,
    ]
}

/// The two big-endian bytes of a 16-bit integer.
pub open spec fn be16(x: u16) -> Seq<u8> {
    seq![(x / 0x100) as u8, (x % 256) as u8]
}

/// Appends the big-endian encoding of `x`.
pub fn push_be32(out: &mut Vec<u8>, x: u32)
    ensures
        final(out)@ == old(out)@ + be32(x),
{
    out.push((x / 0x1000000) as u8);
    out.push(((x / 0x10000) % 256) as u8);
    out.push(((x / 0x100) % 256) as u8);
    out.push((x % 256) as u8);
    assert(out@ =~= old(out)@ + be32(x));
}

/// Appends the big-endian encoding of `x`.
pub fn push_be16(out: &mut Vec<u8>, x: u16)
    ensures
        final(out)@ == old(out)@ + be16(x),
{
    out.push((x / 0x100) as u8);
    out.push((x % 256) as u8);
    assert(out@ =~= old(out)@ + be16(x));
}

/// Appends a copy of `data`.
pub fn push_bytes(out: &mut Vec<u8>, data: &[u8])
    ensures
        final(out)@ == old(out)@ + data@,
{
    let mut i: usize = 0;
    while i < data.len()
        invariant
            i <= data.len(),
            out@ == old(out)@ + data@.take(i as int),
        decreases data.len() - i,
    {
        out.push(data[i]);
        i = i + 1;
        assert(out@ =~= old(out)@ + data@.take(i as int));
    }
    assert(data@.take(data@.len() as int) =~= data@);
}

/// A vector of `n` zero bytes.
pub fn zeros(n: usize) -> (r: Vec<u8>)
    ensures
        r@ == Seq::new(n as nat, |i: int| 0u8),
{
    let mut r: Vec<u8> = Vec::new();
    while r.len() < n
        invariant
            r@ == Seq::new(r@.len(), |i: int| 0u8),
            r@.len() <= n,
        decreases n - r@.len(),
    {
        r.push(0u8);
        assert(r@ =~= Seq::new(r@.len(), |i: int| 0u8));
    }
    assert(r@ =~= Seq::new(n as nat, |i: int| 0u8));
    r
}

} // verus!
