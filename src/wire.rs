//! Byte-level helpers shared by both protocol versions.
use vstd::prelude::*;

verus! {

/// A port in network byte order.
pub open spec fn port_bytes(port: u16) -> Seq<u8> {
    seq![(port / 256) as u8, (port % 256) as u8]
}

/// A big-endian 16-bit value read from two bytes.
pub open spec fn port_of(hi: u8, lo: u8) -> u16 {
    (hi as int * 256 + lo as int) as u16
}

/// Appends the bytes of `src` to `out`.
pub fn push_all(out: &mut Vec<u8>, src: &[u8])
    ensures
        final(out)@ == old(out)@ + src@,
{
    let mut i: usize = 0;
    while i < src.len()
        invariant
            0 <= i <= src@.len(),
            out@ == old(out)@ + src@.subrange(0, i as int),
        decreases src@.len() - i,
    {
        out.push(src[i]);
        i = i + 1;
        assert(src@.subrange(0, i as int) == src@.subrange(0, (i - 1) as int).push(src@[i - 1]));
    }
    assert(src@.subrange(0, src@.len() as int) == src@);
}

/// Appends a port in network byte order to `out`.
pub fn push_port(out: &mut Vec<u8>, port: u16)
    ensures
        final(out)@ == old(out)@ + port_bytes(port),
{
    out.push((port / 256) as u8);
    out.push((port % 256) as u8);
    assert(out@ == old(out)@ + port_bytes(port));
}

} // verus!

verus! {

/// A copy of the bytes `src[start..end]`.
pub fn copy_range(src: &[u8], start: usize, end: usize) -> (r: Vec<u8>)
    requires
        start <= end <= src@.len(),
    ensures
        r@ == src@.subrange(start as int, end as int),
{
    let mut out: Vec<u8> = Vec::new();
    let mut i: usize = start;
    while i < end
        invariant
            start <= i <= end <= src@.len(),
            out@ == src@.subrange(start as int, i as int),
        decreases end - i,
    {
        out.push(src[i]);
        i = i + 1;
        assert(src@.subrange(start as int, i as int) == src@.subrange(start as int, (i - 1) as int).push(src@[i - 1]));
    }
    out
}

} // verus!
