//! Big-endian encoding of the 32-bit length that heads every protocol frame.
use vstd::prelude::*;

verus! {

/// The number that four bytes denote in big-endian order.
pub open spec fn be_value(b: Seq<u8>) -> int
    recommends
        b.len() == 4,
{
    b[0] * 0x100_0000 + b[1] * 0x1_0000 + b[2] * 0x100 + b[3]
}

/// The four big-endian bytes of a 32-bit value.
pub fn u32_to_be_bytes(v: u32) -> (r: [u8; 4])
    ensures
        r@.len() == 4,
        be_value(r@) == v,
{
    let b0: u8 = (v >> 24u32) as u8;
    let b1: u8 = ((v >> 16u32) & 0xffu32) as u8;
    let b2: u8 = ((v >> 8u32) & 0xffu32) as u8;
    let b3: u8 = (v & 0xffu32) as u8;
    assert(b0 * 0x100_0000 + b1 * 0x1_0000 + b2 * 0x100 + b3 == v) by (bit_vector)
        requires
            b0 == (v >> 24u32) as u8,
            b1 == ((v >> 16u32) & 0xffu32) as u8,
            b2 == ((v >> 8u32) & 0xffu32) as u8,
            b3 == (v & 0xffu32) as u8,
    ;
    let r = [b0, b1, b2, b3];
    assert(r@ =~= seq![b0, b1, b2, b3]);
    r
}

/// The 32-bit value that four big-endian bytes denote.
pub fn u32_from_be_bytes(b: [u8; 4]) -> (v: u32)
    ensures
        v == be_value(b@),
{
    let b0 = b[0];
    let b1 = b[1];
    let b2 = b[2];
    let b3 = b[3];
    let v: u32 = ((b0 as u32) << 24u32) | ((b1 as u32) << 16u32) | ((b2 as u32) << 8u32) | (b3 as u32);
    assert(v == b0 * 0x100_0000 + b1 * 0x1_0000 + b2 * 0x100 + b3) by (bit_vector)
        requires
            v == ((b0 as u32) << 24u32) | ((b1 as u32) << 16u32) | ((b2 as u32) << 8u32) | (b3 as u32),
    ;
    v
}

/// Four bytes are determined by the value they denote: two headers that
/// denote the same length are the same bytes.
pub proof fn lemma_be_value_injective(a: Seq<u8>, b: Seq<u8>)
    requires
        a.len() == 4,
        b.len() == 4,
        be_value(a) == be_value(b),
    ensures
        a == b,
{
    let (a0, a1, a2, a3) = (a[0], a[1], a[2], a[3]);
    let (b0, b1, b2, b3) = (b[0], b[1], b[2], b[3]);
    assert(a0 == b0 && a1 == b1 && a2 == b2 && a3 == b3) by (nonlinear_arith)
        requires
            a0 * 0x100_0000 + a1 * 0x1_0000 + a2 * 0x100 + a3 == b0 * 0x100_0000 + b1 * 0x1_0000
                + b2 * 0x100 + b3,
            0 <= a0 < 256, 0 <= a1 < 256, 0 <= a2 < 256, 0 <= a3 < 256,
            0 <= b0 < 256, 0 <= b1 < 256, 0 <= b2 < 256, 0 <= b3 < 256,
    ;
    assert(a =~= b);
}

/// Every value of four bytes lies in the range of `u32`.
pub proof fn lemma_be_value_bounds(b: Seq<u8>)
    requires
        b.len() == 4,
    ensures
        0 <= be_value(b) <= u32::MAX,
{
}

} // verus!
