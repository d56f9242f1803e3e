//! Fixed-width big-endian encoding of the 64-bit read counter: the
//! counter is persisted as exactly eight bytes, most significant
//! first, and must round-trip exactly.

use vstd::prelude::*;

verus! {

/// The eight big-endian bytes of `n`, most significant first.
pub open spec fn be_bytes_of(n: u64) -> Seq<u8> {
    seq![
        (n >> 56) as u8,
        (n >> 48) as u8,
        (n >> 40) as u8,
        (n >> 32) as u8,
        (n >> 24) as u8,
        (n >> 16) as u8,
        (n >> 8) as u8,
        n as u8,
    ]
}

/// The counter value read back from eight big-endian bytes.
pub open spec fn be_val(b: Seq<u8>) -> u64
    recommends
        b.len() == 8,
{
    ((b[0] as u64) << 56) | ((b[1] as u64) << 48) | ((b[2] as u64) << 40) | ((b[3] as u64) << 32)
        | ((b[4] as u64) << 24) | ((b[5] as u64) << 16) | ((b[6] as u64) << 8) | (b[7] as u64)
}

/// Decoding inverts encoding.
pub proof fn lemma_be_val_of_bytes(n: u64)
    ensures
        be_val(be_bytes_of(n)) == n,
{
    let b = be_bytes_of(n);
    let b0 = b[0];
    let b1 = b[1];
    let b2 = b[2];
    let b3 = b[3];
    let b4 = b[4];
    let b5 = b[5];
    let b6 = b[6];
    let b7 = b[7];
    assert(((b0 as u64) << 56) | ((b1 as u64) << 48) | ((b2 as u64) << 40) | ((b3 as u64) << 32) | (
    (b4 as u64) << 24) | ((b5 as u64) << 16) | ((b6 as u64) << 8) | (b7 as u64) == n)
        by (bit_vector)
        requires
            b0 == (n >> 56) as u8,
            b1 == (n >> 48) as u8,
            b2 == (n >> 40) as u8,
            b3 == (n >> 32) as u8,
            b4 == (n >> 24) as u8,
            b5 == (n >> 16) as u8,
            b6 == (n >> 8) as u8,
            b7 == n as u8,
    ;
}

/// Encoding inverts decoding: eight bytes are reproduced exactly by
/// encoding the value they decode to.
pub proof fn lemma_be_bytes_of_val(b: Seq<u8>)
    requires
        b.len() == 8,
    ensures
        be_bytes_of(be_val(b)) =~= b,
{
    let n = be_val(b);
    let b0 = b[0];
    let b1 = b[1];
    let b2 = b[2];
    let b3 = b[3];
    let b4 = b[4];
    let b5 = b[5];
    let b6 = b[6];
    let b7 = b[7];
    assert((n >> 56) as u8 == b0 && (n >> 48) as u8 == b1 && (n >> 40) as u8 == b2 && (n
        >> 32) as u8 == b3 && (n >> 24) as u8 == b4 && (n >> 16) as u8 == b5 && (n >> 8) as u8 == b6
        && n as u8 == b7) by (bit_vector)
        requires
            n == ((b0 as u64) << 56) | ((b1 as u64) << 48) | ((b2 as u64) << 40) | ((b3 as u64)
                << 32) | ((b4 as u64) << 24) | ((b5 as u64) << 16) | ((b6 as u64) << 8) | (
            b7 as u64),
    ;
}

/// Encodes `n` as its eight big-endian bytes.
pub fn be_encode(n: u64) -> (r: Vec<u8>)
    ensures
        r@ =~= be_bytes_of(n),
{
    let mut v: Vec<u8> = Vec::new();
    v.push(((n >> 56) & 0xff) as u8);
    v.push(((n >> 48) & 0xff) as u8);
    v.push(((n >> 40) & 0xff) as u8);
    v.push(((n >> 32) & 0xff) as u8);
    v.push(((n >> 24) & 0xff) as u8);
    v.push(((n >> 16) & 0xff) as u8);
    v.push(((n >> 8) & 0xff) as u8);
    v.push((n & 0xff) as u8);
    proof {
        assert(((n >> 56) & 0xff) as u8 == (n >> 56) as u8 && ((n >> 48) & 0xff) as u8 == (n
            >> 48) as u8 && ((n >> 40) & 0xff) as u8 == (n >> 40) as u8 && ((n >> 32) & 0xff) as u8
            == (n >> 32) as u8 && ((n >> 24) & 0xff) as u8 == (n >> 24) as u8 && ((n >> 16)
            & 0xff) as u8 == (n >> 16) as u8 && ((n >> 8) & 0xff) as u8 == (n >> 8) as u8 && (n
            & 0xff) as u8 == n as u8) by (bit_vector);
    }
    v
}

/// Decodes eight big-endian bytes back to the counter value; any
/// other length is refused.
pub fn be_decode(b: &Vec<u8>) -> (r: Option<u64>)
    ensures
        r is Some <==> b@.len() == 8,
        r is Some ==> r->Some_0 == be_val(b@) && be_bytes_of(r->Some_0) =~= b@,
{
    if b.len() != 8 {
        return None;
    }
    let n: u64 = ((b[0] as u64) << 56) | ((b[1] as u64) << 48) | ((b[2] as u64) << 40) | ((
    b[3] as u64) << 32) | ((b[4] as u64) << 24) | ((b[5] as u64) << 16) | ((b[6] as u64) << 8) | (
    b[7] as u64);
    proof {
        lemma_be_bytes_of_val(b@);
    }
    Some(n)
}

} // verus!
