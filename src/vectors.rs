//! The storage form of embedding vectors: each 32-bit float, given by its
//! bit pattern, as four little-endian bytes, concatenated.
use vstd::prelude::*;

verus! {

/// Byte `k` (0 = least significant) of `w`.
pub open spec fn byte_of(w: u32, k: int) -> u8 {
    if k == 0 {
        (w & 0xff) as u8
    } else if k == 1 {
        ((w >> 8u32) & 0xff) as u8
    } else if k == 2 {
        ((w >> 16u32) & 0xff) as u8
    } else {
        ((w >> 24u32) & 0xff) as u8
    }
}

/// The word whose little-endian bytes are `b0`, `b1`, `b2`, `b3`.
pub open spec fn word_of(b0: u8, b1: u8, b2: u8, b3: u8) -> u32 {
    (b0 as u32) | ((b1 as u32) << 8u32) | ((b2 as u32) << 16u32) | ((b3 as u32) << 24u32)
}

/// The blob of a vector given by the bit patterns of its components.
pub open spec fn blob_of(ws: Seq<u32>) -> Seq<u8> {
    Seq::new(4 * ws.len(), |i: int| byte_of(ws[i / 4], i % 4))
}

/// The bit patterns that a blob holds, four bytes each.
pub open spec fn words_of(bs: Seq<u8>) -> Seq<u32> {
    Seq::new(bs.len() / 4, |k: int| word_of(bs[4 * k], bs[4 * k + 1], bs[4 * k + 2], bs[4 * k + 3]))
}

proof fn lemma_word_bytes(w: u32)
    ensures
        word_of(byte_of(w, 0), byte_of(w, 1), byte_of(w, 2), byte_of(w, 3)) == w,
{
    assert(((((w & 0xff) as u8) as u32) | (((((w >> 8u32) & 0xff) as u8) as u32) << 8u32) | (((((w
        >> 16u32) & 0xff) as u8) as u32) << 16u32) | (((((w >> 24u32) & 0xff) as u8) as u32)
        << 24u32)) == w) by (bit_vector);
}

proof fn lemma_bytes_word(b0: u8, b1: u8, b2: u8, b3: u8)
    ensures
        byte_of(word_of(b0, b1, b2, b3), 0) == b0,
        byte_of(word_of(b0, b1, b2, b3), 1) == b1,
        byte_of(word_of(b0, b1, b2, b3), 2) == b2,
        byte_of(word_of(b0, b1, b2, b3), 3) == b3,
{
    assert((((b0 as u32) | ((b1 as u32) << 8u32) | ((b2 as u32) << 16u32) | ((b3 as u32) << 24u32))
        & 0xff) as u8 == b0) by (bit_vector);
    assert(((((b0 as u32) | ((b1 as u32) << 8u32) | ((b2 as u32) << 16u32) | ((b3 as u32)
        << 24u32)) >> 8u32) & 0xff) as u8 == b1) by (bit_vector);
    assert(((((b0 as u32) | ((b1 as u32) << 8u32) | ((b2 as u32) << 16u32) | ((b3 as u32)
        << 24u32)) >> 16u32) & 0xff) as u8 == b2) by (bit_vector);
    assert(((((b0 as u32) | ((b1 as u32) << 8u32) | ((b2 as u32) << 16u32) | ((b3 as u32)
        << 24u32)) >> 24u32) & 0xff) as u8 == b3) by (bit_vector);
}

/// Encodes a vector, given by the bit patterns of its components, as the
/// concatenation of their little-endian bytes.
pub fn vector_to_blob(ws: &Vec<u32>) -> (r: Vec<u8>)
    requires
        4 * ws@.len() <= usize::MAX,
    ensures
        r@ == blob_of(ws@),
{
    let mut r: Vec<u8> = Vec::new();
    let mut k: usize = 0;
    while k < ws.len()
        invariant
            k <= ws@.len(),
            r@ =~= Seq::new(4 * k as nat, |i: int| byte_of(ws@[i / 4], i % 4)),
        decreases ws.len() - k,
    {
        let w = ws[k];
        r.push((w & 0xff) as u8);
        r.push(((w >> 8u32) & 0xff) as u8);
        r.push(((w >> 16u32) & 0xff) as u8);
        r.push(((w >> 24u32) & 0xff) as u8);
        k = k + 1;
    }
    r
}

/// Decodes a blob into the bit patterns of its components; `None` when its
/// length is not a multiple of four.
pub fn blob_to_vector(bs: &Vec<u8>) -> (r: Option<Vec<u32>>)
    ensures
        bs@.len() % 4 != 0 ==> r is None,
        bs@.len() % 4 == 0 ==> (r matches Some(ws) && ws@ == words_of(bs@)),
{
    if bs.len() % 4 != 0 {
        return None;
    }
    let len = bs.len();
    let n = len / 4;
    let mut ws: Vec<u32> = Vec::new();
    let mut k: usize = 0;
    while k < n
        invariant
            len == bs@.len(),
            n == bs@.len() / 4,
            k <= n,
            ws@ =~= Seq::new(k as nat, |j: int| word_of(bs@[4 * j], bs@[4 * j + 1], bs@[4 * j + 2], bs@[4 * j + 3])),
        decreases n - k,
    {
        assert(4 * k + 3 < bs@.len()) by (nonlinear_arith)
            requires
                k < n,
                n == bs@.len() / 4,
        ;
        let b0 = bs[4 * k] as u32;
        let b1 = bs[4 * k + 1] as u32;
        let b2 = bs[4 * k + 2] as u32;
        let b3 = bs[4 * k + 3] as u32;
        ws.push(b0 | (b1 << 8u32) | (b2 << 16u32) | (b3 << 24u32));
        k = k + 1;
    }
    Some(ws)
}

/// Round trip: decoding the blob of a vector gives back the same bit
/// patterns, component for component.
pub proof fn lemma_blob_round_trip(ws: Seq<u32>)
    ensures
        words_of(blob_of(ws)) == ws,
{
    let bs = blob_of(ws);
    assert forall|k: int| 0 <= k < ws.len() implies #[trigger] words_of(bs)[k] == ws[k] by {
        assert((4 * k) / 4 == k && (4 * k) % 4 == 0);
        assert((4 * k + 1) / 4 == k && (4 * k + 1) % 4 == 1);
        assert((4 * k + 2) / 4 == k && (4 * k + 2) % 4 == 2);
        assert((4 * k + 3) / 4 == k && (4 * k + 3) % 4 == 3);
        lemma_word_bytes(ws[k]);
    }
    assert(words_of(bs) =~= ws);
}

/// Round trip the other way: a blob whose length is a multiple of four is
/// the blob of the bit patterns it decodes to.
pub proof fn lemma_words_round_trip(bs: Seq<u8>)
    requires
        bs.len() % 4 == 0,
    ensures
        blob_of(words_of(bs)) == bs,
{
    let ws = words_of(bs);
    assert forall|i: int| 0 <= i < bs.len() implies #[trigger] blob_of(ws)[i] == bs[i] by {
        let k = i / 4;
        assert(0 <= k < ws.len());
        assert(4 * k <= i < 4 * k + 4);
        lemma_bytes_word(bs[4 * k], bs[4 * k + 1], bs[4 * k + 2], bs[4 * k + 3]);
    }
    assert(blob_of(ws) =~= bs);
}

} // verus!
