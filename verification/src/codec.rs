//! Bit-expansion codec of the data endpoint: one wire byte per logical bit.

use vstd::prelude::*;

verus! {

/// Bit `i` of `byte`, as a full byte: `1` when the bit is set, `0` otherwise.
pub open spec fn bit_of(byte: u8, i: int) -> u8 {
    if 0 <= i < 8 && (byte >> (i as u8)) & 1u8 == 1u8 {
        1u8
    } else {
        0u8
    }
}

/// The wire form of `bytes`: eight bytes per input byte, least significant bit first.
pub open spec fn expand(bytes: Seq<u8>) -> Seq<u8> {
    Seq::new(8 * bytes.len(), |k: int| bit_of(bytes[k / 8], k % 8))
}

proof fn lemma_mask_is_shift(byte: u8, i: u8)
    requires
        i < 8,
    ensures
        (byte & (1u8 << i) > 0) <==> ((byte >> i) & 1u8 == 1u8),
{
    assert((byte & (1u8 << i) > 0) <==> ((byte >> i) & 1u8 == 1u8)) by (bit_vector)
        requires
            i < 8,
    ;
}

/// Expands every byte of `v` into eight bytes, one per bit, least significant
/// bit first; each output byte is `0x01` for a set bit and `0x00` for a clear one.
pub fn bytes_to_bits(v: &[u8]) -> (bits: Vec<u8>)
    ensures
        bits@ == expand(v@),
        bits@.len() == 8 * v@.len(),
        forall|k: int| 0 <= k < bits@.len() ==> bits@[k] == 0 || bits@[k] == 1,
{
    let mut bits: Vec<u8> = Vec::new();
    let mut n: usize = 0;
    while n < v.len()
        invariant
            n <= v@.len(),
            bits@.len() == 8 * n,
            forall|k: int| 0 <= k < 8 * n ==> bits@[k] == bit_of(v@[k / 8], k % 8),
        decreases v@.len() - n,
    {
        let byte: u8 = v[n];
        let mut i: u8 = 0;
        while i < 8
            invariant
                i <= 8,
                n < v@.len(),
                byte == v@[n as int],
                bits@.len() == 8 * n + i,
                forall|k: int| 0 <= k < 8 * n + i ==> bits@[k] == bit_of(v@[k / 8], k % 8),
            decreases 8 - i,
        {
            proof {
                lemma_mask_is_shift(byte, i);
            }
            let bit: u8 = if byte & (1u8 << i) > 0 { 1 } else { 0 };
            bits.push(bit);
            i = i + 1;
        }
        n = n + 1;
    }
    bits
}

/// The expansion is eight times as long as its input, and holds nothing but
/// the bytes `0x00` and `0x01`.
pub proof fn lemma_expand_shape(bytes: Seq<u8>)
    ensures
        expand(bytes).len() == 8 * bytes.len(),
        forall|k: int| 0 <= k < expand(bytes).len() ==> expand(bytes)[k] == 0 || expand(bytes)[k] == 1,
{
}

/// Output byte `8 * n + i` stands for bit `i` of input byte `n`: bytes keep
/// their order, and within a byte the least significant bit comes first.
pub proof fn lemma_expand_places_bits(bytes: Seq<u8>, n: int, i: int)
    requires
        0 <= n < bytes.len(),
        0 <= i < 8,
    ensures
        expand(bytes)[8 * n + i] == bit_of(bytes[n], i),
{
    assert((8 * n + i) / 8 == n && (8 * n + i) % 8 == i);
}

/// Expanding a concatenation gives the concatenation of the expansions: each
/// byte is expanded on its own, whatever stands around it.
pub proof fn lemma_expand_concat(front: Seq<u8>, back: Seq<u8>)
    ensures
        expand(front + back) == expand(front) + expand(back),
{
    let whole = expand(front + back);
    let parts = expand(front) + expand(back);
    assert(whole.len() == parts.len());
    assert forall|k: int| 0 <= k < whole.len() implies whole[k] == parts[k] by {
        if k >= 8 * front.len() {
            assert((k - 8 * front.len()) / 8 == k / 8 - front.len());
            assert((k - 8 * front.len()) % 8 == k % 8);
        }
    }
    assert(whole =~= parts);
}

/// The expansion depends on the bytes given and on nothing else: equal
/// inputs, element by element, have equal expansions.
pub proof fn lemma_expand_same_input_same_output(first: Seq<u8>, second: Seq<u8>)
    requires
        first.len() == second.len(),
        forall|n: int| 0 <= n < first.len() ==> first[n] == second[n],
    ensures
        expand(first) == expand(second),
{
    assert(first =~= second);
}

/// A byte is the sum of its bits, each weighted by its place.
pub proof fn lemma_bits_make_byte(byte: u8)
    ensures
        byte == bit_of(byte, 0) + 2 * bit_of(byte, 1) + 4 * bit_of(byte, 2) + 8 * bit_of(byte, 3)
            + 16 * bit_of(byte, 4) + 32 * bit_of(byte, 5) + 64 * bit_of(byte, 6)
            + 128 * bit_of(byte, 7),
{
    let b0: u8 = (byte >> 0u8) & 1u8;
    let b1: u8 = (byte >> 1u8) & 1u8;
    let b2: u8 = (byte >> 2u8) & 1u8;
    let b3: u8 = (byte >> 3u8) & 1u8;
    let b4: u8 = (byte >> 4u8) & 1u8;
    let b5: u8 = (byte >> 5u8) & 1u8;
    let b6: u8 = (byte >> 6u8) & 1u8;
    let b7: u8 = (byte >> 7u8) & 1u8;
    assert(b0 <= 1 && b1 <= 1 && b2 <= 1 && b3 <= 1 && b4 <= 1 && b5 <= 1 && b6 <= 1 && b7 <= 1
        && byte == b0 + 2 * b1 + 4 * b2 + 8 * b3 + 16 * b4 + 32 * b5 + 64 * b6 + 128 * b7)
        by (bit_vector)
        requires
            b0 == (byte >> 0u8) & 1u8,
            b1 == (byte >> 1u8) & 1u8,
            b2 == (byte >> 2u8) & 1u8,
            b3 == (byte >> 3u8) & 1u8,
            b4 == (byte >> 4u8) & 1u8,
            b5 == (byte >> 5u8) & 1u8,
            b6 == (byte >> 6u8) & 1u8,
            b7 == (byte >> 7u8) & 1u8,
    ;
}

/// Nothing is lost on the wire: two inputs with the same expansion are the same input.
pub proof fn lemma_expand_injective(first: Seq<u8>, second: Seq<u8>)
    requires
        expand(first) == expand(second),
    ensures
        first == second,
{
    assert(first.len() == second.len()) by {
        assert(expand(first).len() == 8 * first.len());
        assert(expand(second).len() == 8 * second.len());
    }
    assert forall|n: int| 0 <= n < first.len() implies first[n] == second[n] by {
        lemma_bits_make_byte(first[n]);
        lemma_bits_make_byte(second[n]);
        assert forall|i: int| 0 <= i < 8 implies bit_of(first[n], i) == bit_of(second[n], i) by {
            lemma_expand_places_bits(first, n, i);
            lemma_expand_places_bits(second, n, i);
        }
    }
    assert(first =~= second);
}

} // verus!
