use vstd::prelude::*;

use crate::decoder::{all_valid, valid_code};

verus! {

/// The nibble sequence of a byte sequence: each byte contributes its low
/// 4-bit half and then its high 4-bit half, in input order.
pub open spec fn nibbles_of(bytes: Seq<u8>) -> Seq<u8> {
    Seq::new(
        2 * bytes.len(),
        |j: int|
            if j % 2 == 0 {
                bytes[j / 2] % 16
            } else {
                bytes[j / 2] / 16
            },
    )
}

/// Every nibble of a byte sequence is a 4-bit code.
pub proof fn lemma_nibbles_valid(bytes: Seq<u8>)
    ensures
        all_valid(nibbles_of(bytes)),
{
    assert forall|i: int| 0 <= i < nibbles_of(bytes).len() implies #[trigger] valid_code(
        nibbles_of(bytes)[i],
    ) by {
        assert(nibbles_of(bytes)[i] == if i % 2 == 0 {
            bytes[i / 2] % 16
        } else {
            bytes[i / 2] / 16
        });
    }
}

/// Splits each byte of the input into its two 4-bit halves, low half first,
/// producing exactly twice as many values as there are input bytes.
pub fn split_and_interleave_nibbles(input: &[u8]) -> (out: Vec<u8>)
    ensures
        out@ == nibbles_of(input@),
        out@.len() == 2 * input@.len(),
{
    let mut out: Vec<u8> = Vec::new();
    let mut k: usize = 0;
    while k < input.len()
        invariant
            k <= input@.len(),
            out@ == nibbles_of(input@.take(k as int)),
            out@.len() == 2 * k,
        decreases input@.len() - k,
    {
        let byte = input[k];
        let low = byte & 0x0f;
        let high = byte >> 4;
        proof {
            assert(byte & 0x0f == byte % 16) by (bit_vector);
            assert(byte >> 4 == byte / 16) by (bit_vector);
        }
        out.push(low);
        out.push(high);
        proof {
            assert(out@ =~= nibbles_of(input@.take(k + 1)));
        }
        k = k + 1;
    }
    proof {
        assert(input@.take(input@.len() as int) =~= input@);
    }
    out
}

} // verus!
