use vstd::prelude::*;

verus! {

/// The unsigned 32-bit value little-endian encoded at word index `i`.
pub open spec fn word_at(bytes: Seq<u8>, i: int) -> int {
    bytes[4 * i] + 0x100 * bytes[4 * i + 1] + 0x1_0000 * bytes[4 * i + 2] + 0x100_0000 * bytes[4 * i
        + 3]
}

/// Decode the bytes a readback captured into the partial values they encode:
/// one little-endian unsigned 32-bit word per four bytes, in order.
pub fn words_from_bytes(bytes: &Vec<u8>) -> (r: Vec<u32>)
    requires
        bytes@.len() % 4 == 0,
    ensures
        r@.len() == bytes@.len() / 4,
        forall|i: int| 0 <= i < r@.len() ==> r@[i] == word_at(bytes@, i),
{
    let n: usize = bytes.len() / 4;
    let mut out: Vec<u32> = Vec::new();
    let mut i: usize = 0;
    while i < n
        invariant
            i <= n,
            n == bytes@.len() / 4,
            bytes@.len() <= usize::MAX,
            bytes@.len() % 4 == 0,
            out@.len() == i,
            forall|j: int| 0 <= j < i ==> out@[j] == word_at(bytes@, j),
        decreases n - i,
    {
        proof {
            assert(bytes@.len() == 4 * (bytes@.len() / 4) + bytes@.len() % 4);
            assert(4 * i + 3 < bytes@.len());
        }
        let b0 = bytes[4 * i] as u32;
        let b1 = bytes[4 * i + 1] as u32;
        let b2 = bytes[4 * i + 2] as u32;
        let b3 = bytes[4 * i + 3] as u32;
        let word = b0 + 0x100 * b1 + 0x1_0000 * b2 + 0x100_0000 * b3;
        out.push(word);
        i = i + 1;
    }
    out
}

} // verus!
