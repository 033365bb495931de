use vstd::prelude::*;

use crate::error::SignError;

verus! {

/// Number of bytes of the fixed header at the start of every container.
pub const HEADER_SIZE: usize = 20;

/// Offset of the first digest word within the header.
pub const DIGEST_OFFSET: usize = 4;

/// The fixed header: a four-character tag and a digest of four words.
#[derive(Debug, Clone, Copy, PartialEq, Eq)]
pub struct MinimalHeader {
    pub four_cc: u32,
    pub hash_digest: [u32; 4],
}

/// The little-endian 32-bit word stored in `b` at byte offset `off`.
pub open spec fn le_word(b: Seq<u8>, off: int) -> u32 {
    (b[off] as u32) | ((b[off + 1] as u32) << 8u32) | ((b[off + 2] as u32) << 16u32) | ((b[off + 3] as u32) << 24u32)
}

/// Digest word `k` (0 to 3) of the header at the start of `b`.
pub open spec fn digest_word(b: Seq<u8>, k: int) -> u32 {
    le_word(b, DIGEST_OFFSET + 4 * k)
}

/// The four digest words of the header at the start of `b`.
pub open spec fn digest_of(b: Seq<u8>) -> Seq<u32> {
    seq![digest_word(b, 0), digest_word(b, 1), digest_word(b, 2), digest_word(b, 3)]
}

/// A digest is present when at least one of its words is non-zero.
pub open spec fn digest_present(b: Seq<u8>) -> bool {
    digest_word(b, 0) != 0 || digest_word(b, 1) != 0 || digest_word(b, 2) != 0 || digest_word(b, 3) != 0
}

/// `b` with every digest byte set to zero and every other byte kept.
pub open spec fn cleared(b: Seq<u8>) -> Seq<u8> {
    Seq::new(b.len(), |i: int| if DIGEST_OFFSET <= i < HEADER_SIZE { 0u8 } else { b[i] })
}

/// `b` with the four bytes at `off` replaced by the little-endian bytes of `w`.
pub open spec fn put_word(b: Seq<u8>, off: int, w: u32) -> Seq<u8> {
    b.update(off, (w & 0xff) as u8)
        .update(off + 1, ((w >> 8u32) & 0xff) as u8)
        .update(off + 2, ((w >> 16u32) & 0xff) as u8)
        .update(off + 3, ((w >> 24u32) & 0xff) as u8)
}

proof fn lemma_word_zero_iff_bytes_zero(b0: u8, b1: u8, b2: u8, b3: u8)
    ensures
        ((b0 as u32) | ((b1 as u32) << 8u32) | ((b2 as u32) << 16u32) | ((b3 as u32) << 24u32)) == 0
            <==> (b0 == 0 && b1 == 0 && b2 == 0 && b3 == 0),
{
    assert(((b0 as u32) | ((b1 as u32) << 8u32) | ((b2 as u32) << 16u32) | ((b3 as u32) << 24u32)) == 0
        <==> (b0 == 0 && b1 == 0 && b2 == 0 && b3 == 0)) by (bit_vector);
}

proof fn lemma_word_of_bytes(w: u32)
    ensures
        (((w & 0xff) as u8) as u32) | (((((w >> 8u32) & 0xff) as u8) as u32) << 8u32)
            | (((((w >> 16u32) & 0xff) as u8) as u32) << 16u32)
            | (((((w >> 24u32) & 0xff) as u8) as u32) << 24u32) == w,
{
    assert((((w & 0xff) as u8) as u32) | (((((w >> 8u32) & 0xff) as u8) as u32) << 8u32)
        | (((((w >> 16u32) & 0xff) as u8) as u32) << 16u32)
        | (((((w >> 24u32) & 0xff) as u8) as u32) << 24u32) == w) by (bit_vector);
}

/// A word reads as zero exactly when its four bytes are zero.
pub proof fn lemma_le_word_zero(b: Seq<u8>, off: int)
    requires
        0 <= off,
        off + 4 <= b.len(),
    ensures
        le_word(b, off) == 0 <==> (b[off] == 0 && b[off + 1] == 0 && b[off + 2] == 0 && b[off + 3] == 0),
{
    lemma_word_zero_iff_bytes_zero(b[off], b[off + 1], b[off + 2], b[off + 3]);
}

/// Reads the little-endian word at `off`.
fn read_le_word(b: &[u8], off: usize) -> (w: u32)
    requires
        off + 4 <= b@.len(),
    ensures
        w == le_word(b@, off as int),
{
    (b[off] as u32) | ((b[off + 1] as u32) << 8u32) | ((b[off + 2] as u32) << 16u32) | ((b[off + 3] as u32) << 24u32)
}

impl MinimalHeader {
    /// Reads the header at the start of `buffer`; fails on a buffer shorter than the header.
    pub fn read(buffer: &[u8]) -> (r: Result<MinimalHeader, SignError>)
        ensures
            buffer@.len() < HEADER_SIZE <==> r is Err,
            r matches Err(e) ==> e == SignError::InvalidData,
            r matches Ok(h) ==> h.four_cc == le_word(buffer@, 0) && h.hash_digest@ == digest_of(buffer@),
    {
        if buffer.len() < HEADER_SIZE {
            Err(SignError::InvalidData)
        } else {
            let four_cc = read_le_word(buffer, 0);
            let hash_digest = [
                read_le_word(buffer, 4),
                read_le_word(buffer, 8),
                read_le_word(buffer, 12),
                read_le_word(buffer, 16),
            ];
            assert(hash_digest@ =~= digest_of(buffer@));
            Ok(MinimalHeader { four_cc, hash_digest })
        }
    }
}

/// Reads the four digest words of the header at the start of `buffer`.
pub fn get_digest(buffer: &[u8]) -> (r: Result<[u32; 4], SignError>)
    ensures
        buffer@.len() < HEADER_SIZE <==> r is Err,
        r matches Err(e) ==> e == SignError::InvalidData,
        r matches Ok(d) ==> d@ == digest_of(buffer@),
{
    match MinimalHeader::read(buffer) {
        Ok(header) => Ok(header.hash_digest),
        Err(e) => Err(e),
    }
}

/// Whether the header at the start of `buffer` carries a digest.
pub fn has_digest(buffer: &[u8]) -> (r: Result<bool, SignError>)
    ensures
        buffer@.len() < HEADER_SIZE <==> r is Err,
        r matches Err(e) ==> e == SignError::InvalidData,
        r matches Ok(p) ==> p == digest_present(buffer@),
{
    let hash_digest = match get_digest(buffer) {
        Ok(d) => d,
        Err(e) => return Err(e),
    };
    let mut present = false;
    let mut k: usize = 0;
    while k < 4
        invariant
            k <= 4,
            hash_digest@ == digest_of(buffer@),
            present <==> exists|j: int| 0 <= j < k && hash_digest@[j] != 0,
        decreases 4 - k,
    {
        present = present || hash_digest[k] != 0;
        k = k + 1;
    }
    assert(present <==> digest_present(buffer@)) by {
        if digest_present(buffer@) {
            if digest_word(buffer@, 0) != 0 { assert(hash_digest@[0] != 0); }
            else if digest_word(buffer@, 1) != 0 { assert(hash_digest@[1] != 0); }
            else if digest_word(buffer@, 2) != 0 { assert(hash_digest@[2] != 0); }
            else { assert(hash_digest@[3] != 0); }
        }
    }
    Ok(present)
}

/// Sets every digest byte of the header at the start of `buffer` to zero, in place.
/// A buffer shorter than the header is left as it is and the call fails.
pub fn zero_digest(buffer: &mut [u8]) -> (r: Result<(), SignError>)
    ensures
        old(buffer)@.len() < HEADER_SIZE <==> r is Err,
        r matches Err(e) ==> e == SignError::InvalidData && final(buffer)@ == old(buffer)@,
        r is Ok ==> final(buffer)@ == cleared(old(buffer)@),
{
    if buffer.len() < HEADER_SIZE {
        return Err(SignError::InvalidData);
    }
    let mut i: usize = DIGEST_OFFSET;
    while i < HEADER_SIZE
        invariant
            DIGEST_OFFSET <= i <= HEADER_SIZE,
            buffer@.len() == old(buffer)@.len(),
            HEADER_SIZE <= buffer@.len(),
            forall|j: int| 0 <= j < buffer@.len() ==> #[trigger] buffer@[j] == (
                if DIGEST_OFFSET <= j < i { 0u8 } else { old(buffer)@[j] }),
        decreases HEADER_SIZE - i,
    {
        buffer[i] = 0;
        i = i + 1;
    }
    assert(buffer@ =~= cleared(old(buffer)@));
    Ok(())
}

/// Writing a non-zero value into any one digest word of a buffer long enough
/// for a header makes a digest present, and leaves the other words as they were.
pub proof fn lemma_nonzero_word_marks_digest(b: Seq<u8>, k: int, w: u32)
    requires
        b.len() >= HEADER_SIZE,
        0 <= k < 4,
        w != 0,
    ensures
        digest_word(put_word(b, DIGEST_OFFSET + 4 * k, w), k) == w,
        forall|j: int| 0 <= j < 4 && j != k ==> #[trigger] digest_word(put_word(b, DIGEST_OFFSET + 4 * k, w), j) == digest_word(b, j),
        digest_present(put_word(b, DIGEST_OFFSET + 4 * k, w)),
{
    lemma_word_of_bytes(w);
}

/// Clearing a digest twice gives the same buffer as clearing it once, and
/// clearing never changes the length, the tag, or any byte past the header.
pub proof fn lemma_clear_idempotent(b: Seq<u8>)
    ensures
        cleared(cleared(b)) == cleared(b),
        cleared(b).len() == b.len(),
        forall|i: int| 0 <= i < b.len() && !(DIGEST_OFFSET <= i < HEADER_SIZE) ==> #[trigger] cleared(b)[i] == b[i],
{
    assert(cleared(cleared(b)) =~= cleared(b));
}

/// A cleared buffer that is long enough for a header carries no digest.
pub proof fn lemma_cleared_has_no_digest(b: Seq<u8>)
    requires
        b.len() >= HEADER_SIZE,
    ensures
        digest_of(cleared(b)) == seq![0u32, 0u32, 0u32, 0u32],
        !digest_present(cleared(b)),
{
    let c = cleared(b);
    lemma_le_word_zero(c, 4);
    lemma_le_word_zero(c, 8);
    lemma_le_word_zero(c, 12);
    lemma_le_word_zero(c, 16);
    assert(digest_of(c) =~= seq![0u32, 0u32, 0u32, 0u32]);
}

} // verus!
