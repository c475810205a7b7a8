//! Uniform data and its layout in bytes.
//!
//! A uniform is a block of 32-bit floats. Here each float is held as its
//! bit pattern, a `u32`, and a matrix as four columns of four floats. The
//! bytes that go to the GPU are the words' memory image, column after
//! column.

use vstd::prelude::*;

verus! {

/// The bit pattern of the float 1.
pub const ONE: u32 = 0x3f80_0000;

/// The bit pattern of the float 0.
pub const ZERO: u32 = 0;

/// The byte of a word at place `k`, counted from the least significant.
pub open spec fn byte_of(word: u32, k: int) -> u8 {
    if k == 0 {
        (word % 0x100) as u8
    } else if k == 1 {
        (word / 0x100 % 0x100) as u8
    } else if k == 2 {
        (word / 0x1_0000 % 0x100) as u8
    } else {
        (word / 0x100_0000) as u8
    }
}

/// The words' bytes, the least significant byte of each word first.
pub open spec fn little_endian(words: Seq<u32>) -> Seq<u8> {
    Seq::new(4 * words.len(), |i: int| byte_of(words[i / 4], i % 4))
}

/// The words' bytes, the most significant byte of each word first.
pub open spec fn big_endian(words: Seq<u32>) -> Seq<u8> {
    Seq::new(4 * words.len(), |i: int| byte_of(words[i / 4], 3 - i % 4))
}

/// The bytes are the words as they lie in memory, in one of the two byte
/// orders that a machine can have.
pub open spec fn is_memory_image(bytes: Seq<u8>, words: Seq<u32>) -> bool {
    bytes == little_endian(words) || bytes == big_endian(words)
}

/// The words of a matrix, column after column.
pub open spec fn matrix_words(matrix: [[u32; 4]; 4]) -> Seq<u32> {
    Seq::new(16, |i: int| matrix[i / 4][i % 4])
}

/// The matrix has ones on its diagonal and zeros elsewhere.
pub open spec fn is_identity(matrix: [[u32; 4]; 4]) -> bool {
    forall|c: int, r: int|
        0 <= c < 4 && 0 <= r < 4 ==> #[trigger] matrix[c][r] == if c == r {
            ONE
        } else {
            ZERO
        }
}

/// Copies the words of a slice into bytes with `bytemuck::cast_slice`,
/// which reinterprets the slice's memory: the result holds four bytes for
/// each word, in the machine's byte order.
#[verifier::external_body]
pub(crate) fn words_to_bytes(words: &[u32]) -> (bytes: Vec<u8>)
    ensures
        is_memory_image(bytes@, words@),
{
    bytemuck::cast_slice::<u32, u8>(words).to_vec()
}

/// Appends the words of a matrix, column after column.
pub(crate) fn push_matrix(words: &mut Vec<u32>, matrix: &[[u32; 4]; 4])
    ensures
        final(words)@ == old(words)@ + matrix_words(*matrix),
{
    let mut c: usize = 0;
    assert(matrix_words(*matrix).take(0) =~= Seq::<u32>::empty());
    while c < 4
        invariant
            c <= 4,
            words@ == old(words)@ + matrix_words(*matrix).take(4 * c),
        decreases 4 - c,
    {
        let column: &[u32; 4] = &matrix[c];
        let mut r: usize = 0;
        while r < 4
            invariant
                c < 4,
                r <= 4,
                *column == matrix[c as int],
                words@ == old(words)@ + matrix_words(*matrix).take(4 * c + r),
            decreases 4 - r,
        {
            words.push(column[r]);
            proof {
                let all = matrix_words(*matrix);
                let n = 4 * c + r;
                assert(all[n] == matrix[c as int][r as int]);
                assert(all.take(n + 1) =~= all.take(n).push(all[n]));
            }
            r = r + 1;
        }
        c = c + 1;
    }
    assert(matrix_words(*matrix).take(16) =~= matrix_words(*matrix));
    assert(words@ =~= old(words)@ + matrix_words(*matrix));
}

} // verus!
