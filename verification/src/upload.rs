//! The byte images of labelling input, as they are copied into a GPU buffer.

use vstd::prelude::*;
use crate::grid::{clamped_cell, mask_cell, clamp_cells, occupancy_mask};

verus! {

/// The word that the four bytes at `4 * i` spell, lowest byte first when
/// `little` holds, highest byte first otherwise.
pub open spec fn word_at(bytes: Seq<u8>, i: int, little: bool) -> int {
    let b0 = bytes[4 * i] as int;
    let b1 = bytes[4 * i + 1] as int;
    let b2 = bytes[4 * i + 2] as int;
    let b3 = bytes[4 * i + 3] as int;
    if little {
        b0 + 256 * b1 + 65536 * b2 + 16777216 * b3
    } else {
        b3 + 256 * b2 + 65536 * b1 + 16777216 * b0
    }
}

/// Each group of four bytes spells the word at its place, in the byte order
/// that `little` selects.
pub open spec fn spells_words(bytes: Seq<u8>, words: Seq<u32>, little: bool) -> bool {
    forall|i: int| 0 <= i < words.len() ==> #[trigger] word_at(bytes, i, little) == words[i]
}

/// `bytes` is the in-memory image of `words` in one byte order for all of them.
pub open spec fn is_word_image(bytes: Seq<u8>, words: Seq<u32>) -> bool {
    &&& bytes.len() == 4 * words.len()
    &&& (spells_words(bytes, words, true) || spells_words(bytes, words, false))
}

/// The words that `f` gives for the cells, in order.
pub open spec fn words_of(cells: Seq<i8>, f: spec_fn(i8) -> u32) -> Seq<u32> {
    cells.map_values(f)
}

/// The executing hardware stores words lowest byte first (vstd's
/// `endianness()`, the one byte order of the target).
pub open spec fn native_little() -> bool {
    vstd::endian::endianness() is Little
}

/// `bytes` is the in-memory image of `words` on this target: four bytes per
/// word, each group spelling its word in the target's byte order.
pub open spec fn is_native_image(bytes: Seq<u8>, words: Seq<u32>) -> bool {
    &&& bytes.len() == 4 * words.len()
    &&& spells_words(bytes, words, native_little())
}

/// `bytemuck::cast_slice` from `u32` words to bytes, copied out.
///
/// The contract claims that the result has four bytes per word and that each
/// group of four spells its word in the target's byte order (vstd's
/// `endianness()`): the cast reinterprets the words' memory without changing
/// it. Which order that is, is the target's and is not fixed here.
#[verifier::external_body]
fn cast_words(words: &[u32]) -> (bytes: Vec<u8>)
    ensures
        is_word_image(bytes@, words@),
        is_native_image(bytes@, words@),
{
    bytemuck::cast_slice::<u32, u8>(words).to_vec()
}

/// The buffer contents for an occupancy grid: the foreground bit of each cell
/// as one word.
pub fn occupancy_upload(data: &Vec<i8>) -> (bytes: Vec<u8>)
    ensures
        bytes@.len() == 4 * data@.len(),
        spells_words(bytes@, words_of(data@, |x: i8| mask_cell(x)), true) || spells_words(
            bytes@,
            words_of(data@, |x: i8| mask_cell(x)),
            false,
        ),
        is_native_image(bytes@, words_of(data@, |x: i8| mask_cell(x))),
        forall|i: int|
            0 <= i < data@.len() ==> #[trigger] word_at(bytes@, i, native_little()) == (if data@[i] == -1 {
                    1
                } else if data@[i] < 0 {
                    0
                } else {
                    (data@[i] as int) % 2
                }),
{
    let words: Vec<u32> = occupancy_mask(data);
    let bytes: Vec<u8> = cast_words(words.as_slice());
    proof {
        assert(words@ =~= words_of(data@, |x: i8| mask_cell(x)));
    }
    bytes
}

/// The buffer contents for the array check: each cell with its negative values
/// cut to zero, as one word.
pub fn clamped_upload(input: &Vec<i8>) -> (bytes: Vec<u8>)
    ensures
        bytes@.len() == 4 * input@.len(),
        spells_words(bytes@, words_of(input@, |x: i8| clamped_cell(x)), true) || spells_words(
            bytes@,
            words_of(input@, |x: i8| clamped_cell(x)),
            false,
        ),
        is_native_image(bytes@, words_of(input@, |x: i8| clamped_cell(x))),
        forall|i: int|
            0 <= i < input@.len() ==> #[trigger] word_at(bytes@, i, native_little()) == (if input@[i] < 0 {
                    0
                } else {
                    input@[i] as int
                }),
{
    let words: Vec<u32> = clamp_cells(input);
    let bytes: Vec<u8> = cast_words(words.as_slice());
    proof {
        assert(words@ =~= words_of(input@, |x: i8| clamped_cell(x)));
    }
    bytes
}

proof fn lemma_bytes_of_word(a: Seq<u8>, b: Seq<u8>, i: int, little: bool)
    requires
        0 <= i,
        4 * i + 3 < a.len(),
        4 * i + 3 < b.len(),
        word_at(a, i, little) == word_at(b, i, little),
    ensures
        a[4 * i] == b[4 * i],
        a[4 * i + 1] == b[4 * i + 1],
        a[4 * i + 2] == b[4 * i + 2],
        a[4 * i + 3] == b[4 * i + 3],
{
    let (a0, a1, a2, a3) = (a[4 * i], a[4 * i + 1], a[4 * i + 2], a[4 * i + 3]);
    let (b0, b1, b2, b3) = (b[4 * i], b[4 * i + 1], b[4 * i + 2], b[4 * i + 3]);
    if little {
        assert(a0 == b0 && a1 == b1 && a2 == b2 && a3 == b3) by (bit_vector)
            requires
                a0 + 256 * a1 + 65536 * a2 + 16777216 * a3 == b0 + 256 * b1 + 65536 * b2
                    + 16777216 * b3,
        ;
    } else {
        assert(a0 == b0 && a1 == b1 && a2 == b2 && a3 == b3) by (bit_vector)
            requires
                a3 + 256 * a2 + 65536 * a1 + 16777216 * a0 == b3 + 256 * b2 + 65536 * b1
                    + 16777216 * b0,
        ;
    }
}

/// The native image of a sequence of words is unique: two byte sequences that
/// both are the image of the same words on this target are equal. So every
/// upload of the same cells gives the same bytes.
pub proof fn law_native_image_unique(a: Seq<u8>, b: Seq<u8>, words: Seq<u32>)
    requires
        is_native_image(a, words),
        is_native_image(b, words),
    ensures
        a == b,
{
    assert forall|k: int| 0 <= k < a.len() implies a[k] == b[k] by {
        let i = k / 4;
        assert(0 <= i < words.len());
        assert(word_at(a, i, native_little()) == words[i]);
        assert(word_at(b, i, native_little()) == words[i]);
        lemma_bytes_of_word(a, b, i, native_little());
        assert(k == 4 * i || k == 4 * i + 1 || k == 4 * i + 2 || k == 4 * i + 3);
    }
    assert(a =~= b);
}

/// Read back in the target's byte order, an occupancy upload gives 1 for an
/// unknown cell (-1), 0 for any other negative cell, and the remainder of the
/// cell by two otherwise: one bit per cell, nothing else.
pub proof fn law_occupancy_upload_reads_back_bits(data: Seq<i8>, bytes: Seq<u8>)
    requires
        is_native_image(bytes, words_of(data, |x: i8| mask_cell(x))),
    ensures
        bytes.len() == 4 * data.len(),
        forall|i: int|
            0 <= i < data.len() ==> {
                &&& #[trigger] word_at(bytes, i, native_little()) == (if data[i] == -1 {
                    1
                } else if data[i] < 0 {
                    0
                } else {
                    (data[i] as int) % 2
                })
                &&& word_at(bytes, i, native_little()) == 0 || word_at(
                    bytes,
                    i,
                    native_little(),
                ) == 1
            },
{
    assert forall|i: int| 0 <= i < data.len() implies #[trigger] word_at(bytes, i, native_little())
        == words_of(data, |x: i8| mask_cell(x))[i] by {}
}

/// Read back in the target's byte order, a clamped upload gives each cell with
/// its negative values cut to zero.
pub proof fn law_clamped_upload_reads_back_cells(input: Seq<i8>, bytes: Seq<u8>)
    requires
        is_native_image(bytes, words_of(input, |x: i8| clamped_cell(x))),
    ensures
        bytes.len() == 4 * input.len(),
        forall|i: int|
            0 <= i < input.len() ==> #[trigger] word_at(bytes, i, native_little()) == (if input[i]
                < 0 {
                0
            } else {
                input[i] as int
            }),
{
    assert forall|i: int| 0 <= i < input.len() implies #[trigger] word_at(bytes, i, native_little())
        == words_of(input, |x: i8| clamped_cell(x))[i] by {}
}

} // verus!
