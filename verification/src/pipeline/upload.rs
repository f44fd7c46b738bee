//! Words that the host writes into buffers before a frame is submitted.

use vstd::prelude::*;

use crate::pipeline::gpu::Buffer;

verus! {

/// The bytes of a word, lowest first.
pub open spec fn low_first(word: u32) -> Seq<u8> {
    seq![
        (word % 256) as u8,
        (word / 256 % 256) as u8,
        (word / 65536 % 256) as u8,
        (word / 16777216) as u8,
    ]
}

/// The words one after the other, each with its lowest byte first.
pub open spec fn little_endian(words: Seq<u32>) -> Seq<u8> {
    Seq::new(4 * words.len(), |i: int| low_first(words[i / 4])[i % 4])
}

/// The words one after the other, each with its highest byte first.
pub open spec fn big_endian(words: Seq<u32>) -> Seq<u8> {
    Seq::new(4 * words.len(), |i: int| low_first(words[i / 4])[3 - i % 4])
}

/// The bytes hold the words in the byte order of some machine.
pub open spec fn holds_words(bytes: Seq<u8>, words: Seq<u32>) -> bool {
    bytes == little_endian(words) || bytes == big_endian(words)
}

/// The bytes of the words as they lie in memory, by `bytemuck::cast_slice` from `u32` to `u8`, which
/// reinterprets a slice in place. Claimed: every word gives its four bytes, and all words have the
/// byte order of the machine. Which of the two orders that is, is left open.
#[verifier::external_body]
fn word_bytes(words: &[u32]) -> (bytes: Vec<u8>)
    ensures
        holds_words(bytes@, words@),
{
    bytemuck::cast_slice::<u32, u8>(words).to_vec()
}

/// Bytes to write into a buffer.
#[derive(Debug)]
pub struct Upload {
    pub buffer: Buffer,
    pub offset: u64,
    pub bytes: Vec<u8>,
}

impl Upload {
    /// The upload puts these words at this place.
    pub open spec fn puts(self, buffer: Buffer, offset: u64, words: Seq<u32>) -> bool {
        &&& self.buffer == buffer
        &&& self.offset == offset
        &&& holds_words(self.bytes@, words)
    }
}

/// Words and the place they go to.
#[verifier::ext_equal]
pub struct Write {
    pub buffer: Buffer,
    pub offset: u64,
    pub words: Seq<u32>,
}

/// Words that go to the start of a buffer.
pub open spec fn write_to(buffer: Buffer, words: Seq<u32>) -> Write {
    Write { buffer, offset: 0, words }
}

/// The uploads put these words at these places, one after the other.
pub open spec fn puts_all(uploads: Seq<Upload>, writes: Seq<Write>) -> bool {
    &&& uploads.len() == writes.len()
    &&& forall|i: int|
        0 <= i < uploads.len() ==> (#[trigger] uploads[i]).puts(
            writes[i].buffer,
            writes[i].offset,
            writes[i].words,
        )
}

/// Uploads that follow others put their words after those of the others.
pub proof fn uploads_follow_each_other(
    a: Seq<Upload>,
    first: Seq<Write>,
    b: Seq<Upload>,
    second: Seq<Write>,
)
    requires
        puts_all(a, first),
        puts_all(b, second),
    ensures
        puts_all(a + b, first + second),
{
    assert forall|i: int| 0 <= i < (a + b).len() implies (#[trigger] (a + b)[i]).puts(
        (first + second)[i].buffer,
        (first + second)[i].offset,
        (first + second)[i].words,
    ) by {
        if i < a.len() {
            assert((a + b)[i] == a[i]);
        } else {
            assert((a + b)[i] == b[i - a.len()]);
        }
    }
}

/// Writes words from `offset` on.
pub fn words_at(buffer: Buffer, offset: u64, words: &[u32]) -> (upload: Upload)
    ensures
        upload.puts(buffer, offset, words@),
{
    Upload { buffer, offset, bytes: word_bytes(words) }
}

/// Writes words from the start of a buffer.
pub fn words_to(buffer: Buffer, words: &[u32]) -> (upload: Upload)
    ensures
        upload.puts(buffer, 0, words@),
{
    words_at(buffer, 0, words)
}

/// The word whose bytes, lowest first, are these.
spec fn word_of(b: Seq<u8>) -> int {
    b[0] + 256 * b[1] + 65536 * b[2] + 16777216 * b[3]
}

/// An upload has four bytes for each word, and in either byte order no two lists of words have the
/// same bytes.
pub proof fn uploads_keep_words(a: Seq<u32>, b: Seq<u32>)
    ensures
        little_endian(a).len() == 4 * a.len(),
        big_endian(a).len() == 4 * a.len(),
        little_endian(a) == little_endian(b) ==> a == b,
        big_endian(a) == big_endian(b) ==> a == b,
{
    assert(little_endian(b).len() == 4 * b.len());
    assert(big_endian(b).len() == 4 * b.len());
    if little_endian(a) == little_endian(b) {
        assert forall|k: int| 0 <= k < a.len() implies a[k] == b[k] by {
            assert forall|m: int| 0 <= m < 4 implies #[trigger] low_first(a[k])[m] == low_first(
                b[k],
            )[m] by {
                assert((4 * k + m) / 4 == k && (4 * k + m) % 4 == m);
                assert(little_endian(a)[4 * k + m] == little_endian(b)[4 * k + m]);
            }
            lemma_same_bytes_same_word(a[k], b[k]);
        }
        assert(a =~= b);
    }
    if big_endian(a) == big_endian(b) {
        assert forall|k: int| 0 <= k < a.len() implies a[k] == b[k] by {
            assert forall|m: int| 0 <= m < 4 implies #[trigger] low_first(a[k])[m] == low_first(
                b[k],
            )[m] by {
                assert((4 * k + (3 - m)) / 4 == k && (4 * k + (3 - m)) % 4 == 3 - m);
                assert(big_endian(a)[4 * k + (3 - m)] == big_endian(b)[4 * k + (3 - m)]);
            }
            lemma_same_bytes_same_word(a[k], b[k]);
        }
        assert(a =~= b);
    }
}

proof fn lemma_same_bytes_same_word(x: u32, y: u32)
    requires
        forall|m: int| 0 <= m < 4 ==> #[trigger] low_first(x)[m] == low_first(y)[m],
    ensures
        x == y,
{
    assert(low_first(x)[0] == low_first(y)[0]);
    assert(low_first(x)[1] == low_first(y)[1]);
    assert(low_first(x)[2] == low_first(y)[2]);
    assert(low_first(x)[3] == low_first(y)[3]);
    assert(word_of(low_first(x)) == x);
    assert(word_of(low_first(y)) == y);
}

} // verus!
