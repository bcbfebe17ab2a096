//! Memory layout of the tables: records as 32-bit words, words as bytes.

use vstd::prelude::*;

verus! {

/// A record that a renderer reads as a fixed run of 32-bit words.
pub trait Packed {
    /// The words of one record, in the order in which they lie in memory.
    spec fn words(&self) -> Seq<u32>;

    /// The number of words that every record of this type occupies.
    spec fn stride() -> nat;

    /// Every record has exactly `stride()` words.
    proof fn lemma_stride(&self)
        ensures
            self.words().len() == Self::stride(),
    ;

    /// Appends the words of this record to `out`.
    fn pack(&self, out: &mut Vec<u32>)
        ensures
            final(out)@ == old(out)@ + self.words(),
    ;
}

/// The words of a whole table: those of its records, one after another.
pub open spec fn table_words<T: Packed>(table: Seq<T>) -> Seq<u32>
    decreases table.len(),
{
    if table.len() == 0 {
        Seq::empty()
    } else {
        table_words(table.drop_last()) + table.last().words()
    }
}

/// A table of `n` records has `n * stride` words.
pub proof fn lemma_table_words_len<T: Packed>(table: Seq<T>)
    ensures
        table_words(table).len() == table.len() * T::stride(),
    decreases table.len(),
{
    if table.len() > 0 {
        lemma_table_words_len(table.drop_last());
        table.last().lemma_stride();
        assert(table.len() * T::stride() == (table.len() - 1) * T::stride() + T::stride())
            by (nonlinear_arith);
    }
}

/// Lays out a table as words, record by record.
pub fn pack_table<T: Packed>(table: &Vec<T>) -> (out: Vec<u32>)
    ensures
        out@ == table_words(table@),
{
    let mut out: Vec<u32> = Vec::new();
    let mut i: usize = 0;
    while i < table.len()
        invariant
            i <= table.len(),
            out@ == table_words(table@.take(i as int)),
        decreases table.len() - i,
    {
        table[i].pack(&mut out);
        proof {
            let next = table@.take(i + 1);
            assert(next.drop_last() == table@.take(i as int));
            assert(next.last() == table@[i as int]);
        }
        i += 1;
    }
    proof {
        assert(table@.take(i as int) == table@);
    }
    out
}

/// The four bytes of a word, least significant first.
pub open spec fn le_word(w: u32) -> Seq<u8> {
    seq![
        (w % 256) as u8,
        ((w / 256) % 256) as u8,
        ((w / 65536) % 256) as u8,
        (w / 16777216) as u8,
    ]
}

/// The four bytes of a word, most significant first.
pub open spec fn be_word(w: u32) -> Seq<u8> {
    seq![
        (w / 16777216) as u8,
        ((w / 65536) % 256) as u8,
        ((w / 256) % 256) as u8,
        (w % 256) as u8,
    ]
}

/// The bytes of a run of words on a little-endian machine.
pub open spec fn le_image(words: Seq<u32>) -> Seq<u8> {
    Seq::new(4 * words.len(), |i: int| le_word(words[i / 4])[i % 4])
}

/// The bytes of a run of words on a big-endian machine.
pub open spec fn be_image(words: Seq<u32>) -> Seq<u8> {
    Seq::new(4 * words.len(), |i: int| be_word(words[i / 4])[i % 4])
}

/// `bytes` is what `words` look like in memory: four bytes to a word, every
/// word in the same byte order, which is the machine's.
pub open spec fn is_memory_image(bytes: Seq<u8>, words: Seq<u32>) -> bool {
    bytes == le_image(words) || bytes == be_image(words)
}

/// The image of a table has four bytes for each word of each record.
pub proof fn lemma_image_len<T: Packed>(bytes: Seq<u8>, table: Seq<T>)
    requires
        is_memory_image(bytes, table_words(table)),
    ensures
        bytes.len() == 4 * T::stride() * table.len(),
{
    lemma_table_words_len(table);
    assert(4 * (table.len() * T::stride()) == 4 * T::stride() * table.len())
        by (nonlinear_arith);
}

/// The bytes that `words` occupy in memory.
///
/// Trusted: calls `bytemuck::cast_slice` from `u32` to `u8`, which
/// reinterprets the slice in place and cannot fail in that direction (the
/// target has alignment 1 and size 1). The contract claims that the result
/// holds the four bytes of each word in turn, all in little-endian or all in
/// big-endian order.
#[verifier::external_body]
fn memory_image(words: &Vec<u32>) -> (bytes: Vec<u8>)
    ensures
        is_memory_image(bytes@, words@),
{
    bytemuck::cast_slice::<u32, u8>(words.as_slice()).to_vec()
}

/// The bytes of a single record as they lie in memory.
pub fn record_bytes<T: Packed>(record: &T) -> (bytes: Vec<u8>)
    ensures
        is_memory_image(bytes@, record.words()),
        bytes@.len() == 4 * T::stride(),
{
    let mut words: Vec<u32> = Vec::new();
    record.pack(&mut words);
    proof {
        record.lemma_stride();
        assert(words@ == record.words());
    }
    memory_image(&words)
}

/// The bytes of a table as they lie in a buffer shared with a renderer.
pub fn table_bytes<T: Packed>(table: &Vec<T>) -> (bytes: Vec<u8>)
    ensures
        is_memory_image(bytes@, table_words(table@)),
        bytes@.len() == 4 * T::stride() * table@.len(),
{
    let words = pack_table(table);
    let bytes = memory_image(&words);
    proof {
        lemma_image_len(bytes@, table@);
    }
    bytes
}

} // verus!
