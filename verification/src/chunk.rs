//! Chunks of data on their way into a store.
use bytes::Bytes;
use vstd::prelude::*;

verus! {

/// Declares [`bytes::Bytes`], a cheaply cloned run of bytes.
#[verifier::external_type_specification]
#[verifier::external_body]
pub struct ExBytes(bytes::Bytes);

/// The bytes that a [`Bytes`] holds.
pub uninterp spec fn bytes_content(chunk: Bytes) -> Seq<u8>;

/// `Bytes::is_empty` tells whether the chunk holds no byte.
pub assume_specification[ Bytes::is_empty ](chunk: &Bytes) -> (empty: bool)
    ensures
        empty == (bytes_content(*chunk).len() == 0),
;

/// `Bytes::clone` gives another handle to the same bytes.
pub assume_specification[ <Bytes as Clone>::clone ](chunk: &Bytes) -> (copy: Bytes)
    ensures
        bytes_content(copy) == bytes_content(*chunk),
;

/// The bytes of each chunk.
pub open spec fn contents(chunks: Seq<Bytes>) -> Seq<Seq<u8>> {
    chunks.map_values(|chunk: Bytes| bytes_content(chunk))
}

/// The bytes of all chunks, one chunk after the other.
pub open spec fn data(chunks: Seq<Seq<u8>>) -> Seq<u8>
    decreases chunks.len(),
{
    if chunks.len() == 0 {
        seq![]
    } else {
        data(chunks.drop_last()) + chunks.last()
    }
}

/// The chunks that hold at least one byte.
pub open spec fn non_empty(chunks: Seq<Seq<u8>>) -> Seq<Seq<u8>> {
    chunks.filter(|chunk: Seq<u8>| chunk.len() > 0)
}

/// Adding a chunk adds its bytes at the end.
pub proof fn law_data_grows_by_chunk(chunks: Seq<Seq<u8>>, chunk: Seq<u8>)
    ensures
        data(chunks.push(chunk)) == data(chunks) + chunk,
{
    assert(chunks.push(chunk).drop_last() =~= chunks);
}

/// Leaving out the empty chunks leaves out no data.
pub proof fn law_empty_chunks_hold_no_data(chunks: Seq<Seq<u8>>)
    ensures
        data(non_empty(chunks)) == data(chunks),
    decreases chunks.len(),
{
    reveal(Seq::filter);
    if chunks.len() > 0 {
        let front = chunks.drop_last();
        law_empty_chunks_hold_no_data(front);
        if chunks.last().len() > 0 {
            law_data_grows_by_chunk(non_empty(front), chunks.last());
        } else {
            assert(data(chunks) =~= data(front));
        }
    }
}

/// The bytes of each chunk stand at the place of the chunk.
pub proof fn law_contents_keep_their_places(chunks: Seq<Bytes>)
    ensures
        contents(chunks).len() == chunks.len(),
        forall|i: int|
            0 <= i < chunks.len() ==> #[trigger] contents(chunks)[i] == bytes_content(chunks[i]),
{
}

/// Leaving out the empty chunks keeps the others and their order: of a row of
/// chunks that grows at its end, what is left grows by each chunk that holds a
/// byte.
pub proof fn law_chunks_with_bytes_stay(chunks: Seq<Seq<u8>>, chunk: Seq<u8>)
    ensures
        non_empty(seq![]) == Seq::<Seq<u8>>::empty(),
        chunk.len() > 0 ==> non_empty(chunks.push(chunk)) == non_empty(chunks).push(chunk),
        chunk.len() == 0 ==> non_empty(chunks.push(chunk)) == non_empty(chunks),
{
    reveal(Seq::filter);
    assert(chunks.push(chunk).drop_last() =~= chunks);
}

/// The data of a row of chunks is their bytes joined in order.
pub proof fn law_data_joins_the_chunks(chunks: Seq<Seq<u8>>)
    ensures
        data(chunks) == chunks.flatten(),
    decreases chunks.len(),
{
    if chunks.len() == 0 {
        assert(chunks.flatten() =~= data(chunks));
    } else {
        law_data_joins_the_chunks(chunks.drop_last());
        chunks.lemma_flatten_and_flatten_alt_are_equivalent();
        chunks.drop_last().lemma_flatten_and_flatten_alt_are_equivalent();
    }
}

} // verus!
