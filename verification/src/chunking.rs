//! How a file is cut into chunks: every chunk but the last is full, none is
//! empty, and together they are the file.

use vstd::prelude::*;

verus! {

/// The number of chunks of at most `chunk` bytes that `size` bytes make:
/// `size / chunk`, rounded up.
pub open spec fn chunk_count(size: nat, chunk: nat) -> nat {
    if size % chunk == 0 {
        size / chunk
    } else {
        size / chunk + 1
    }
}

/// The chunks of `data`, in order, as sequential reads of `chunk` bytes
/// deliver them.
pub open spec fn chunks_of(data: Seq<u8>, chunk: nat) -> Seq<Seq<u8>>
    decreases data.len(),
{
    if data.len() == 0 || chunk == 0 {
        Seq::empty()
    } else if data.len() <= chunk {
        seq![data]
    } else {
        seq![data.take(chunk as int)] + chunks_of(data.skip(chunk as int), chunk)
    }
}

/// The chunks, one after the other.
pub open spec fn joined(chunks: Seq<Seq<u8>>) -> Seq<u8>
    decreases chunks.len(),
{
    if chunks.len() == 0 {
        Seq::empty()
    } else {
        chunks.first() + joined(chunks.drop_first())
    }
}

proof fn lemma_count_step(size: nat, chunk: nat)
    requires
        chunk > 0,
        size > chunk,
    ensures
        chunk_count(size, chunk) == 1 + chunk_count((size - chunk) as nat, chunk),
{
    let rest = (size - chunk) as nat;
    assert(size / chunk == rest / chunk + 1 && size % chunk == rest % chunk) by (nonlinear_arith)
        requires
            chunk > 0,
            size > chunk,
            rest == size - chunk,
    ;
}

proof fn lemma_count_small(size: nat, chunk: nat)
    requires
        chunk > 0,
        0 < size <= chunk,
    ensures
        chunk_count(size, chunk) == 1,
{
    assert(chunk_count(size, chunk) == 1) by (nonlinear_arith)
        requires
            chunk > 0,
            0 < size <= chunk,
            chunk_count(size, chunk) == if size % chunk == 0 {
                size / chunk
            } else {
                size / chunk + 1
            },
    ;
}

/// Cutting `data` into chunks of `chunk` bytes gives `data.len() / chunk`
/// chunks, rounded up; none is empty or longer than `chunk`, all but the
/// last are full, and joined they are `data`.
pub proof fn lemma_chunks_of(data: Seq<u8>, chunk: nat)
    requires
        chunk > 0,
    ensures
        chunks_of(data, chunk).len() == chunk_count(data.len(), chunk),
        forall|i: int|
            0 <= i < chunks_of(data, chunk).len() ==> 0 < (#[trigger] chunks_of(data, chunk)[i]).len()
                <= chunk,
        forall|i: int|
            0 <= i < chunks_of(data, chunk).len() - 1 ==> (#[trigger] chunks_of(
                data,
                chunk,
            )[i]).len() == chunk,
        joined(chunks_of(data, chunk)) == data,
    decreases data.len(),
{
    let chunks = chunks_of(data, chunk);
    if data.len() == 0 {
        assert(chunk_count(0, chunk) == 0) by (nonlinear_arith)
            requires
                chunk > 0,
                chunk_count(0, chunk) == if 0nat % chunk == 0 {
                    0nat / chunk
                } else {
                    0nat / chunk + 1
                },
        ;
        assert(joined(chunks) =~= data);
    } else if data.len() <= chunk {
        lemma_count_small(data.len(), chunk);
        assert(chunks.drop_first() =~= Seq::<Seq<u8>>::empty());
        assert(joined(chunks.drop_first()) =~= Seq::<u8>::empty());
        assert(joined(chunks) =~= data);
    } else {
        let rest = data.skip(chunk as int);
        lemma_chunks_of(rest, chunk);
        lemma_count_step(data.len(), chunk);
        let tail = chunks_of(rest, chunk);
        assert(chunks.drop_first() =~= tail);
        assert(joined(chunks) =~= data);
        assert forall|i: int| 0 <= i < chunks.len() implies 0 < (#[trigger] chunks[i]).len()
            <= chunk by {
            if i > 0 {
                assert(chunks[i] == tail[i - 1]);
            }
        }
        assert forall|i: int| 0 <= i < chunks.len() - 1 implies (#[trigger] chunks[i]).len()
            == chunk by {
            if i > 0 {
                assert(chunks[i] == tail[i - 1]);
            }
        }
    }
}

} // verus!
