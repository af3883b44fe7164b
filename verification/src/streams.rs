//! The streaming routes' byte handling.
//!
//! The demo stream routes send a message in small chunks, and the body
//! collector route reassembles whatever chunks arrived. Chunking and
//! reassembly are exact inverses; the transport around them only moves
//! the pieces.

use vstd::prelude::*;

verus! {

/// The byte contents of a run of chunks.
pub open spec fn bytes_of(chunks: Seq<Vec<u8>>) -> Seq<Seq<u8>> {
    chunks.map_values(|c: Vec<u8>| c@)
}

/// The single byte run a run of chunks concatenates to.
pub open spec fn concat_spec(chunks: Seq<Vec<u8>>) -> Seq<u8> {
    bytes_of(chunks).flatten()
}

/// Splits `bytes` into successive chunks of exactly `size` bytes, the
/// last chunk alone allowed to be shorter; concatenating the chunks
/// restores `bytes`.
pub fn chunk_bytes(bytes: &Vec<u8>, size: usize) -> (chunks: Vec<Vec<u8>>)
    requires
        size >= 1,
    ensures
        concat_spec(chunks@) == bytes@,
        forall|i: int| 0 <= i < chunks@.len() ==> 1 <= (#[trigger] chunks@[i])@.len() <= size,
        forall|i: int| 0 <= i < chunks@.len() - 1 ==> (#[trigger] chunks@[i])@.len() == size,
{
    broadcast use Seq::lemma_flatten_push;
    broadcast use Seq::lemma_push_map_commute;

    let mut chunks: Vec<Vec<u8>> = Vec::new();
    let mut pos: usize = 0;
    proof {
        assert(bytes_of(chunks@) =~= Seq::<Seq<u8>>::empty());
        assert(concat_spec(chunks@) =~= bytes@.subrange(0, 0));
    }
    while pos < bytes.len()
        invariant
            size >= 1,
            pos <= bytes@.len(),
            concat_spec(chunks@) == bytes@.subrange(0, pos as int),
            forall|i: int| 0 <= i < chunks@.len() ==> 1 <= (#[trigger] chunks@[i])@.len() <= size,
            forall|i: int|
                0 <= i < chunks@.len() - 1 ==> (#[trigger] chunks@[i])@.len() == size,
            chunks@.len() > 0 && chunks@.last()@.len() < size ==> pos == bytes@.len(),
        decreases bytes@.len() - pos,
    {
        let remaining = bytes.len() - pos;
        let take = if remaining < size {
            remaining
        } else {
            size
        };
        let end = pos + take;
        let mut chunk: Vec<u8> = Vec::new();
        let mut j = pos;
        while j < end
            invariant
                pos <= j <= end,
                end <= bytes@.len(),
                chunk@ == bytes@.subrange(pos as int, j as int),
            decreases end - j,
        {
            chunk.push(bytes[j]);
            proof {
                assert(bytes@.subrange(pos as int, j + 1 as int) =~= bytes@.subrange(
                    pos as int,
                    j as int,
                ).push(bytes@[j as int]));
            }
            j = j + 1;
        }
        proof {
            assert(bytes_of(chunks@.push(chunk)) =~= bytes_of(chunks@).push(chunk@));
            bytes_of(chunks@).lemma_flatten_push(chunk@);
            assert(concat_spec(chunks@.push(chunk)) =~= concat_spec(chunks@) + chunk@);
            assert(bytes@.subrange(0, pos as int) + bytes@.subrange(pos as int, end as int)
                =~= bytes@.subrange(0, end as int));
        }
        chunks.push(chunk);
        pos = end;
    }
    proof {
        assert(bytes@.subrange(0, bytes@.len() as int) =~= bytes@);
    }
    chunks
}

/// Concatenates a run of body chunks back into one byte run.
pub fn concat_chunks(chunks: &Vec<Vec<u8>>) -> (out: Vec<u8>)
    ensures
        out@ == concat_spec(chunks@),
{
    broadcast use Seq::lemma_flatten_push;
    broadcast use Seq::lemma_push_map_commute;

    let mut out: Vec<u8> = Vec::new();
    let mut i: usize = 0;
    proof {
        assert(bytes_of(chunks@.subrange(0, 0)) =~= Seq::<Seq<u8>>::empty());
        assert(out@ =~= concat_spec(chunks@.subrange(0, 0)));
    }
    while i < chunks.len()
        invariant
            i <= chunks@.len(),
            out@ == concat_spec(chunks@.subrange(0, i as int)),
        decreases chunks@.len() - i,
    {
        let chunk = &chunks[i];
        let mut j: usize = 0;
        while j < chunk.len()
            invariant
                j <= chunk@.len(),
                i < chunks@.len(),
                chunk == &chunks@[i as int],
                out@ == concat_spec(chunks@.subrange(0, i as int)) + chunk@.subrange(
                    0,
                    j as int,
                ),
            decreases chunk@.len() - j,
        {
            out.push(chunk[j]);
            proof {
                assert(chunk@.subrange(0, j + 1 as int) =~= chunk@.subrange(0, j as int).push(
                    chunk@[j as int],
                ));
                assert(concat_spec(chunks@.subrange(0, i as int)) + chunk@.subrange(0, j as int)
                    + seq![chunk@[j as int]] =~= concat_spec(chunks@.subrange(0, i as int))
                    + chunk@.subrange(0, j + 1 as int));
            }
            j = j + 1;
        }
        proof {
            assert(chunk@.subrange(0, chunk@.len() as int) =~= chunk@);
            assert(chunks@.subrange(0, i + 1 as int) =~= chunks@.subrange(0, i as int).push(
                chunks@[i as int],
            ));
            assert(bytes_of(chunks@.subrange(0, i as int).push(chunks@[i as int])) =~= bytes_of(
                chunks@.subrange(0, i as int),
            ).push(chunks@[i as int]@));
            bytes_of(chunks@.subrange(0, i as int)).lemma_flatten_push(chunks@[i as int]@);
            assert(concat_spec(chunks@.subrange(0, i + 1 as int)) =~= concat_spec(
                chunks@.subrange(0, i as int),
            ) + chunks@[i as int]@);
        }
        i = i + 1;
    }
    proof {
        assert(chunks@.subrange(0, chunks@.len() as int) =~= chunks@);
    }
    out
}

} // verus!
