//! Splits raw document bytes into fixed-size pieces for upload.

use vstd::prelude::*;

verus! {

/// The byte ranges `chunk_pdf` cuts `data` into: consecutive pieces of
/// `chunk_size` bytes, the last one shorter when the data does not divide
/// evenly. A `chunk_size` of zero yields the whole input as one piece.
pub open spec fn is_chunking(chunks: Seq<Vec<u8>>, data: Seq<u8>, chunk_size: int) -> bool {
    if chunk_size <= 0 {
        chunks.len() == 1 && chunks[0]@ =~= data
    } else {
        &&& chunks.len() == crate::planner::chunk_count(data.len() as int, chunk_size)
        &&& forall|i: int|
            0 <= i < chunks.len() ==> (#[trigger] chunks[i])@ =~= data.subrange(
                i * chunk_size,
                if (i + 1) * chunk_size <= data.len() {
                    (i + 1) * chunk_size
                } else {
                    data.len() as int
                },
            )
    }
}

/// Cuts `data` into pieces of `chunk_size` bytes each, the last piece
/// holding the remainder. With `chunk_size == 0` the whole input comes
/// back as a single piece.
pub fn chunk_pdf(data: &[u8], chunk_size: usize) -> (chunks: Vec<Vec<u8>>)
    ensures
        is_chunking(chunks@, data@, chunk_size as int),
{
    let mut chunks: Vec<Vec<u8>> = Vec::new();
    if chunk_size == 0 {
        let mut whole: Vec<u8> = Vec::new();
        let mut j: usize = 0;
        while j < data.len()
            invariant
                j <= data.len(),
                whole@ =~= data@.subrange(0, j as int),
            decreases data.len() - j,
        {
            whole.push(data[j]);
            j = j + 1;
        }
        assert(whole@ =~= data@);
        chunks.push(whole);
        return chunks;
    }
    let mut start: usize = 0;
    proof {
        vstd::arithmetic::mul::lemma_mul_basics(chunk_size as int);
    }
    while start < data.len()
        invariant
            chunk_size >= 1,
            start <= data.len(),
            start < data.len() ==> start as int == chunks@.len() * chunk_size,
            chunks@.len() + crate::planner::chunk_count(
                data.len() - start,
                chunk_size as int,
            ) == crate::planner::chunk_count(data.len() as int, chunk_size as int),
            forall|i: int|
                0 <= i < chunks@.len() ==> (#[trigger] chunks@[i])@ =~= data@.subrange(
                    i * chunk_size,
                    if (i + 1) * chunk_size <= data.len() {
                        (i + 1) * chunk_size
                    } else {
                        data.len() as int
                    },
                ),
        decreases data.len() - start,
    {
        let remaining = data.len() - start;
        let step = if remaining < chunk_size {
            remaining
        } else {
            chunk_size
        };
        let end = start + step;
        let mut piece: Vec<u8> = Vec::new();
        let mut j: usize = start;
        while j < end
            invariant
                start <= j <= end <= data.len(),
                piece@ =~= data@.subrange(start as int, j as int),
            decreases end - j,
        {
            piece.push(data[j]);
            j = j + 1;
        }
        proof {
            let t: int = data.len() as int - start as int;
            let u: int = chunk_size as int;
            assert((chunks@.len() as int + 1) * u == chunks@.len() * u + u) by (nonlinear_arith);
            assert(crate::planner::chunk_count(t, u) == 1 + crate::planner::chunk_count(
                if t - u > 0 {
                    t - u
                } else {
                    0
                },
                u,
            ));
        }
        chunks.push(piece);
        start = end;
    }
    chunks
}

} // verus!
