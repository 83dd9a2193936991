use vstd::prelude::*;
use vstd::slice::{slice_subrange, slice_to_vec};

verus! {

/// One offset-addressed slice of a payload, written by one transaction.
pub struct Chunk {
    pub index: u32,
    pub offset: u32,
    pub bytes: Vec<u8>,
}

/// Number of chunks of `size` bytes needed to cover `len` bytes: `ceil(len / size)`.
pub open spec fn chunk_count(len: nat, size: nat) -> nat
    recommends
        size > 0,
{
    ((len + size - 1) as nat / size) as nat
}

/// The bytes of chunk `i`: from `i * size` up to the next boundary or the end.
pub open spec fn chunk_piece(p: Seq<u8>, size: nat, i: int) -> Seq<u8> {
    let start = i * size;
    let end = if start + size <= p.len() { start + size } else { p.len() as int };
    p.subrange(start, end)
}

/// The payload cut into consecutive pieces of `size` bytes, the last one shorter.
pub open spec fn chunk_pieces(p: Seq<u8>, size: nat) -> Seq<Seq<u8>> {
    Seq::new(chunk_count(p.len(), size), |i: int| chunk_piece(p, size, i))
}

/// Chunk `i` sits at index `i` and offset `i * size`, and carries piece `i`.
pub open spec fn chunk_matches(c: Chunk, p: Seq<u8>, size: nat, i: int) -> bool {
    &&& c.index as int == i
    &&& c.offset as int == i * size
    &&& c.bytes@ == chunk_piece(p, size, i)
}

/// Splits `payload` into chunks of `chunk_size` bytes, in payload order; the
/// last chunk holds the remainder, and an empty payload gives no chunk.
pub fn chunk_payload(payload: &[u8], chunk_size: usize) -> (r: Vec<Chunk>)
    requires
        chunk_size > 0,
        payload@.len() <= u32::MAX,
    ensures
        r@.len() == chunk_count(payload@.len(), chunk_size as nat),
        forall|i: int| 0 <= i < r@.len() ==> chunk_matches(#[trigger] r@[i], payload@, chunk_size as nat, i),
        r@.map_values(|c: Chunk| c.bytes@) == chunk_pieces(payload@, chunk_size as nat),
{
    let len = payload.len();
    let mut chunks: Vec<Chunk> = Vec::new();
    let mut offset: usize = 0;
    let mut index: usize = 0;
    while offset < len
        invariant
            chunk_size > 0,
            len == payload@.len(),
            len <= u32::MAX,
            offset <= len,
            offset < len ==> offset == index * chunk_size,
            offset == len ==> index * chunk_size >= len,
            index > 0 ==> (index - 1) * chunk_size < len,
            chunks@.len() == index,
            forall|i: int| 0 <= i < chunks@.len() ==> chunk_matches(#[trigger] chunks@[i], payload@, chunk_size as nat, i),
        decreases len - offset,
    {
        let end: usize = if len - offset > chunk_size { offset + chunk_size } else { len };
        let bytes = slice_to_vec(slice_subrange(payload, offset, end));
        proof {
            assert(index <= offset) by (nonlinear_arith)
                requires offset == index * chunk_size, chunk_size > 0;
        }
        let chunk = Chunk { index: index as u32, offset: offset as u32, bytes };
        assert(chunk_matches(chunk, payload@, chunk_size as nat, index as int));
        chunks.push(chunk);
        proof {
            assert(index * chunk_size + chunk_size == (index + 1) * chunk_size) by (nonlinear_arith);
        }
        offset = end;
        index = index + 1;
    }
    proof {
        lemma_count_from_bounds(len as nat, chunk_size as nat, index as nat);
        assert(chunks@.map_values(|c: Chunk| c.bytes@) =~= chunk_pieces(payload@, chunk_size as nat));
    }
    chunks
}

/// Chunking gives `ceil(len / size)` pieces, and joining them in index order
/// gives back the payload exactly.
pub proof fn lemma_chunks_reassemble(p: Seq<u8>, size: nat)
    requires
        size > 0,
    ensures
        chunk_pieces(p, size).len() == chunk_count(p.len(), size),
        chunk_pieces(p, size).flatten() == p,
{
    let pieces = chunk_pieces(p, size);
    let n = chunk_count(p.len(), size);
    lemma_pieces_end(p.len(), size);
    if n > 0 {
        lemma_piece_bound(p.len(), size, (n - 1) as nat);
        assert((n - 1) * size + size == n * size) by (nonlinear_arith);
    }
    lemma_prefix_join(p, size, n);
    assert(pieces.take(n as int) =~= pieces);
    assert(p.subrange(0, p.len() as int) =~= p);
}

/// The first `k` pieces join to the payload's first `min(k * size, len)` bytes.
proof fn lemma_prefix_join(p: Seq<u8>, size: nat, k: nat)
    requires
        size > 0,
        k <= chunk_count(p.len(), size),
        k > 0 ==> (k - 1) * size < p.len(),
    ensures
        chunk_pieces(p, size).take(k as int).flatten() == p.subrange(0, if k * size <= p.len() { (k * size) as int } else { p.len() as int }),
    decreases k,
{
    let pieces = chunk_pieces(p, size);
    if k == 0 {
        assert(pieces.take(0).flatten() =~= p.subrange(0, 0));
    } else {
        let j = (k - 1) as nat;
        if j > 0 {
            assert((j - 1) * size < j * size) by (nonlinear_arith) requires size > 0, j > 0;
        }
        lemma_prefix_join(p, size, j);
        assert(j * size + size == k * size) by (nonlinear_arith) requires j + 1 == k;
        assert(pieces.take(k as int) =~= pieces.take(j as int).push(pieces[j as int]));
        pieces.take(j as int).lemma_flatten_push(pieces[j as int]);
        assert(pieces.take(k as int).flatten() =~= p.subrange(0, if k * size <= p.len() { (k * size) as int } else { p.len() as int }));
    }
}

/// Below the chunk count, the start of a chunk lies inside the payload.
proof fn lemma_piece_bound(len: nat, size: nat, k: nat)
    requires
        size > 0,
        k < chunk_count(len, size),
    ensures
        k * size < len,
{
    let m = len + size - 1;
    vstd::arithmetic::div_mod::lemma_fundamental_div_mod(m, size as int);
    let q = m / (size as int);
    assert(q == chunk_count(len, size));
    assert(k * size + size <= q * size) by (nonlinear_arith) requires k < q, size > 0;
    assert(q * size <= m) by (nonlinear_arith) requires m == size * q + m % (size as int), m % (size as int) >= 0;
}

/// All chunks together reach the end of the payload.
proof fn lemma_pieces_end(len: nat, size: nat)
    requires
        size > 0,
    ensures
        chunk_count(len, size) * size >= len,
{
    let m = len + size - 1;
    vstd::arithmetic::div_mod::lemma_fundamental_div_mod(m, size as int);
    let q = m / (size as int);
    assert(q * size >= len) by (nonlinear_arith)
        requires m == size * q + m % (size as int), m % (size as int) < size, m == len + size - 1;
}

/// `n` is `ceil(len / size)` when `n` chunks reach the end and `n - 1` do not.
proof fn lemma_count_from_bounds(len: nat, size: nat, n: nat)
    requires
        size > 0,
        n * size >= len,
        n > 0 ==> (n - 1) * size < len,
    ensures
        chunk_count(len, size) == n,
{
    if n == 0 {
        assert(len == 0) by (nonlinear_arith) requires n * size >= len, n == 0;
        assert((size - 1) as nat / size == 0) by (nonlinear_arith) requires size > 0;
    } else {
        let m = len + size - 1;
        let r = m - n * size;
        assert(n * size - size == (n - 1) * size) by (nonlinear_arith);
        vstd::arithmetic::div_mod::lemma_fundamental_div_mod_converse(m, size as int, n as int, r);
    }
}

} // verus!
