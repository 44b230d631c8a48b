//! The partition of a corpus into contiguous chunks of a fixed size.
//!
//! The boundaries depend on the number of documents and on the chunk size
//! alone, so they are the same on every run over an unchanged corpus.

use vstd::prelude::*;

verus! {

/// The number of documents in a chunk unless the caller configures another.
pub const DEFAULT_CHUNK_SIZE: usize = 1000;

/// The number of chunks that `len` items fall into: `len / chunk_size`,
/// rounded up.
pub open spec fn chunk_count(len: nat, chunk_size: nat) -> nat {
    ((len + chunk_size - 1) / (chunk_size as int)) as nat
}

/// The position of the first item of chunk `index`.
pub open spec fn chunk_start(index: nat, chunk_size: nat) -> nat {
    index * chunk_size
}

/// The position after the last item of chunk `index`: the chunk is cut short
/// where the items end.
pub open spec fn chunk_end(len: nat, index: nat, chunk_size: nat) -> nat {
    if (index + 1) * chunk_size < len {
        (index + 1) * chunk_size
    } else {
        len
    }
}

/// The items of chunk `index`, in the order in which `items` holds them.
pub open spec fn chunk_of<T>(items: Seq<T>, index: nat, chunk_size: nat) -> Seq<T> {
    items.subrange(
        chunk_start(index, chunk_size) as int,
        chunk_end(items.len(), index, chunk_size) as int,
    )
}

/// Chunk `index` exists exactly when it starts before the items end.
pub proof fn lemma_chunk_exists(len: nat, chunk_size: nat, index: nat)
    requires
        chunk_size > 0,
    ensures
        index < chunk_count(len, chunk_size) <==> chunk_start(index, chunk_size) < len,
{
    let total = (len + chunk_size - 1) as int;
    let size = chunk_size as int;
    let count = total / size;
    let spare = total % size;
    let i = index as int;
    assert(total == count * size + spare && 0 <= spare < size) by (nonlinear_arith)
        requires
            size > 0,
            total >= 0,
            count == total / size,
            spare == total % size,
    ;
    assert(count >= 0) by (nonlinear_arith)
        requires
            size > 0,
            total >= 0,
            count == total / size,
    ;
    if i < count {
        assert(i * size + size <= count * size) by (nonlinear_arith)
            requires
                i + 1 <= count,
                size > 0,
        ;
    } else {
        assert(i * size >= count * size) by (nonlinear_arith)
            requires
                i >= count,
                size > 0,
        ;
    }
}

/// The chunk count is the quotient `len / chunk_size` rounded up: the least
/// number of chunks of `chunk_size` items that hold `len` items.
pub proof fn lemma_chunk_count_is_ceiling(len: nat, chunk_size: nat)
    requires
        chunk_size > 0,
    ensures
        chunk_count(len, chunk_size) * chunk_size >= len,
        len > 0 ==> (chunk_count(len, chunk_size) - 1) * chunk_size < len,
        len == 0 ==> chunk_count(len, chunk_size) == 0,
        len % chunk_size == 0 ==> chunk_count(len, chunk_size) == len / chunk_size,
        len % chunk_size != 0 ==> chunk_count(len, chunk_size) == len / chunk_size + 1,
{
    let count = chunk_count(len, chunk_size);
    lemma_chunk_exists(len, chunk_size, count);
    if count > 0 {
        lemma_chunk_exists(len, chunk_size, (count - 1) as nat);
    } else {
        lemma_chunk_exists(len, chunk_size, 0);
    }
    let size = chunk_size as int;
    let n = len as int;
    let q = n / size;
    let r = n % size;
    assert(n == q * size + r && 0 <= r < size && q >= 0) by (nonlinear_arith)
        requires
            size > 0,
            n >= 0,
            q == n / size,
            r == n % size,
    ;
    let i = if r == 0 {
        q
    } else {
        q + 1
    };
    lemma_chunk_exists(len, chunk_size, i as nat);
    assert(i * size >= n) by (nonlinear_arith)
        requires
            n == q * size + r,
            0 <= r < size,
            i == if r == 0 {
                q
            } else {
                q + 1
            },
    ;
    if i > 0 {
        lemma_chunk_exists(len, chunk_size, (i - 1) as nat);
        assert((i - 1) * size < n) by (nonlinear_arith)
            requires
                n == q * size + r,
                0 <= r < size,
                i > 0,
                i == if r == 0 {
                    q
                } else {
                    q + 1
                },
        ;
    }
}

/// The chunks partition the items: the first starts at the first item, each
/// starts where the one before it ends, none is empty or longer than
/// `chunk_size`, only the last may be shorter, and the last ends with the
/// last item.
pub proof fn lemma_chunks_partition(len: nat, chunk_size: nat, index: nat)
    requires
        chunk_size > 0,
        index < chunk_count(len, chunk_size),
    ensures
        chunk_start(0, chunk_size) == 0,
        chunk_start(index, chunk_size) < chunk_end(len, index, chunk_size) <= len,
        chunk_end(len, index, chunk_size) - chunk_start(index, chunk_size) <= chunk_size,
        index + 1 < chunk_count(len, chunk_size) ==> chunk_end(len, index, chunk_size)
            == chunk_start(index + 1, chunk_size) && chunk_end(len, index, chunk_size)
            - chunk_start(index, chunk_size) == chunk_size,
        index + 1 == chunk_count(len, chunk_size) ==> chunk_end(len, index, chunk_size) == len,
{
    lemma_chunk_exists(len, chunk_size, index);
    lemma_chunk_exists(len, chunk_size, index + 1);
    assert((index + 1) * chunk_size == index * chunk_size + chunk_size) by (nonlinear_arith);
}

/// Counts the chunks that `len` items fall into.
pub fn count_chunks(len: usize, chunk_size: usize) -> (count: usize)
    requires
        chunk_size > 0,
    ensures
        count == chunk_count(len as nat, chunk_size as nat),
{
    if len == 0 {
        assert((chunk_size - 1) / (chunk_size as int) == 0) by (nonlinear_arith)
            requires
                chunk_size > 0,
        ;
        0
    } else {
        assert((len + chunk_size - 1) / (chunk_size as int) == (len - 1) / (chunk_size as int) + 1)
            by (nonlinear_arith)
            requires
                chunk_size > 0,
                len > 0,
        ;
        assert((len - 1) / (chunk_size as int) <= len - 1) by (nonlinear_arith)
            requires
                chunk_size > 0,
                len > 0,
        ;
        (len - 1) / chunk_size + 1
    }
}

/// The bounds of chunk `index` among `len` items: the position of its first
/// item and the position after its last.
pub fn chunk_bounds(len: usize, chunk_size: usize, index: usize) -> (bounds: (usize, usize))
    requires
        chunk_size > 0,
        index < chunk_count(len as nat, chunk_size as nat),
    ensures
        bounds.0 == chunk_start(index as nat, chunk_size as nat),
        bounds.1 == chunk_end(len as nat, index as nat, chunk_size as nat),
{
    proof {
        lemma_chunk_exists(len as nat, chunk_size as nat, index as nat);
        assert((index + 1) * chunk_size == index * chunk_size + chunk_size) by (nonlinear_arith);
    }
    let start: usize = index * chunk_size;
    let end: usize = if len - start > chunk_size {
        start + chunk_size
    } else {
        len
    };
    (start, end)
}

} // verus!
