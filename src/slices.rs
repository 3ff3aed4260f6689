//! The sequence model behind slice splitting, chunking and copying.
use vstd::prelude::*;

verus! {

/// The elements of a run of arrays, in order: the arrays laid end to end.
pub open spec fn flatten<T, const N: usize>(chunks: Seq<[T; N]>) -> Seq<T>
    decreases chunks.len(),
{
    if chunks.len() == 0 {
        Seq::empty()
    } else {
        flatten(chunks.drop_last()) + chunks.last()@
    }
}

/// `s` after the elements in `start..end` are copied to the positions from
/// `dest` on, as if through a temporary buffer (the two ranges may overlap).
pub open spec fn copied_within<T>(s: Seq<T>, start: int, end: int, dest: int) -> Seq<T> {
    Seq::new(
        s.len(),
        |j: int|
            if dest <= j < dest + (end - start) {
                s[start + (j - dest)]
            } else {
                s[j]
            },
    )
}

/// `left` and `right` are what splitting `s` at `mid` gives.
pub open spec fn split_parts<T>(s: Seq<T>, mid: int, left: Seq<T>, right: Seq<T>) -> bool {
    &&& left == s.subrange(0, mid)
    &&& right == s.subrange(mid, s.len() as int)
}

/// `chunks` and `rest` are what grouping `s` into arrays of `N` elements
/// gives: as many whole arrays as fit, from the start, and what is left over.
pub open spec fn chunked<T, const N: usize>(s: Seq<T>, chunks: Seq<[T; N]>, rest: Seq<T>) -> bool {
    &&& chunks.len() == s.len() / (N as nat)
    &&& forall|i: int|
        0 <= i < chunks.len() ==> (#[trigger] chunks[i])@ == s.subrange(
            i * N,
            i * N + N,
        )
    &&& rest == s.subrange(chunks.len() * N, s.len() as int)
}

/// Splitting at any position within bounds gives a left part of length `mid`
/// and a right part of the remaining length, which together are the whole of `s`.
pub proof fn lemma_split_reconstructs<T>(s: Seq<T>, mid: int, left: Seq<T>, right: Seq<T>)
    requires
        0 <= mid <= s.len(),
        split_parts(s, mid, left, right),
    ensures
        left.len() == mid,
        right.len() == s.len() - mid,
        left + right == s,
{
    assert(left + right =~= s);
}

/// Flattening arrays of `N` elements gives `N` elements per array.
pub proof fn lemma_flatten_len<T, const N: usize>(chunks: Seq<[T; N]>)
    ensures
        flatten(chunks).len() == chunks.len() * N,
    decreases chunks.len(),
{
    if chunks.len() > 0 {
        lemma_flatten_len(chunks.drop_last());
        assert(chunks.last()@.len() == N);
        assert((chunks.len() - 1) * N + N == chunks.len() * N) by (nonlinear_arith);
    }
}

/// Grouping a sequence of length `L` into arrays of `N` elements gives `L / N`
/// arrays and a rest of length `L % N`; the arrays laid end to end, followed
/// by the rest, are `s` itself.
pub proof fn lemma_chunks_reconstruct<T, const N: usize>(
    s: Seq<T>,
    chunks: Seq<[T; N]>,
    rest: Seq<T>,
)
    requires
        N > 0,
        chunked(s, chunks, rest),
    ensures
        chunks.len() == s.len() / (N as nat),
        rest.len() == s.len() % (N as nat),
        flatten(chunks) + rest == s,
{
    let n = N as int;
    let k = chunks.len() as int;
    let len = s.len() as int;
    assert(k * n <= len && len - k * n == len % n) by (nonlinear_arith)
        requires
            n > 0,
            k == len / n,
            len >= 0,
    ;
    lemma_flatten_prefix(s, chunks, k);
    assert(chunks.subrange(0, k) =~= chunks);
    assert(flatten(chunks) + rest =~= s);
}

/// The first `j` arrays of a grouping, laid end to end, are the first `j * N`
/// elements of the grouped sequence.
proof fn lemma_flatten_prefix<T, const N: usize>(s: Seq<T>, chunks: Seq<[T; N]>, j: int)
    requires
        0 <= j <= chunks.len(),
        chunks.len() * N <= s.len(),
        forall|i: int|
            0 <= i < chunks.len() ==> (#[trigger] chunks[i])@ == s.subrange(i * N, i * N + N),
    ensures
        flatten(chunks.subrange(0, j)) == s.subrange(0, j * N),
    decreases j,
{
    let n = N as int;
    if j == 0 {
        assert(flatten(chunks.subrange(0, 0)) =~= s.subrange(0, 0));
    } else {
        lemma_flatten_prefix(s, chunks, j - 1);
        let pre = chunks.subrange(0, j);
        assert(pre.drop_last() =~= chunks.subrange(0, j - 1));
        assert((j - 1) * n + n == j * n) by (nonlinear_arith);
        assert(j * n <= chunks.len() * n) by (nonlinear_arith)
            requires
                j <= chunks.len(),
                n >= 0,
        ;
        assert(pre.last() == chunks[j - 1]);
        assert(flatten(pre) =~= s.subrange(0, j * n));
    }
}

} // verus!
