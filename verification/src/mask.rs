use vstd::prelude::*;

verus! {

/// Query `i` may not attend to key `j`: keys after the query are hidden, and a
/// sliding layer also hides keys more than `window` positions behind it.
pub open spec fn spec_is_masked(i: int, j: int, is_sliding: bool, window: int) -> bool {
    j > i || (is_sliding && i - j > window)
}

/// Whether score `[i, j]` of an attention matrix is set to minus infinity.
pub fn is_masked(i: usize, j: usize, is_sliding: bool, sliding_window: usize) -> (m: bool)
    ensures
        m == spec_is_masked(i as int, j as int, is_sliding, sliding_window as int),
{
    if j > i {
        true
    } else {
        is_sliding && i - j > sliding_window
    }
}

/// The mask of an `n` by `n` score matrix, row by row: entry `[i][j]` tells
/// whether query `i` is kept from key `j`.
pub fn attention_mask(n: usize, is_sliding: bool, sliding_window: usize) -> (mask: Vec<Vec<bool>>)
    ensures
        mask@.len() == n,
        forall|i: int| 0 <= i < n ==> (#[trigger] mask@[i])@.len() == n,
        forall|i: int, j: int|
            0 <= i < n && 0 <= j < n ==> #[trigger] mask@[i]@[j] == spec_is_masked(
                i,
                j,
                is_sliding,
                sliding_window as int,
            ),
{
    let mut mask: Vec<Vec<bool>> = Vec::with_capacity(n);
    let mut i: usize = 0;
    while i < n
        invariant
            i <= n,
            mask@.len() == i,
            forall|r: int| 0 <= r < i ==> (#[trigger] mask@[r])@.len() == n,
            forall|r: int, c: int|
                0 <= r < i && 0 <= c < n ==> #[trigger] mask@[r]@[c] == spec_is_masked(
                    r,
                    c,
                    is_sliding,
                    sliding_window as int,
                ),
        decreases n - i,
    {
        let mut row: Vec<bool> = Vec::with_capacity(n);
        let mut j: usize = 0;
        while j < n
            invariant
                i < n,
                j <= n,
                row@.len() == j,
                forall|c: int|
                    0 <= c < j ==> row@[c] == spec_is_masked(
                        i as int,
                        c,
                        is_sliding,
                        sliding_window as int,
                    ),
            decreases n - j,
        {
            row.push(is_masked(i, j, is_sliding, sliding_window));
            j = j + 1;
        }
        mask.push(row);
        i = i + 1;
    }
    mask
}

/// No query is ever kept from its own key, so every row of scores keeps at
/// least one finite entry and its softmax is well defined.
pub proof fn lemma_mask_keeps_diagonal(i: usize, is_sliding: bool, sliding_window: usize)
    ensures
        !spec_is_masked(i as int, i as int, is_sliding, sliding_window as int),
{
}

/// A full-attention layer hides exactly the keys after the query.
pub proof fn lemma_full_attention_is_causal(i: usize, j: usize, sliding_window: usize)
    ensures
        spec_is_masked(i as int, j as int, false, sliding_window as int) <==> j > i,
{
}

/// A sliding layer keeps exactly the keys from `i - window` up to `i`.
pub proof fn lemma_sliding_window_keeps(i: usize, j: usize, sliding_window: usize)
    ensures
        !spec_is_masked(i as int, j as int, true, sliding_window as int) <==> (i - sliding_window
            <= j <= i),
{
}

/// A sliding layer hides every key that a full layer hides, and a narrower
/// window hides every key that a wider one hides.
pub proof fn lemma_mask_monotone(
    i: usize,
    j: usize,
    is_sliding: bool,
    narrow: usize,
    wide: usize,
)
    requires
        narrow <= wide,
    ensures
        spec_is_masked(i as int, j as int, false, wide as int) ==> spec_is_masked(
            i as int,
            j as int,
            is_sliding,
            narrow as int,
        ),
        spec_is_masked(i as int, j as int, is_sliding, wide as int) ==> spec_is_masked(
            i as int,
            j as int,
            is_sliding,
            narrow as int,
        ),
{
}

} // verus!
