use vstd::prelude::*;
use vstd::slice::slice_subrange;
use crate::bf16::{bf16_decode, to_f32_bits};

verus! {

/// Bytes of one token's row in the per-layer embedding table: one bf16
/// number for each layer and each per-layer dimension.
pub open spec fn ple_row_len(num_layers: int, ple_dim: int) -> int {
    num_layers * ple_dim * 2
}

/// First byte of the row of `token` in a file whose table starts at `offset`.
pub open spec fn ple_row_start(offset: int, num_layers: int, ple_dim: int, token: int) -> int {
    offset + ple_row_len(num_layers, ple_dim) * token
}

/// Reads the per-layer embedding row of `token` from the mapped checkpoint
/// `buffer`, whose table starts `table_offset` bytes in; entry
/// `ple_dim * layer + dim` of the result belongs to layer `layer`. `None`
/// when the row would end past the buffer.
pub fn ple_row_bits(
    buffer: &[u8],
    table_offset: usize,
    num_layers: usize,
    ple_dim: usize,
    token: u32,
) -> (res: Option<Vec<u32>>)
    ensures
        res is Some <==> ple_row_start(
            table_offset as int,
            num_layers as int,
            ple_dim as int,
            token as int,
        ) + ple_row_len(num_layers as int, ple_dim as int) <= buffer@.len(),
        res matches Some(v) ==> v@ == bf16_decode(
            buffer@.subrange(
                ple_row_start(table_offset as int, num_layers as int, ple_dim as int, token as int),
                ple_row_start(table_offset as int, num_layers as int, ple_dim as int, token as int)
                    + ple_row_len(num_layers as int, ple_dim as int),
            ),
        ),
        res matches Some(v) ==> v@.len() == num_layers * ple_dim,
{
    let ghost row_len: int = ple_row_len(num_layers as int, ple_dim as int);
    let ghost start: int = ple_row_start(
        table_offset as int,
        num_layers as int,
        ple_dim as int,
        token as int,
    );
    let tok: usize = token as usize;
    let available: usize = buffer.len();
    proof {
        assert(num_layers * ple_dim >= 0 && row_len >= num_layers * ple_dim) by (nonlinear_arith)
            requires
                row_len == num_layers * ple_dim * 2,
        ;
        assert(row_len * tok >= 0 && start + row_len == table_offset + row_len * (tok + 1))
            by (nonlinear_arith)
            requires
                row_len >= 0,
                start == table_offset + row_len * tok,
        ;
        assert(row_len * (tok + 1) >= row_len * tok && row_len * (tok + 1) >= row_len)
            by (nonlinear_arith)
            requires
                row_len >= 0,
                tok >= 0,
        ;
    }
    let lp = match num_layers.checked_mul(ple_dim) {
        Some(x) => x,
        None => {
            return None;
        },
    };
    let row = match lp.checked_mul(2) {
        Some(x) => x,
        None => {
            return None;
        },
    };
    let skip = match row.checked_mul(tok) {
        Some(x) => x,
        None => {
            return None;
        },
    };
    let first = match table_offset.checked_add(skip) {
        Some(x) => x,
        None => {
            return None;
        },
    };
    let last = match first.checked_add(row) {
        Some(x) => x,
        None => {
            return None;
        },
    };
    if last > available {
        return None;
    }
    let bytes = slice_subrange(buffer, first, last);
    proof {
        lemma_ple_row_count(bytes@, num_layers as nat, ple_dim as nat);
    }
    Some(to_f32_bits(bytes))
}

/// Rows of different tokens never overlap: the row of a lower token ends at
/// or before the row of a higher token starts.
pub proof fn lemma_ple_rows_disjoint(
    offset: nat,
    num_layers: nat,
    ple_dim: nat,
    lower: nat,
    higher: nat,
)
    requires
        lower < higher,
    ensures
        ple_row_start(offset as int, num_layers as int, ple_dim as int, lower as int) + ple_row_len(
            num_layers as int,
            ple_dim as int,
        ) <= ple_row_start(offset as int, num_layers as int, ple_dim as int, higher as int),
{
    let r = ple_row_len(num_layers as int, ple_dim as int);
    assert(r >= 0) by (nonlinear_arith)
        requires
            r == num_layers * ple_dim * 2,
    ;
    assert(r * lower + r <= r * higher) by (nonlinear_arith)
        requires
            r >= 0,
            lower < higher,
    ;
}

/// When the table's bytes lie in the file from `offset` on, the row that
/// `ple_row_bits` reads for `token` is the token's row of the table.
pub proof fn lemma_ple_row_within_table(
    file: Seq<u8>,
    offset: nat,
    table: Seq<u8>,
    num_layers: nat,
    ple_dim: nat,
    token: nat,
)
    requires
        offset + table.len() <= file.len(),
        file.subrange(offset as int, (offset + table.len()) as int) == table,
        ple_row_len(num_layers as int, ple_dim as int) * (token + 1) <= table.len(),
    ensures
        ({
            let row = ple_row_len(num_layers as int, ple_dim as int);
            let start = ple_row_start(offset as int, num_layers as int, ple_dim as int, token as int);
            file.subrange(start, start + row) == table.subrange(row * token, row * (token + 1))
        }),
{
    let row = ple_row_len(num_layers as int, ple_dim as int);
    let start = ple_row_start(offset as int, num_layers as int, ple_dim as int, token as int);
    assert(row >= 0) by (nonlinear_arith)
        requires
            row == num_layers * ple_dim * 2,
    ;
    assert(0 <= row * token && row * token + row == row * (token + 1)) by (nonlinear_arith)
        requires
            row >= 0,
            token >= 0,
    ;
    let a = file.subrange(start, start + row);
    let b = table.subrange(row * token, row * (token + 1));
    assert forall|k: int| 0 <= k < row implies #[trigger] a[k] == b[k] by {
        assert(file[start + k] == file.subrange(offset as int, (offset + table.len()) as int)[row * token + k]);
    }
    assert(a =~= b);
}

/// A row holds one number for every layer and per-layer dimension.
pub proof fn lemma_ple_row_count(bytes: Seq<u8>, num_layers: nat, ple_dim: nat)
    requires
        bytes.len() == ple_row_len(num_layers as int, ple_dim as int),
    ensures
        bf16_decode(bytes).len() == num_layers * ple_dim,
{
    assert(bytes.len() / 2 == num_layers * ple_dim) by (nonlinear_arith)
        requires
            bytes.len() == num_layers * ple_dim * 2,
    ;
}

} // verus!
