use vstd::prelude::*;

verus! {

/// The f32 bit pattern of the bf16 value stored little-endian as `[lo, hi]`:
/// the sixteen bf16 bits become the upper half of the f32 word.
pub open spec fn bf16_word(lo: u8, hi: u8) -> u32 {
    ((hi as int * 256 + lo as int) * 65536) as u32
}

/// Every complete byte pair of `bytes`, widened in order; a trailing odd byte
/// is ignored.
pub open spec fn bf16_decode(bytes: Seq<u8>) -> Seq<u32> {
    Seq::new(bytes.len() / 2, |i: int| bf16_word(bytes[2 * i], bytes[2 * i + 1]))
}

/// Widens a buffer of little-endian bf16 numbers to the bit patterns of the
/// equal f32 numbers (`f32::from_bits` of each word gives the value).
pub fn to_f32_bits(data: &[u8]) -> (bits: Vec<u32>)
    ensures
        bits@ == bf16_decode(data@),
{
    let n: usize = data.len() / 2;
    let mut out: Vec<u32> = Vec::with_capacity(n);
    let mut i: usize = 0;
    while i < n
        invariant
            n == data@.len() / 2,
            n == data.len() / 2,
            i <= n,
            out@.len() == i,
            forall|k: int| 0 <= k < i ==> out@[k] == bf16_word(data@[2 * k], data@[2 * k + 1]),
        decreases n - i,
    {
        let k: usize = i + i;
        assert(k + 1 < data@.len());
        let lo: u8 = data[k];
        let hi: u8 = data[k + 1];
        let w: u32 = ((hi as u32) * 256 + (lo as u32)) * 65536;
        out.push(w);
        i = i + 1;
    }
    assert(out@ =~= bf16_decode(data@));
    out
}

/// Widening loses nothing: the low half of each word is zero and its upper
/// half gives back the two bytes it came from.
pub proof fn lemma_bf16_word_lossless(lo: u8, hi: u8)
    ensures
        bf16_word(lo, hi) % 65536 == 0,
        (bf16_word(lo, hi) / 65536) % 256 == lo,
        bf16_word(lo, hi) / 16777216 == hi,
{
    let x: int = hi as int * 256 + lo as int;
    assert(0 <= x * 65536 < 0x1_0000_0000) by (nonlinear_arith)
        requires 0 <= x <= 65535;
    assert(bf16_word(lo, hi) == x * 65536);
    assert((x * 65536) % 65536 == 0 && (x * 65536) / 65536 == x) by (nonlinear_arith);
    assert(x % 256 == lo && x / 256 == hi) by (nonlinear_arith)
        requires x == hi as int * 256 + lo as int, 0 <= lo < 256;
    assert((x * 65536) / 16777216 == x / 256) by (nonlinear_arith)
        requires x >= 0;
}

/// Two byte buffers widen to the same words exactly when their complete
/// byte pairs agree.
pub proof fn lemma_bf16_decode_injective(a: Seq<u8>, b: Seq<u8>)
    requires
        a.len() % 2 == 0,
        b.len() % 2 == 0,
        bf16_decode(a) == bf16_decode(b),
    ensures
        a == b,
{
    assert(bf16_decode(a).len() == a.len() / 2);
    assert(bf16_decode(b).len() == b.len() / 2);
    assert(a.len() == b.len());
    assert forall|k: int| 0 <= k < a.len() implies a[k] == b[k] by {
        let p: int = k / 2;
        assert(0 <= p < a.len() / 2);
        assert(bf16_decode(a)[p] == bf16_word(a[2 * p], a[2 * p + 1]));
        assert(bf16_decode(b)[p] == bf16_word(b[2 * p], b[2 * p + 1]));
        lemma_bf16_word_lossless(a[2 * p], a[2 * p + 1]);
        lemma_bf16_word_lossless(b[2 * p], b[2 * p + 1]);
        assert(a[2 * p] == b[2 * p]);
        assert(a[2 * p + 1] == b[2 * p + 1]);
        assert(k == 2 * p || k == 2 * p + 1);
    }
    assert(a =~= b);
}

} // verus!
