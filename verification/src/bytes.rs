//! Little-endian encoding of integers into bytes.

use vstd::prelude::*;

verus! {

/// `256` to the power `k`.
pub open spec fn pow256(k: int) -> int
    decreases k,
{
    if k <= 0 {
        1
    } else {
        256 * pow256(k - 1)
    }
}

/// The `w` little-endian bytes of `n` (the low `w` bytes where `n` needs more).
pub open spec fn le_bytes(n: u64, w: nat) -> Seq<u8> {
    Seq::new(w, |k: int| ((n as int / pow256(k)) % 256) as u8)
}

pub proof fn lemma_pow256_pos(k: int)
    ensures
        pow256(k) > 0,
    decreases k,
{
    if k > 0 {
        lemma_pow256_pos(k - 1);
    }
}

proof fn lemma_div_div(n: int, p: int)
    requires
        n >= 0,
        p > 0,
    ensures
        n / p / 256 == n / (256 * p),
{
    assert(n / p / 256 == n / (p * 256)) by (nonlinear_arith)
        requires
            n >= 0,
            p > 0,
    {
        vstd::arithmetic::div_mod::lemma_div_denominator(n, p, 256);
    }
    assert(256 * p == p * 256) by (nonlinear_arith);
}

/// Appends the `w` little-endian bytes of `n` to `out`.
pub fn push_le(out: &mut Vec<u8>, n: u64, w: usize)
    ensures
        final(out)@ == old(out)@ + le_bytes(n, w as nat),
{
    let ghost start = out@;
    let mut k: usize = 0;
    let mut rest: u64 = n;
    while k < w
        invariant
            k <= w,
            out@.len() == start.len() + k,
            forall|j: int| 0 <= j < start.len() ==> out@[j] == start[j],
            rest as int == n as int / pow256(k as int),
            forall|j: int| 0 <= j < k ==> out@[start.len() + j] == le_bytes(n, w as nat)[j],
        decreases w - k,
    {
        proof {
            lemma_pow256_pos(k as int);
            lemma_div_div(n as int, pow256(k as int));
        }
        out.push((rest % 256) as u8);
        rest = rest / 256;
        k = k + 1;
    }
    assert(out@ =~= start + le_bytes(n, w as nat));
}


/// The number that 8 little-endian bytes spell.
pub open spec fn le_value(b: Seq<u8>) -> int {
    b[0] as int + 256 * (b[1] as int + 256 * (b[2] as int + 256 * (b[3] as int + 256 * (b[4] as int
        + 256 * (b[5] as int + 256 * (b[6] as int + 256 * b[7] as int))))))
}

/// Reading back the 8 little-endian bytes of a number gives the number.
pub proof fn lemma_le_value_of_le_bytes(n: u64)
    ensures
        le_value(le_bytes(n, 8)) == n,
{
    reveal_with_fuel(pow256, 9);
    let b = le_bytes(n, 8);
    let x0 = n as int;
    let x1 = x0 / 256;
    let x2 = x1 / 256;
    let x3 = x2 / 256;
    let x4 = x3 / 256;
    let x5 = x4 / 256;
    let x6 = x5 / 256;
    let x7 = x6 / 256;
    lemma_div_div(x0, 1);
    lemma_div_div(x0, 256);
    lemma_div_div(x0, 65536);
    lemma_div_div(x0, 16777216);
    lemma_div_div(x0, 4294967296);
    lemma_div_div(x0, 1099511627776);
    lemma_div_div(x0, 281474976710656);
    assert(b[0] == x0 % 256);
    assert(b[1] == x1 % 256);
    assert(b[2] == x2 % 256);
    assert(b[3] == x3 % 256);
    assert(b[4] == x4 % 256);
    assert(b[5] == x5 % 256);
    assert(b[6] == x6 % 256);
    assert(b[7] == x7 % 256);
    assert(x7 < 256);
}

/// Reads the number that the 8 little-endian bytes at `off` in `data` spell.
pub fn read_le_u64(data: &[u8], off: usize) -> (r: u64)
    requires
        off + 8 <= data@.len(),
    ensures
        r as int == le_value(data@.subrange(off as int, off + 8)),
{
    let r = data[off] as u64 + 256 * (data[off + 1] as u64 + 256 * (data[off + 2] as u64 + 256 * (
    data[off + 3] as u64 + 256 * (data[off + 4] as u64 + 256 * (data[off + 5] as u64 + 256 * (data[off
        + 6] as u64 + 256 * data[off + 7] as u64))))));
    r
}

} // verus!
