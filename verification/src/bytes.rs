use vstd::prelude::*;

verus! {

/// The value of `n` little-endian bytes of `s` starting at `off`.
pub open spec fn le_val(s: Seq<u8>, off: int, n: int) -> nat
    decreases n,
{
    if n <= 0 {
        0
    } else {
        (s[off] + 256 * le_val(s, off + 1, n - 1)) as nat
    }
}

/// 256 raised to `n`: the number of values `n` bytes can hold.
pub open spec fn pow256(n: nat) -> nat
    decreases n,
{
    if n == 0 {
        1
    } else {
        256 * pow256((n - 1) as nat)
    }
}

/// `n` bytes hold a value below `pow256(n)`.
pub proof fn lemma_le_val_bound(s: Seq<u8>, off: int, n: int)
    requires
        n >= 0,
        0 <= off,
        off + n <= s.len(),
    ensures
        le_val(s, off, n) < pow256(n as nat),
    decreases n,
{
    if n > 0 {
        lemma_le_val_bound(s, off + 1, n - 1);
        assert(s[off] <= 255);
    }
}

/// `pow256` is monotonic in its argument.
pub proof fn lemma_pow256_increases(a: nat, b: nat)
    requires
        a <= b,
    ensures
        pow256(a) <= pow256(b),
    decreases b,
{
    if a < b {
        lemma_pow256_increases(a, (b - 1) as nat);
    }
}

/// A value of `n` bytes splits at any prefix length `k`.
pub proof fn lemma_le_val_split(s: Seq<u8>, off: int, k: int, n: int)
    requires
        0 <= k <= n,
        0 <= off,
        off + n <= s.len(),
    ensures
        le_val(s, off, n) == le_val(s, off, k) + pow256(k as nat) * le_val(s, off + k, n - k),
    decreases k,
{
    if k > 0 {
        lemma_le_val_split(s, off + 1, k - 1, n - 1);
        let a = s[off] as nat;
        let mid = le_val(s, off + 1, k - 1);
        let hi = le_val(s, off + k, n - k);
        let p = pow256((k - 1) as nat);
        assert(le_val(s, off + 1, n - 1) == mid + p * hi);
        assert(le_val(s, off, n) == a + 256 * (mid + p * hi));
        assert(le_val(s, off, k) == a + 256 * mid);
        assert(pow256(k as nat) == 256 * p);
        assert(le_val(s, off, n) == le_val(s, off, k) + pow256(k as nat) * hi) by (nonlinear_arith)
            requires
                le_val(s, off, n) == a + 256 * (mid + p * hi),
                le_val(s, off, k) == a + 256 * mid,
                pow256(k as nat) == 256 * p,
        ;
    } else {
        let w = le_val(s, off, n);
        assert(le_val(s, off, 0) == 0);
        assert(pow256(0) == 1);
        assert(1 * w == w) by (nonlinear_arith);
    }
}

/// Reads `n <= 8` little-endian bytes as a `u64`.
pub fn read_le_u64(bytes: &Vec<u8>, off: usize, n: usize) -> (r: u64)
    requires
        n <= 8,
        off + n <= bytes@.len(),
    ensures
        r == le_val(bytes@, off as int, n as int),
{
    proof {
        lemma_le_val_bound(bytes@, off as int, n as int);
        reveal_with_fuel(pow256, 9);
    }
    let len: usize = bytes.len();
    let mut r: u64 = 0;
    let mut i: usize = n;
    while i > 0
        invariant
            i <= n,
            n <= 8,
            off + n <= len,
            len == bytes@.len(),
            r == le_val(bytes@, off + i, (n - i) as int),
            r < pow256((n - i) as nat),
        decreases i,
    {
        i = i - 1;
        proof {
            lemma_le_val_bound(bytes@, off + i, (n - i) as int);
            lemma_pow256_increases((n - i) as nat, 8);
            reveal_with_fuel(pow256, 9);
        }
        r = r * 256 + (bytes[off + i] as u64);
    }
    r
}

/// Reads 16 little-endian bytes as a `u128`.
pub fn read_le_u128(bytes: &Vec<u8>, off: usize) -> (r: u128)
    requires
        off + 16 <= bytes@.len(),
    ensures
        r == le_val(bytes@, off as int, 16),
{
    // Binds the buffer length so `off + 8` is known to fit in a `usize`.
    let len: usize = bytes.len();
    let lo = read_le_u64(bytes, off, 8);
    let hi = read_le_u64(bytes, off + 8, 8);
    proof {
        lemma_le_val_split(bytes@, off as int, 8, 16);
        lemma_le_val_bound(bytes@, off as int, 8);
        lemma_le_val_bound(bytes@, off + 8, 8);
        reveal_with_fuel(pow256, 9);
        assert(pow256(8) == 0x1_0000_0000_0000_0000);
        assert(le_val(bytes@, off as int, 16) == lo + 0x1_0000_0000_0000_0000 * hi);
    }
    (lo as u128) + (hi as u128) * 0x1_0000_0000_0000_0000u128
}

/// The signed 64-bit value encoded by 8 little-endian bytes, two's
/// complement.
pub open spec fn le_val_i64(s: Seq<u8>, off: int) -> int {
    let n = le_val(s, off, 8);
    if n < 0x8000_0000_0000_0000 {
        n as int
    } else {
        n - 0x1_0000_0000_0000_0000
    }
}

/// Reads 8 little-endian bytes as an `i64`, two's complement.
pub fn read_le_i64(bytes: &Vec<u8>, off: usize) -> (r: i64)
    requires
        off + 8 <= bytes@.len(),
    ensures
        r == le_val_i64(bytes@, off as int),
{
    let u = read_le_u64(bytes, off, 8);
    proof {
        lemma_le_val_bound(bytes@, off as int, 8);
        reveal_with_fuel(pow256, 9);
    }
    if u < 0x8000_0000_0000_0000 {
        u as i64
    } else {
        -((0xFFFF_FFFF_FFFF_FFFFu64 - u) as i64) - 1
    }
}

/// Reads `n` bytes starting at `off` into a fresh vector.
pub fn read_bytes(bytes: &Vec<u8>, off: usize, n: usize) -> (r: Vec<u8>)
    requires
        off + n <= bytes@.len(),
    ensures
        r@ == bytes@.subrange(off as int, off + n),
{
    let len: usize = bytes.len();
    let mut out: Vec<u8> = Vec::new();
    let mut i: usize = 0;
    while i < n
        invariant
            i <= n,
            off + n <= len,
            len == bytes@.len(),
            out@ == bytes@.subrange(off as int, off + i),
        decreases n - i,
    {
        out.push(bytes[off + i]);
        proof {
            assert(out@ =~= bytes@.subrange(off as int, off + i + 1));
        }
        i = i + 1;
    }
    out
}

} // verus!
