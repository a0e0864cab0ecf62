use vstd::prelude::*;

use crate::addr::Address;

verus! {

/// Ten raised to `n`, the scaling factor for `n` decimal places.
pub open spec fn pow10(n: nat) -> nat
    decreases n,
{
    if n == 0 {
        1
    } else {
        10 * pow10((n - 1) as nat)
    }
}

/// Largest number of decimal places whose scaling factor fits in a `u64`.
pub const MAX_DECIMALS: u32 = 19;

proof fn lemma_pow10_19()
    ensures
        pow10(19) == 0x8ac7_2304_89e8_0000,
{
    reveal_with_fuel(pow10, 21);
}

/// `pow10` is monotonic in its argument.
pub proof fn lemma_pow10_increases(a: nat, b: nat)
    requires
        a <= b,
    ensures
        pow10(a) <= pow10(b),
    decreases b,
{
    if a < b {
        lemma_pow10_increases(a, (b - 1) as nat);
    }
}

/// Scaling factors up to `MAX_DECIMALS` decimal places fit in a `u64`.
pub proof fn lemma_pow10_fits_u64(n: nat)
    requires
        n <= MAX_DECIMALS,
    ensures
        pow10(n) <= u64::MAX,
{
    lemma_pow10_increases(n, 19);
    lemma_pow10_19();
}

/// Ten raised to `n`, computed at run time.
pub fn pow10_u64(n: u32) -> (r: u64)
    requires
        n <= MAX_DECIMALS,
    ensures
        r == pow10(n as nat),
{
    proof {
        lemma_pow10_fits_u64(n as nat);
    }
    let mut r: u64 = 1;
    let mut i: u32 = 0;
    while i < n
        invariant
            i <= n,
            n <= MAX_DECIMALS,
            r == pow10(i as nat),
        decreases n - i,
    {
        proof {
            lemma_pow10_increases((i + 1) as nat, n as nat);
            lemma_pow10_fits_u64(n as nat);
        }
        r = r * 10;
        i = i + 1;
    }
    r
}

/// The static per-market scaling constants: lot sizes, tick size, decimal
/// counts and their derived multipliers. Loaded once per market and read for
/// the life of the client.
#[derive(Clone, Debug)]
pub struct MarketMetadata {
    pub base_mint: Address,
    pub quote_mint: Address,
    pub base_decimals: u32,
    pub quote_decimals: u32,
    /// Ten to the power of `base_decimals`.
    pub base_multiplier: u64,
    /// Ten to the power of `quote_decimals`.
    pub quote_multiplier: u64,
    pub quote_lot_size: u64,
    pub base_lot_size: u64,
    pub tick_size: u64,
    pub num_base_lots_per_base_unit: u64,
    pub num_quote_lots_per_tick: u64,
}

impl MarketMetadata {
    /// A consistently configured market: mints are well formed, multipliers
    /// are the stated powers of ten, and every divisor used by a conversion
    /// is nonzero.
    pub open spec fn wf(&self) -> bool {
        &&& self.base_mint.wf()
        &&& self.quote_mint.wf()
        &&& self.base_decimals <= MAX_DECIMALS
        &&& self.quote_decimals <= MAX_DECIMALS
        &&& self.base_multiplier == pow10(self.base_decimals as nat)
        &&& self.quote_multiplier == pow10(self.quote_decimals as nat)
        &&& self.base_lot_size >= 1
        &&& self.quote_lot_size >= 1
        &&& self.tick_size >= 1
        &&& self.num_base_lots_per_base_unit >= 1
        &&& self.num_quote_lots_per_tick >= 1
    }

    /// Decides `wf` at run time, so that a registry can reject a
    /// misconfigured market instead of dividing by zero later.
    pub fn check_wf(&self) -> (r: bool)
        ensures
            r == self.wf(),
    {
        if !(self.base_mint.as_bytes().len() == 32 && self.quote_mint.as_bytes().len() == 32) {
            return false;
        }
        if !(self.base_decimals <= MAX_DECIMALS && self.quote_decimals <= MAX_DECIMALS) {
            return false;
        }
        let base_mul = pow10_u64(self.base_decimals);
        let quote_mul = pow10_u64(self.quote_decimals);
        self.base_multiplier == base_mul && self.quote_multiplier == quote_mul
            && self.base_lot_size >= 1 && self.quote_lot_size >= 1 && self.tick_size >= 1
            && self.num_base_lots_per_base_unit >= 1 && self.num_quote_lots_per_tick >= 1
    }
}

/// One registered market: its address together with its scaling constants.
#[derive(Clone, Debug)]
pub struct MarketEntry {
    pub key: Address,
    pub meta: MarketMetadata,
}

impl MarketEntry {
    pub open spec fn wf(&self) -> bool {
        self.key.wf() && self.meta.wf()
    }
}

} // verus!
