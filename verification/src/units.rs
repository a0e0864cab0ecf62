use vstd::prelude::*;

use crate::client::SDKClientCore;
use crate::err::SdkError;
use crate::events::Fill;
use crate::meta::MarketMetadata;

verus! {

/// The quote amount owed for `base_lots` at `price_in_ticks`, before
/// narrowing: lots times price times quote lots per tick times quote lot
/// size, divided by base lots per base unit.
pub open spec fn spec_quote_amount(m: MarketMetadata, base_lots: u64, price_in_ticks: u64) -> int {
    base_lots * price_in_ticks * m.num_quote_lots_per_tick * m.quote_lot_size
        / m.num_base_lots_per_base_unit as int
}

/// Whether the quote-amount computation stays within the machine widths the
/// implementation evaluates it at: the left-to-right products fit a `u128`
/// and the final quotient fits a `u64`.
pub open spec fn quote_amount_fits(m: MarketMetadata, base_lots: u64, price_in_ticks: u64) -> bool {
    &&& base_lots * price_in_ticks * m.num_quote_lots_per_tick <= u128::MAX
    &&& base_lots * price_in_ticks * m.num_quote_lots_per_tick * m.quote_lot_size <= u128::MAX
    &&& spec_quote_amount(m, base_lots, price_in_ticks) <= u64::MAX
}

impl SDKClientCore {
    /// Base atoms to base lots: exact integer division by the base lot size;
    /// the sub-lot remainder is discarded by design.
    pub fn base_amount_to_base_lots(&self, base_amount: u64) -> (r: Result<u64, SdkError>)
        requires
            self.wf(),
        ensures
            r is Ok <==> self.active_meta() is Some,
            self.active_meta() matches Some(m) ==> r == Ok::<u64, SdkError>(
                base_amount / m.base_lot_size,
            ),
            self.active_meta() is None ==> r == Err::<u64, SdkError>(SdkError::MarketNotFound),
    {
        let market = self.get_active_market_metadata()?;
        proof {
            lemma_active_meta_wf(*self);
        }
        Ok(base_amount / market.base_lot_size)
    }

    /// Base lots to base atoms: exact multiplication by the base lot size.
    pub fn base_lots_to_base_amount(&self, base_lots: u64) -> (r: Result<u64, SdkError>)
        requires
            self.wf(),
        ensures
            r is Ok <==> (self.active_meta() matches Some(m) && base_lots * m.base_lot_size
                <= u64::MAX),
            self.active_meta() matches Some(m) ==> r == if base_lots * m.base_lot_size
                <= u64::MAX {
                Ok::<u64, SdkError>((base_lots * m.base_lot_size) as u64)
            } else {
                Err::<u64, SdkError>(SdkError::ArithmeticOverflow)
            },
            self.active_meta() is None ==> r == Err::<u64, SdkError>(SdkError::MarketNotFound),
    {
        let market = self.get_active_market_metadata()?;
        match base_lots.checked_mul(market.base_lot_size) {
            Some(amount) => Ok(amount),
            None => Err(SdkError::ArithmeticOverflow),
        }
    }

    /// Quote atoms to quote lots: exact integer division by the quote lot
    /// size; the sub-lot remainder is discarded by design.
    pub fn quote_amount_to_quote_lots(&self, quote_amount: u64) -> (r: Result<u64, SdkError>)
        requires
            self.wf(),
        ensures
            r is Ok <==> self.active_meta() is Some,
            self.active_meta() matches Some(m) ==> r == Ok::<u64, SdkError>(
                quote_amount / m.quote_lot_size,
            ),
            self.active_meta() is None ==> r == Err::<u64, SdkError>(SdkError::MarketNotFound),
    {
        let market = self.get_active_market_metadata()?;
        proof {
            lemma_active_meta_wf(*self);
        }
        Ok(quote_amount / market.quote_lot_size)
    }

    /// Quote lots to quote atoms: exact multiplication by the quote lot size.
    pub fn quote_lots_to_quote_amount(&self, quote_lots: u64) -> (r: Result<u64, SdkError>)
        requires
            self.wf(),
        ensures
            r is Ok <==> (self.active_meta() matches Some(m) && quote_lots * m.quote_lot_size
                <= u64::MAX),
            self.active_meta() matches Some(m) ==> r == if quote_lots * m.quote_lot_size
                <= u64::MAX {
                Ok::<u64, SdkError>((quote_lots * m.quote_lot_size) as u64)
            } else {
                Err::<u64, SdkError>(SdkError::ArithmeticOverflow)
            },
            self.active_meta() is None ==> r == Err::<u64, SdkError>(SdkError::MarketNotFound),
    {
        let market = self.get_active_market_metadata()?;
        match quote_lots.checked_mul(market.quote_lot_size) {
            Some(amount) => Ok(amount),
            None => Err(SdkError::ArithmeticOverflow),
        }
    }

    /// The quote amount for an order of `base_lots` at `price_in_ticks`,
    /// evaluated left to right over a 128-bit intermediate and then narrowed.
    pub fn order_to_quote_amount(&self, base_lots: u64, price_in_ticks: u64) -> (r: Result<
        u64,
        SdkError,
    >)
        requires
            self.wf(),
        ensures
            r is Ok <==> (self.active_meta() matches Some(m) && quote_amount_fits(
                m,
                base_lots,
                price_in_ticks,
            )),
            self.active_meta() matches Some(m) ==> r == if quote_amount_fits(
                m,
                base_lots,
                price_in_ticks,
            ) {
                Ok::<u64, SdkError>(spec_quote_amount(m, base_lots, price_in_ticks) as u64)
            } else {
                Err::<u64, SdkError>(SdkError::ArithmeticOverflow)
            },
            self.active_meta() is None ==> r == Err::<u64, SdkError>(SdkError::MarketNotFound),
    {
        let market = self.get_active_market_metadata()?;
        proof {
            lemma_active_meta_wf(*self);
            assert((base_lots as int) * (price_in_ticks as int) <= u128::MAX) by (nonlinear_arith)
                requires
                    base_lots <= u64::MAX,
                    price_in_ticks <= u64::MAX,
            ;
        }
        let lots_times_price = (base_lots as u128) * (price_in_ticks as u128);
        let with_ticks = match lots_times_price.checked_mul(
            market.num_quote_lots_per_tick as u128,
        ) {
            Some(v) => v,
            None => {
                return Err(SdkError::ArithmeticOverflow);
            },
        };
        let product = match with_ticks.checked_mul(market.quote_lot_size as u128) {
            Some(v) => v,
            None => {
                return Err(SdkError::ArithmeticOverflow);
            },
        };
        let quotient = product / (market.num_base_lots_per_base_unit as u128);
        if quotient <= u64::MAX as u128 {
            Ok(quotient as u64)
        } else {
            Err(SdkError::ArithmeticOverflow)
        }
    }

    /// The quote amount a fill moved, from its filled lots and tick price.
    pub fn fill_event_to_quote_amount(&self, fill: &Fill) -> (r: Result<u64, SdkError>)
        requires
            self.wf(),
        ensures
            r is Ok <==> (self.active_meta() matches Some(m) && quote_amount_fits(
                m,
                fill.base_lots_filled,
                fill.price_in_ticks,
            )),
            self.active_meta() matches Some(m) ==> r == if quote_amount_fits(
                m,
                fill.base_lots_filled,
                fill.price_in_ticks,
            ) {
                Ok::<u64, SdkError>(
                    spec_quote_amount(m, fill.base_lots_filled, fill.price_in_ticks) as u64,
                )
            } else {
                Err::<u64, SdkError>(SdkError::ArithmeticOverflow)
            },
            self.active_meta() is None ==> r == Err::<u64, SdkError>(SdkError::MarketNotFound),
    {
        self.order_to_quote_amount(fill.base_lots_filled, fill.price_in_ticks)
    }
}

/// Lot round trip: converting base atoms to lots and back returns the same
/// amount whenever the amount is aligned to the active market's base lot
/// size. (For unaligned amounts the truncating division loses the remainder.)
pub proof fn lemma_base_amount_lot_round_trip(core: SDKClientCore, m: MarketMetadata, a: u64)
    requires
        core.wf(),
        core.active_meta() == Some(m),
        a % m.base_lot_size == 0,
    ensures
        a / m.base_lot_size * m.base_lot_size == a,
{
    assert(m.wf()) by {
        lemma_active_meta_wf(core);
    }
    assert(a / m.base_lot_size * m.base_lot_size == a) by (nonlinear_arith)
        requires
            m.base_lot_size >= 1,
            a % m.base_lot_size == 0,
    ;
}

/// A registered active market is consistently configured.
pub proof fn lemma_active_meta_wf(core: SDKClientCore)
    requires
        core.wf(),
        core.active_meta() is Some,
    ensures
        core.active_meta()->Some_0.wf(),
{
    lemma_find_meta_wf(core.markets@, core.active_market_key@);
}

/// Any metadata found in a registry of well-formed entries is well formed.
proof fn lemma_find_meta_wf(s: Seq<crate::meta::MarketEntry>, key: Seq<u8>)
    requires
        forall|j: int| 0 <= j < s.len() ==> (#[trigger] s[j]).wf(),
        crate::client::find_meta(s, key) is Some,
    ensures
        crate::client::find_meta(s, key)->Some_0.wf(),
    decreases s.len(),
{
    if s.len() > 0 && s.last().key@ != key {
        lemma_find_meta_wf(s.drop_last(), key);
    }
}

} // verus!
