use vstd::prelude::*;

use crate::addr::Address;
use crate::client::SDKClientCore;
use crate::err::SdkError;
use crate::events::{spec_side_of_order_sequence_number, FIFOOrderId, SelfTradeBehavior, Side};

verus! {

/// The parameter payload of a new-order instruction, fully resolved: one of
/// the three order-packet shapes the on-chain program accepts, with every
/// optional parameter already given its policy default.
#[derive(Clone, Copy, Debug, PartialEq, Eq)]
pub enum OrderPacket {
    /// A limit order that is never matched on entry: rejected, or amended to
    /// the best non-crossing price, when it would cross.
    PostOnly {
        side: Side,
        num_quote_ticks_per_base_unit: u64,
        num_base_lots: u64,
        client_order_id: u128,
        reject_post_only: bool,
        use_only_deposited_funds: bool,
    },
    /// A limit order that may match on entry and rests at its level
    /// otherwise.
    Limit {
        side: Side,
        num_quote_ticks_per_base_unit: u64,
        num_base_lots: u64,
        self_trade_behavior: SelfTradeBehavior,
        match_limit: Option<u64>,
        client_order_id: u128,
        use_only_deposited_funds: bool,
    },
    /// An order that only matches against resting orders and never rests;
    /// minimum-fill bounds make it fill-or-kill.
    ImmediateOrCancel {
        side: Side,
        num_quote_ticks_per_base_unit: Option<u64>,
        num_base_lots: u64,
        num_quote_lots: u64,
        min_base_lots_to_fill: u64,
        min_quote_lots_to_fill: u64,
        self_trade_behavior: SelfTradeBehavior,
        match_limit: Option<u64>,
        client_order_id: u128,
        use_only_deposited_funds: bool,
    },
}

/// The immediate-or-cancel packet with every field spelled out.
pub open spec fn spec_new_ioc(
    side: Side,
    price_in_ticks: Option<u64>,
    num_base_lots: u64,
    num_quote_lots: u64,
    min_base_lots_to_fill: u64,
    min_quote_lots_to_fill: u64,
    self_trade_behavior: SelfTradeBehavior,
    match_limit: Option<u64>,
    client_order_id: u128,
    use_only_deposited_funds: bool,
) -> OrderPacket {
    OrderPacket::ImmediateOrCancel {
        side,
        num_quote_ticks_per_base_unit: price_in_ticks,
        num_base_lots,
        num_quote_lots,
        min_base_lots_to_fill,
        min_quote_lots_to_fill,
        self_trade_behavior,
        match_limit,
        client_order_id,
        use_only_deposited_funds,
    }
}

/// An immediate-or-cancel order for a number of base lots at a limit price.
pub open spec fn spec_new_ioc_by_lots(
    side: Side,
    price_in_ticks: u64,
    base_lot_budget: u64,
    self_trade_behavior: SelfTradeBehavior,
    match_limit: Option<u64>,
    client_order_id: u128,
    use_only_deposited_funds: bool,
) -> OrderPacket {
    spec_new_ioc(
        side,
        Some(price_in_ticks),
        base_lot_budget,
        0,
        0,
        0,
        self_trade_behavior,
        match_limit,
        client_order_id,
        use_only_deposited_funds,
    )
}

/// A fill-or-kill buy spending a quote-lot budget at a limit price: the
/// minimum quote fill equals the budget.
pub open spec fn spec_new_fok_buy(
    target_price_in_ticks: u64,
    quote_lot_budget: u64,
    self_trade_behavior: SelfTradeBehavior,
    match_limit: Option<u64>,
    client_order_id: u128,
    use_only_deposited_funds: bool,
) -> OrderPacket {
    spec_new_ioc(
        Side::Bid,
        Some(target_price_in_ticks),
        0,
        quote_lot_budget,
        0,
        quote_lot_budget,
        self_trade_behavior,
        match_limit,
        client_order_id,
        use_only_deposited_funds,
    )
}

/// A fill-or-kill sell of a base-lot amount at a limit price: the minimum
/// base fill equals the amount.
pub open spec fn spec_new_fok_sell(
    target_price_in_ticks: u64,
    base_lot_budget: u64,
    self_trade_behavior: SelfTradeBehavior,
    match_limit: Option<u64>,
    client_order_id: u128,
    use_only_deposited_funds: bool,
) -> OrderPacket {
    spec_new_ioc(
        Side::Ask,
        Some(target_price_in_ticks),
        base_lot_budget,
        0,
        base_lot_budget,
        0,
        self_trade_behavior,
        match_limit,
        client_order_id,
        use_only_deposited_funds,
    )
}

/// A market buy bounded by slippage: quote lots in, minimum base lots out.
pub open spec fn spec_new_ioc_buy_with_slippage(quote_lots_in: u64, min_base_lots_out: u64)
    -> OrderPacket {
    spec_new_ioc(
        Side::Bid,
        None,
        0,
        quote_lots_in,
        min_base_lots_out,
        0,
        SelfTradeBehavior::CancelProvide,
        None,
        0,
        false,
    )
}

/// A market sell bounded by slippage: base lots in, minimum quote lots out.
pub open spec fn spec_new_ioc_sell_with_slippage(base_lots_in: u64, min_quote_lots_out: u64)
    -> OrderPacket {
    spec_new_ioc(
        Side::Ask,
        None,
        base_lots_in,
        0,
        0,
        min_quote_lots_out,
        SelfTradeBehavior::CancelProvide,
        None,
        0,
        false,
    )
}

/// A post-only packet with every field spelled out.
pub open spec fn spec_new_post_only(
    side: Side,
    price_in_ticks: u64,
    num_base_lots: u64,
    client_order_id: u128,
    reject_post_only: bool,
    use_only_deposited_funds: bool,
) -> OrderPacket {
    OrderPacket::PostOnly {
        side,
        num_quote_ticks_per_base_unit: price_in_ticks,
        num_base_lots,
        client_order_id,
        reject_post_only,
        use_only_deposited_funds,
    }
}

/// A limit packet with every field spelled out.
pub open spec fn spec_new_limit_order(
    side: Side,
    price_in_ticks: u64,
    num_base_lots: u64,
    self_trade_behavior: SelfTradeBehavior,
    match_limit: Option<u64>,
    client_order_id: u128,
    use_only_deposited_funds: bool,
) -> OrderPacket {
    OrderPacket::Limit {
        side,
        num_quote_ticks_per_base_unit: price_in_ticks,
        num_base_lots,
        self_trade_behavior,
        match_limit,
        client_order_id,
        use_only_deposited_funds,
    }
}

/// A new-order instruction, resolved against one market: the accounts it is
/// addressed to and the fully resolved order packet. Serialising it into the
/// on-chain program's byte encoding is delegated to the program's own
/// instruction builder.
#[derive(Clone, Debug, PartialEq, Eq)]
pub struct NewOrderInstruction {
    pub market: Address,
    pub trader: Address,
    pub base_mint: Address,
    pub quote_mint: Address,
    pub order_packet: OrderPacket,
}

/// One order of a batched cancel-by-id instruction, with its side derived
/// from the order sequence number.
#[derive(Clone, Copy, Debug, PartialEq, Eq)]
pub struct CancelOrderParams {
    pub side: Side,
    pub num_quote_ticks_per_base_unit: u64,
    pub order_id: u64,
}

/// A batched cancel-by-id instruction, resolved against one market.
#[derive(Clone, Debug, PartialEq, Eq)]
pub struct CancelMultipleOrdersByIdInstruction {
    pub market: Address,
    pub trader: Address,
    pub base_mint: Address,
    pub quote_mint: Address,
    pub orders: Vec<CancelOrderParams>,
}

/// A cancel-up-to instruction, resolved against one market: cancel the
/// trader's resting orders on `side` at or beyond `tick_limit` (no boundary
/// when unset), with optional caps on how many orders are searched and
/// cancelled.
#[derive(Clone, Debug, PartialEq, Eq)]
pub struct CancelUpToInstruction {
    pub market: Address,
    pub trader: Address,
    pub base_mint: Address,
    pub quote_mint: Address,
    pub side: Side,
    pub tick_limit: Option<u64>,
    pub num_orders_to_search: Option<u32>,
    pub num_orders_to_cancel: Option<u32>,
}

/// The cancel parameters derived from a list of order ids: each order keeps
/// its tick price and sequence number, and its side is derived from the
/// sequence number.
pub open spec fn spec_cancel_params(ids: Seq<FIFOOrderId>) -> Seq<CancelOrderParams> {
    ids.map_values(
        |id: FIFOOrderId|
            CancelOrderParams {
                side: spec_side_of_order_sequence_number(id.order_sequence_number),
                num_quote_ticks_per_base_unit: id.num_quote_ticks_per_base_unit,
                order_id: id.order_sequence_number,
            },
    )
}

impl SDKClientCore {
    /// Whether a resolved instruction is addressed to the active market's
    /// accounts: its market key, this trader, and the market's two mints.
    pub open spec fn spec_addressed_to(
        &self,
        m: crate::meta::MarketMetadata,
        market: Seq<u8>,
        trader: Seq<u8>,
        base_mint: Seq<u8>,
        quote_mint: Seq<u8>,
    ) -> bool {
        &&& market == self.active_market_key@
        &&& trader == self.trader@
        &&& base_mint == m.base_mint@
        &&& quote_mint == m.quote_mint@
    }

    /// The four account addresses shared by every instruction this core
    /// builds against its active market.
    fn resolve_accounts(&self) -> (r: Result<(Address, Address, Address, Address), SdkError>)
        requires
            self.wf(),
        ensures
            r is Ok <==> self.active_meta() is Some,
            self.active_meta() matches Some(m) ==> (r matches Ok(a) && self.spec_addressed_to(
                m,
                a.0@,
                a.1@,
                a.2@,
                a.3@,
            )),
            self.active_meta() is None ==> r == Err::<(Address, Address, Address, Address),
                SdkError,
            >(SdkError::MarketNotFound),
    {
        let meta = self.get_active_market_metadata()?;
        Ok(
            (
                self.active_market_key.duplicate(),
                self.trader.duplicate(),
                meta.base_mint.duplicate(),
                meta.quote_mint.duplicate(),
            ),
        )
    }
}

/// `o` if set, `d` otherwise: the resolution of one optional parameter.
pub open spec fn or_default<T>(o: Option<T>, d: T) -> T {
    match o {
        Some(v) => v,
        None => d,
    }
}

impl SDKClientCore {
    /// A fresh client order id drawn from the shared random source. Zero is
    /// a valid id, so callers needing idempotent deduplication should supply
    /// their own ids instead.
    pub fn get_next_client_order_id(&self) -> u128 {
        crate::random::random_u128()
    }

    /// An immediate-or-cancel order with every optional parameter at its
    /// default.
    pub fn get_ioc_ix(&self, price: u64, side: Side, num_base_lots: u64) -> (r: Result<
        NewOrderInstruction,
        SdkError,
    >)
        requires
            self.wf(),
        ensures
            r is Ok <==> self.active_meta() is Some,
            self.active_meta() is None ==> r == Err::<NewOrderInstruction, SdkError>(
                SdkError::MarketNotFound,
            ),
            self.active_meta() matches Some(m) ==> (r matches Ok(ix) && self.spec_addressed_to(
                m,
                ix.market@,
                ix.trader@,
                ix.base_mint@,
                ix.quote_mint@,
            ) && ix.order_packet == spec_new_ioc_by_lots(
                side,
                price / m.tick_size,
                num_base_lots,
                SelfTradeBehavior::CancelProvide,
                None,
                0,
                false,
            )),
    {
        self.get_ioc_generic_ix(price, side, num_base_lots, None, None, None, None)
    }

    /// An immediate-or-cancel order for `num_base_lots` at the tick price
    /// `price / tick_size` (truncating), with explicit optional parameters:
    /// self-trade handling defaults to cancelling the resting side, the
    /// client order id to zero, and deposited-funds-only to off.
    pub fn get_ioc_generic_ix(
        &self,
        price: u64,
        side: Side,
        num_base_lots: u64,
        self_trade_behavior: Option<SelfTradeBehavior>,
        match_limit: Option<u64>,
        client_order_id: Option<u128>,
        use_only_deposited_funds: Option<bool>,
    ) -> (r: Result<NewOrderInstruction, SdkError>)
        requires
            self.wf(),
        ensures
            r is Ok <==> self.active_meta() is Some,
            self.active_meta() is None ==> r == Err::<NewOrderInstruction, SdkError>(
                SdkError::MarketNotFound,
            ),
            self.active_meta() matches Some(m) ==> (r matches Ok(ix) && self.spec_addressed_to(
                m,
                ix.market@,
                ix.trader@,
                ix.base_mint@,
                ix.quote_mint@,
            ) && ix.order_packet == spec_new_ioc_by_lots(
                side,
                price / m.tick_size,
                num_base_lots,
                or_default(self_trade_behavior, SelfTradeBehavior::CancelProvide),
                match_limit,
                or_default(client_order_id, 0),
                or_default(use_only_deposited_funds, false),
            )),
    {
        let meta = self.get_active_market_metadata()?;
        proof {
            crate::units::lemma_active_meta_wf(*self);
        }
        let num_quote_ticks_per_base_unit = price / meta.tick_size;
        let (market, trader, base_mint, quote_mint) = self.resolve_accounts()?;
        Ok(
            NewOrderInstruction {
                market,
                trader,
                base_mint,
                quote_mint,
                order_packet: OrderPacket::ImmediateOrCancel {
                    side,
                    num_quote_ticks_per_base_unit: Some(num_quote_ticks_per_base_unit),
                    num_base_lots,
                    num_quote_lots: 0,
                    min_base_lots_to_fill: 0,
                    min_quote_lots_to_fill: 0,
                    self_trade_behavior: self_trade_behavior.unwrap_or(
                        SelfTradeBehavior::CancelProvide,
                    ),
                    match_limit,
                    client_order_id: client_order_id.unwrap_or(0),
                    use_only_deposited_funds: use_only_deposited_funds.unwrap_or(false),
                },
            },
        )
    }

    /// A fill-or-kill sell with every optional parameter at its default.
    pub fn get_fok_sell_ix(&self, price: u64, size_in_base_lots: u64) -> (r: Result<
        NewOrderInstruction,
        SdkError,
    >)
        requires
            self.wf(),
        ensures
            r is Ok <==> self.active_meta() is Some,
            self.active_meta() is None ==> r == Err::<NewOrderInstruction, SdkError>(
                SdkError::MarketNotFound,
            ),
            self.active_meta() matches Some(m) ==> (r matches Ok(ix) && self.spec_addressed_to(
                m,
                ix.market@,
                ix.trader@,
                ix.base_mint@,
                ix.quote_mint@,
            ) && ix.order_packet == spec_new_fok_sell(
                price / m.tick_size,
                size_in_base_lots / m.base_lot_size,
                SelfTradeBehavior::CancelProvide,
                None,
                0,
                false,
            )),
    {
        self.get_fok_generic_ix(price, Side::Ask, size_in_base_lots, None, None, None, None)
    }

    /// A fill-or-kill buy with explicit optional parameters; `size` is a
    /// quote-lot budget.
    pub fn get_fok_buy_generic_ix(
        &self,
        price: u64,
        size_in_quote_lots: u64,
        self_trade_behavior: Option<SelfTradeBehavior>,
        match_limit: Option<u64>,
        client_order_id: Option<u128>,
        use_only_deposited_funds: Option<bool>,
    ) -> (r: Result<NewOrderInstruction, SdkError>)
        requires
            self.wf(),
        ensures
            r is Ok <==> self.active_meta() is Some,
            self.active_meta() is None ==> r == Err::<NewOrderInstruction, SdkError>(
                SdkError::MarketNotFound,
            ),
            self.active_meta() matches Some(m) ==> (r matches Ok(ix) && self.spec_addressed_to(
                m,
                ix.market@,
                ix.trader@,
                ix.base_mint@,
                ix.quote_mint@,
            ) && ix.order_packet == spec_new_fok_buy(
                price / m.tick_size,
                size_in_quote_lots / m.quote_lot_size,
                or_default(self_trade_behavior, SelfTradeBehavior::CancelProvide),
                match_limit,
                or_default(client_order_id, 0),
                or_default(use_only_deposited_funds, false),
            )),
    {
        self.get_fok_generic_ix(
            price,
            Side::Bid,
            size_in_quote_lots,
            self_trade_behavior,
            match_limit,
            client_order_id,
            use_only_deposited_funds,
        )
    }

    /// A fill-or-kill sell with explicit optional parameters; `size` is a
    /// base-lot amount.
    pub fn get_fok_sell_generic_ix(
        &self,
        price: u64,
        size_in_base_lots: u64,
        self_trade_behavior: Option<SelfTradeBehavior>,
        match_limit: Option<u64>,
        client_order_id: Option<u128>,
        use_only_deposited_funds: Option<bool>,
    ) -> (r: Result<NewOrderInstruction, SdkError>)
        requires
            self.wf(),
        ensures
            r is Ok <==> self.active_meta() is Some,
            self.active_meta() is None ==> r == Err::<NewOrderInstruction, SdkError>(
                SdkError::MarketNotFound,
            ),
            self.active_meta() matches Some(m) ==> (r matches Ok(ix) && self.spec_addressed_to(
                m,
                ix.market@,
                ix.trader@,
                ix.base_mint@,
                ix.quote_mint@,
            ) && ix.order_packet == spec_new_fok_sell(
                price / m.tick_size,
                size_in_base_lots / m.base_lot_size,
                or_default(self_trade_behavior, SelfTradeBehavior::CancelProvide),
                match_limit,
                or_default(client_order_id, 0),
                or_default(use_only_deposited_funds, false),
            )),
    {
        self.get_fok_generic_ix(
            price,
            Side::Ask,
            size_in_base_lots,
            self_trade_behavior,
            match_limit,
            client_order_id,
            use_only_deposited_funds,
        )
    }

    /// A fill-or-kill order. The meaning of `size` depends on the side: a
    /// buy spends a quote-lot budget (`size / quote_lot_size`), a sell
    /// supplies a base-lot amount (`size / base_lot_size`).
    pub fn get_fok_generic_ix(
        &self,
        price: u64,
        side: Side,
        size: u64,
        self_trade_behavior: Option<SelfTradeBehavior>,
        match_limit: Option<u64>,
        client_order_id: Option<u128>,
        use_only_deposited_funds: Option<bool>,
    ) -> (r: Result<NewOrderInstruction, SdkError>)
        requires
            self.wf(),
        ensures
            r is Ok <==> self.active_meta() is Some,
            self.active_meta() is None ==> r == Err::<NewOrderInstruction, SdkError>(
                SdkError::MarketNotFound,
            ),
            self.active_meta() matches Some(m) ==> (r matches Ok(ix) && self.spec_addressed_to(
                m,
                ix.market@,
                ix.trader@,
                ix.base_mint@,
                ix.quote_mint@,
            ) && ix.order_packet == (match side {
                Side::Bid => spec_new_fok_buy(
                    price / m.tick_size,
                    size / m.quote_lot_size,
                    or_default(self_trade_behavior, SelfTradeBehavior::CancelProvide),
                    match_limit,
                    or_default(client_order_id, 0),
                    or_default(use_only_deposited_funds, false),
                ),
                Side::Ask => spec_new_fok_sell(
                    price / m.tick_size,
                    size / m.base_lot_size,
                    or_default(self_trade_behavior, SelfTradeBehavior::CancelProvide),
                    match_limit,
                    or_default(client_order_id, 0),
                    or_default(use_only_deposited_funds, false),
                ),
            })),
    {
        let meta = self.get_active_market_metadata()?;
        proof {
            crate::units::lemma_active_meta_wf(*self);
        }
        let target_price_in_ticks = price / meta.tick_size;
        let self_trade_behavior = self_trade_behavior.unwrap_or(SelfTradeBehavior::CancelProvide);
        let client_order_id = client_order_id.unwrap_or(0);
        let use_only_deposited_funds = use_only_deposited_funds.unwrap_or(false);
        let (market, trader, base_mint, quote_mint) = self.resolve_accounts()?;
        let order_packet = match side {
            Side::Bid => {
                let quote_lot_budget = size / meta.quote_lot_size;
                OrderPacket::ImmediateOrCancel {
                    side: Side::Bid,
                    num_quote_ticks_per_base_unit: Some(target_price_in_ticks),
                    num_base_lots: 0,
                    num_quote_lots: quote_lot_budget,
                    min_base_lots_to_fill: 0,
                    min_quote_lots_to_fill: quote_lot_budget,
                    self_trade_behavior,
                    match_limit,
                    client_order_id,
                    use_only_deposited_funds,
                }
            },
            Side::Ask => {
                let num_base_lots = size / meta.base_lot_size;
                OrderPacket::ImmediateOrCancel {
                    side: Side::Ask,
                    num_quote_ticks_per_base_unit: Some(target_price_in_ticks),
                    num_base_lots,
                    num_quote_lots: 0,
                    min_base_lots_to_fill: num_base_lots,
                    min_quote_lots_to_fill: 0,
                    self_trade_behavior,
                    match_limit,
                    client_order_id,
                    use_only_deposited_funds,
                }
            },
        };
        Ok(NewOrderInstruction { market, trader, base_mint, quote_mint, order_packet })
    }

    /// An immediate-or-cancel order bounded by slippage instead of a price:
    /// `lots_in` to spend and `min_lots_out` to receive, in the side's
    /// natural units.
    pub fn get_ioc_with_slippage_ix(&self, lots_in: u64, min_lots_out: u64, side: Side) -> (r:
        Result<NewOrderInstruction, SdkError>)
        requires
            self.wf(),
        ensures
            r is Ok <==> self.active_meta() is Some,
            self.active_meta() is None ==> r == Err::<NewOrderInstruction, SdkError>(
                SdkError::MarketNotFound,
            ),
            self.active_meta() matches Some(m) ==> (r matches Ok(ix) && self.spec_addressed_to(
                m,
                ix.market@,
                ix.trader@,
                ix.base_mint@,
                ix.quote_mint@,
            ) && ix.order_packet == (match side {
                Side::Bid => spec_new_ioc_buy_with_slippage(lots_in, min_lots_out),
                Side::Ask => spec_new_ioc_sell_with_slippage(lots_in, min_lots_out),
            })),
    {
        let (market, trader, base_mint, quote_mint) = self.resolve_accounts()?;
        let order_packet = match side {
            Side::Bid => OrderPacket::ImmediateOrCancel {
                side: Side::Bid,
                num_quote_ticks_per_base_unit: None,
                num_base_lots: 0,
                num_quote_lots: lots_in,
                min_base_lots_to_fill: min_lots_out,
                min_quote_lots_to_fill: 0,
                self_trade_behavior: SelfTradeBehavior::CancelProvide,
                match_limit: None,
                client_order_id: 0,
                use_only_deposited_funds: false,
            },
            Side::Ask => OrderPacket::ImmediateOrCancel {
                side: Side::Ask,
                num_quote_ticks_per_base_unit: None,
                num_base_lots: lots_in,
                num_quote_lots: 0,
                min_base_lots_to_fill: 0,
                min_quote_lots_to_fill: min_lots_out,
                self_trade_behavior: SelfTradeBehavior::CancelProvide,
                match_limit: None,
                client_order_id: 0,
                use_only_deposited_funds: false,
            },
        };
        Ok(NewOrderInstruction { market, trader, base_mint, quote_mint, order_packet })
    }

    /// An immediate-or-cancel order at a price already in ticks, with a
    /// freshly drawn random client order id and all other parameters at
    /// their defaults.
    pub fn get_ioc_from_tick_price_ix(&self, tick_price: u64, side: Side, size: u64) -> (r:
        Result<NewOrderInstruction, SdkError>)
        requires
            self.wf(),
        ensures
            r is Ok <==> self.active_meta() is Some,
            self.active_meta() is None ==> r == Err::<NewOrderInstruction, SdkError>(
                SdkError::MarketNotFound,
            ),
            self.active_meta() matches Some(m) ==> (r matches Ok(ix) && self.spec_addressed_to(
                m,
                ix.market@,
                ix.trader@,
                ix.base_mint@,
                ix.quote_mint@,
            ) && exists|coid: u128|
                ix.order_packet == spec_new_ioc_by_lots(
                    side,
                    tick_price,
                    size,
                    SelfTradeBehavior::CancelProvide,
                    None,
                    coid,
                    false,
                )),
    {
        let (market, trader, base_mint, quote_mint) = self.resolve_accounts()?;
        let coid = crate::random::random_u128();
        let order_packet = OrderPacket::ImmediateOrCancel {
            side,
            num_quote_ticks_per_base_unit: Some(tick_price),
            num_base_lots: size,
            num_quote_lots: 0,
            min_base_lots_to_fill: 0,
            min_quote_lots_to_fill: 0,
            self_trade_behavior: SelfTradeBehavior::CancelProvide,
            match_limit: None,
            client_order_id: coid,
            use_only_deposited_funds: false,
        };
        proof {
            assert(order_packet == spec_new_ioc_by_lots(
                side,
                tick_price,
                size,
                SelfTradeBehavior::CancelProvide,
                None,
                coid,
                false,
            ));
        }
        Ok(NewOrderInstruction { market, trader, base_mint, quote_mint, order_packet })
    }

    /// A post-only order with every optional parameter at its default.
    pub fn get_post_only_ix(&self, price: u64, side: Side, size: u64) -> (r: Result<
        NewOrderInstruction,
        SdkError,
    >)
        requires
            self.wf(),
        ensures
            r is Ok <==> self.active_meta() is Some,
            self.active_meta() is None ==> r == Err::<NewOrderInstruction, SdkError>(
                SdkError::MarketNotFound,
            ),
            self.active_meta() matches Some(m) ==> (r matches Ok(ix) && self.spec_addressed_to(
                m,
                ix.market@,
                ix.trader@,
                ix.base_mint@,
                ix.quote_mint@,
            ) && ix.order_packet == spec_new_post_only(
                side,
                price / m.tick_size,
                size,
                0,
                false,
                false,
            )),
    {
        self.get_post_only_generic_ix(price, side, size, None, None, None)
    }

    /// A post-only order at the tick price `price / tick_size` (truncating),
    /// with explicit optional parameters: the client order id defaults to
    /// zero, crossing orders are amended rather than rejected, and
    /// deposited-funds-only is off.
    pub fn get_post_only_generic_ix(
        &self,
        price: u64,
        side: Side,
        size: u64,
        client_order_id: Option<u128>,
        reject_post_only: Option<bool>,
        use_only_deposited_funds: Option<bool>,
    ) -> (r: Result<NewOrderInstruction, SdkError>)
        requires
            self.wf(),
        ensures
            r is Ok <==> self.active_meta() is Some,
            self.active_meta() is None ==> r == Err::<NewOrderInstruction, SdkError>(
                SdkError::MarketNotFound,
            ),
            self.active_meta() matches Some(m) ==> (r matches Ok(ix) && self.spec_addressed_to(
                m,
                ix.market@,
                ix.trader@,
                ix.base_mint@,
                ix.quote_mint@,
            ) && ix.order_packet == spec_new_post_only(
                side,
                price / m.tick_size,
                size,
                or_default(client_order_id, 0),
                or_default(reject_post_only, false),
                or_default(use_only_deposited_funds, false),
            )),
    {
        let meta = self.get_active_market_metadata()?;
        proof {
            crate::units::lemma_active_meta_wf(*self);
        }
        let price_in_ticks = price / meta.tick_size;
        let (market, trader, base_mint, quote_mint) = self.resolve_accounts()?;
        Ok(
            NewOrderInstruction {
                market,
                trader,
                base_mint,
                quote_mint,
                order_packet: OrderPacket::PostOnly {
                    side,
                    num_quote_ticks_per_base_unit: price_in_ticks,
                    num_base_lots: size,
                    client_order_id: client_order_id.unwrap_or(0),
                    reject_post_only: reject_post_only.unwrap_or(false),
                    use_only_deposited_funds: use_only_deposited_funds.unwrap_or(false),
                },
            },
        )
    }

    /// A post-only order at a price already in ticks. The boolean selects
    /// between two distinct packets: amend the price to avoid crossing, or
    /// reject on crossing.
    pub fn get_post_only_ix_from_tick_price(
        &self,
        tick_price: u64,
        side: Side,
        size: u64,
        client_order_id: u128,
        improve_price_on_cross: bool,
    ) -> (r: Result<NewOrderInstruction, SdkError>)
        requires
            self.wf(),
        ensures
            r is Ok <==> self.active_meta() is Some,
            self.active_meta() is None ==> r == Err::<NewOrderInstruction, SdkError>(
                SdkError::MarketNotFound,
            ),
            self.active_meta() matches Some(m) ==> (r matches Ok(ix) && self.spec_addressed_to(
                m,
                ix.market@,
                ix.trader@,
                ix.base_mint@,
                ix.quote_mint@,
            ) && ix.order_packet == spec_new_post_only(
                side,
                tick_price,
                size,
                client_order_id,
                !improve_price_on_cross,
                false,
            )),
    {
        let (market, trader, base_mint, quote_mint) = self.resolve_accounts()?;
        Ok(
            NewOrderInstruction {
                market,
                trader,
                base_mint,
                quote_mint,
                order_packet: OrderPacket::PostOnly {
                    side,
                    num_quote_ticks_per_base_unit: tick_price,
                    num_base_lots: size,
                    client_order_id,
                    reject_post_only: !improve_price_on_cross,
                    use_only_deposited_funds: false,
                },
            },
        )
    }

    /// A limit order with every optional parameter at its default.
    pub fn get_limit_order_ix(&self, price: u64, side: Side, size: u64) -> (r: Result<
        NewOrderInstruction,
        SdkError,
    >)
        requires
            self.wf(),
        ensures
            r is Ok <==> self.active_meta() is Some,
            self.active_meta() is None ==> r == Err::<NewOrderInstruction, SdkError>(
                SdkError::MarketNotFound,
            ),
            self.active_meta() matches Some(m) ==> (r matches Ok(ix) && self.spec_addressed_to(
                m,
                ix.market@,
                ix.trader@,
                ix.base_mint@,
                ix.quote_mint@,
            ) && ix.order_packet == spec_new_limit_order(
                side,
                price / m.tick_size,
                size,
                SelfTradeBehavior::DecrementTake,
                None,
                0,
                false,
            )),
    {
        self.get_limit_order_generic_ix(price, side, size, None, None, None, None)
    }

    /// A limit order at the tick price `price / tick_size` (truncating),
    /// with explicit optional parameters. Unlike the immediate-or-cancel
    /// default, self-trade handling here defaults to decrement-and-take;
    /// this asymmetry is the protocol's own.
    pub fn get_limit_order_generic_ix(
        &self,
        price: u64,
        side: Side,
        size: u64,
        self_trade_behavior: Option<SelfTradeBehavior>,
        match_limit: Option<u64>,
        client_order_id: Option<u128>,
        use_only_deposited_funds: Option<bool>,
    ) -> (r: Result<NewOrderInstruction, SdkError>)
        requires
            self.wf(),
        ensures
            r is Ok <==> self.active_meta() is Some,
            self.active_meta() is None ==> r == Err::<NewOrderInstruction, SdkError>(
                SdkError::MarketNotFound,
            ),
            self.active_meta() matches Some(m) ==> (r matches Ok(ix) && self.spec_addressed_to(
                m,
                ix.market@,
                ix.trader@,
                ix.base_mint@,
                ix.quote_mint@,
            ) && ix.order_packet == spec_new_limit_order(
                side,
                price / m.tick_size,
                size,
                or_default(self_trade_behavior, SelfTradeBehavior::DecrementTake),
                match_limit,
                or_default(client_order_id, 0),
                or_default(use_only_deposited_funds, false),
            )),
    {
        let meta = self.get_active_market_metadata()?;
        proof {
            crate::units::lemma_active_meta_wf(*self);
        }
        let num_quote_ticks_per_base_unit = price / meta.tick_size;
        let (market, trader, base_mint, quote_mint) = self.resolve_accounts()?;
        Ok(
            NewOrderInstruction {
                market,
                trader,
                base_mint,
                quote_mint,
                order_packet: OrderPacket::Limit {
                    side,
                    num_quote_ticks_per_base_unit,
                    num_base_lots: size,
                    self_trade_behavior: self_trade_behavior.unwrap_or(
                        SelfTradeBehavior::DecrementTake,
                    ),
                    match_limit,
                    client_order_id: client_order_id.unwrap_or(0),
                    use_only_deposited_funds: use_only_deposited_funds.unwrap_or(false),
                },
            },
        )
    }

    /// A limit order at a price already in ticks, with the protocol's
    /// defaults for a client-order-id placement: cancel-provide self-trade
    /// handling, no match limit, and deposited-funds-only off.
    pub fn get_limit_order_ix_from_tick_price(
        &self,
        tick_price: u64,
        side: Side,
        size: u64,
        client_order_id: u128,
    ) -> (r: Result<NewOrderInstruction, SdkError>)
        requires
            self.wf(),
        ensures
            r is Ok <==> self.active_meta() is Some,
            self.active_meta() is None ==> r == Err::<NewOrderInstruction, SdkError>(
                SdkError::MarketNotFound,
            ),
            self.active_meta() matches Some(m) ==> (r matches Ok(ix) && self.spec_addressed_to(
                m,
                ix.market@,
                ix.trader@,
                ix.base_mint@,
                ix.quote_mint@,
            ) && ix.order_packet == spec_new_limit_order(
                side,
                tick_price,
                size,
                SelfTradeBehavior::CancelProvide,
                None,
                client_order_id,
                false,
            )),
    {
        let (market, trader, base_mint, quote_mint) = self.resolve_accounts()?;
        Ok(
            NewOrderInstruction {
                market,
                trader,
                base_mint,
                quote_mint,
                order_packet: OrderPacket::Limit {
                    side,
                    num_quote_ticks_per_base_unit: tick_price,
                    num_base_lots: size,
                    self_trade_behavior: SelfTradeBehavior::CancelProvide,
                    match_limit: None,
                    client_order_id,
                    use_only_deposited_funds: false,
                },
            },
        )
    }

    /// One batched cancel instruction for the given order ids, each order's
    /// side derived from its sequence number.
    pub fn get_cancel_ids_ix(&self, ids: Vec<FIFOOrderId>) -> (r: Result<
        CancelMultipleOrdersByIdInstruction,
        SdkError,
    >)
        requires
            self.wf(),
        ensures
            r is Ok <==> self.active_meta() is Some,
            self.active_meta() is None ==> r == Err::<CancelMultipleOrdersByIdInstruction,
                SdkError,
            >(SdkError::MarketNotFound),
            self.active_meta() matches Some(m) ==> (r matches Ok(ix) && self.spec_addressed_to(
                m,
                ix.market@,
                ix.trader@,
                ix.base_mint@,
                ix.quote_mint@,
            ) && ix.orders@ == spec_cancel_params(ids@)),
    {
        let mut cancel_orders: Vec<CancelOrderParams> = Vec::new();
        let n = ids.len();
        let mut i: usize = 0;
        while i < n
            invariant
                0 <= i <= n,
                n == ids@.len(),
                cancel_orders@ == spec_cancel_params(ids@.subrange(0, i as int)),
            decreases n - i,
        {
            let id = ids[i];
            cancel_orders.push(
                CancelOrderParams {
                    side: Side::from_order_sequence_number(id.order_sequence_number),
                    num_quote_ticks_per_base_unit: id.num_quote_ticks_per_base_unit,
                    order_id: id.order_sequence_number,
                },
            );
            proof {
                assert(ids@.subrange(0, i as int) =~= ids@.subrange(0, i + 1 as int).drop_last());
                assert(cancel_orders@ =~= spec_cancel_params(ids@.subrange(0, i + 1 as int)));
            }
            i = i + 1;
        }
        let (market, trader, base_mint, quote_mint) = self.resolve_accounts()?;
        proof {
            assert(ids@.subrange(0, n as int) =~= ids@);
        }
        Ok(
            CancelMultipleOrdersByIdInstruction {
                market,
                trader,
                base_mint,
                quote_mint,
                orders: cancel_orders,
            },
        )
    }

    /// One instruction cancelling the trader's resting orders on `side` at
    /// or beyond `tick_limit`; an unset boundary means unbounded, and no cap
    /// is put on how many orders are searched or cancelled.
    pub fn get_cancel_up_to_ix(&self, tick_limit: Option<u64>, side: Side) -> (r: Result<
        CancelUpToInstruction,
        SdkError,
    >)
        requires
            self.wf(),
        ensures
            r is Ok <==> self.active_meta() is Some,
            self.active_meta() is None ==> r == Err::<CancelUpToInstruction, SdkError>(
                SdkError::MarketNotFound,
            ),
            self.active_meta() matches Some(m) ==> (r matches Ok(ix) && self.spec_addressed_to(
                m,
                ix.market@,
                ix.trader@,
                ix.base_mint@,
                ix.quote_mint@,
            ) && ix.side == side && ix.tick_limit == tick_limit && ix.num_orders_to_search
                == Option::<u32>::None && ix.num_orders_to_cancel == Option::<u32>::None),
    {
        let (market, trader, base_mint, quote_mint) = self.resolve_accounts()?;
        Ok(
            CancelUpToInstruction {
                market,
                trader,
                base_mint,
                quote_mint,
                side,
                tick_limit,
                num_orders_to_search: None,
                num_orders_to_cancel: None,
            },
        )
    }
}

} // verus!

