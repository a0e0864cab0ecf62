use vstd::prelude::*;

use crate::addr::Address;
use crate::addr::TxSignature;

verus! {

/// The side of the book an order rests on or takes from.
#[derive(Clone, Copy, Debug, PartialEq, Eq, Structural)]
pub enum Side {
    Bid,
    Ask,
}

/// The side encoded in an order sequence number: the top bit set means a bid.
pub open spec fn spec_side_of_order_sequence_number(order_sequence_number: u64) -> Side {
    if order_sequence_number >= 0x8000_0000_0000_0000 {
        Side::Bid
    } else {
        Side::Ask
    }
}

impl Side {
    /// Derives the side of an order from its sequence number; the side is
    /// never stored separately, so it can never disagree with the id.
    pub fn from_order_sequence_number(order_sequence_number: u64) -> (r: Side)
        ensures
            r == spec_side_of_order_sequence_number(order_sequence_number),
    {
        if order_sequence_number >= 0x8000_0000_0000_0000 {
            Side::Bid
        } else {
            Side::Ask
        }
    }
}

/// How the matching engine handles an order crossing the same trader's own
/// resting order.
#[derive(Clone, Copy, Debug, PartialEq, Eq, Structural)]
pub enum SelfTradeBehavior {
    /// Reject the crossing order.
    Abort,
    /// Cancel the resting order.
    CancelProvide,
    /// Shrink both orders by the smaller quantity.
    DecrementTake,
}

/// The composite key of a resting order: its tick price and its sequence
/// number. The side is derived from the sequence number.
#[derive(Clone, Copy, Debug, PartialEq, Eq, Structural)]
pub struct FIFOOrderId {
    pub num_quote_ticks_per_base_unit: u64,
    pub order_sequence_number: u64,
}

/// One resting order in a locally mirrored book.
#[derive(Clone, Debug, PartialEq, Eq)]
pub struct PhoenixOrder {
    pub num_base_lots: u64,
    pub maker_id: Address,
}

/// The record kinds of the audit log, in discriminant order.
#[derive(Clone, Copy, Debug, PartialEq, Eq, Structural)]
pub enum MarketEventWrapper {
    Uninitialized,
    Header,
    Fill,
    Place,
    Reduce,
    Evict,
    FillSummary,
}

/// The record kind selected by a discriminant byte, if the byte is in range.
pub open spec fn spec_event_kind(b: u8) -> Option<MarketEventWrapper> {
    if b == 0 {
        Some(MarketEventWrapper::Uninitialized)
    } else if b == 1 {
        Some(MarketEventWrapper::Header)
    } else if b == 2 {
        Some(MarketEventWrapper::Fill)
    } else if b == 3 {
        Some(MarketEventWrapper::Place)
    } else if b == 4 {
        Some(MarketEventWrapper::Reduce)
    } else if b == 5 {
        Some(MarketEventWrapper::Evict)
    } else if b == 6 {
        Some(MarketEventWrapper::FillSummary)
    } else {
        None
    }
}

impl MarketEventWrapper {
    /// Decodes one discriminant byte.
    pub fn from_discriminant(b: u8) -> (r: Option<MarketEventWrapper>)
        ensures
            r == spec_event_kind(b),
    {
        match b {
            0 => Some(MarketEventWrapper::Uninitialized),
            1 => Some(MarketEventWrapper::Header),
            2 => Some(MarketEventWrapper::Fill),
            3 => Some(MarketEventWrapper::Place),
            4 => Some(MarketEventWrapper::Reduce),
            5 => Some(MarketEventWrapper::Evict),
            6 => Some(MarketEventWrapper::FillSummary),
            _ => None,
        }
    }
}

/// The per-transaction header decoded from the front of every audit log;
/// every following record is scoped to it.
#[derive(Clone, Debug, PartialEq, Eq)]
pub struct AuditLogHeader {
    pub market: Address,
    pub market_sequence_number: u64,
    pub slot: u64,
    pub timestamp: i64,
    pub signer: Address,
}

/// Mathematical image of [`AuditLogHeader`].
pub struct AuditLogHeaderV {
    pub market: Seq<u8>,
    pub market_sequence_number: u64,
    pub slot: u64,
    pub timestamp: i64,
    pub signer: Seq<u8>,
}

impl View for AuditLogHeader {
    type V = AuditLogHeaderV;

    open spec fn view(&self) -> AuditLogHeaderV {
        AuditLogHeaderV {
            market: self.market@,
            market_sequence_number: self.market_sequence_number,
            slot: self.slot,
            timestamp: self.timestamp,
            signer: self.signer@,
        }
    }
}

/// One maker order matched by a crossing order.
#[derive(Clone, Debug, PartialEq, Eq)]
pub struct Fill {
    pub order_sequence_number: u64,
    pub maker: Address,
    pub taker: Address,
    pub price_in_ticks: u64,
    pub base_lots_filled: u64,
    pub base_lots_remaining: u64,
    pub side_filled: Side,
    pub is_full_fill: bool,
}

/// Mathematical image of [`Fill`].
pub struct FillV {
    pub order_sequence_number: u64,
    pub maker: Seq<u8>,
    pub taker: Seq<u8>,
    pub price_in_ticks: u64,
    pub base_lots_filled: u64,
    pub base_lots_remaining: u64,
    pub side_filled: Side,
    pub is_full_fill: bool,
}

impl View for Fill {
    type V = FillV;

    open spec fn view(&self) -> FillV {
        FillV {
            order_sequence_number: self.order_sequence_number,
            maker: self.maker@,
            taker: self.taker@,
            price_in_ticks: self.price_in_ticks,
            base_lots_filled: self.base_lots_filled,
            base_lots_remaining: self.base_lots_remaining,
            side_filled: self.side_filled,
            is_full_fill: self.is_full_fill,
        }
    }
}

/// One limit order placed on the book.
#[derive(Clone, Debug, PartialEq, Eq)]
pub struct Place {
    pub order_sequence_number: u64,
    pub client_order_id: u128,
    pub maker: Address,
    pub price_in_ticks: u64,
    pub base_lots_placed: u64,
}

/// Mathematical image of [`Place`].
pub struct PlaceV {
    pub order_sequence_number: u64,
    pub client_order_id: u128,
    pub maker: Seq<u8>,
    pub price_in_ticks: u64,
    pub base_lots_placed: u64,
}

impl View for Place {
    type V = PlaceV;

    open spec fn view(&self) -> PlaceV {
        PlaceV {
            order_sequence_number: self.order_sequence_number,
            client_order_id: self.client_order_id,
            maker: self.maker@,
            price_in_ticks: self.price_in_ticks,
            base_lots_placed: self.base_lots_placed,
        }
    }
}

/// One resting order reduced or cancelled.
#[derive(Clone, Debug, PartialEq, Eq)]
pub struct Reduce {
    pub order_sequence_number: u64,
    pub maker: Address,
    pub price_in_ticks: u64,
    pub base_lots_removed: u64,
    pub base_lots_remaining: u64,
    pub is_full_cancel: bool,
}

/// Mathematical image of [`Reduce`].
pub struct ReduceV {
    pub order_sequence_number: u64,
    pub maker: Seq<u8>,
    pub price_in_ticks: u64,
    pub base_lots_removed: u64,
    pub base_lots_remaining: u64,
    pub is_full_cancel: bool,
}

impl View for Reduce {
    type V = ReduceV;

    open spec fn view(&self) -> ReduceV {
        ReduceV {
            order_sequence_number: self.order_sequence_number,
            maker: self.maker@,
            price_in_ticks: self.price_in_ticks,
            base_lots_removed: self.base_lots_removed,
            base_lots_remaining: self.base_lots_remaining,
            is_full_cancel: self.is_full_cancel,
        }
    }
}

/// One resting order evicted to make room in the book.
#[derive(Clone, Debug, PartialEq, Eq)]
pub struct Evict {
    pub order_sequence_number: u64,
    pub maker: Address,
    pub price_in_ticks: u64,
    pub base_lots_evicted: u64,
}

/// Mathematical image of [`Evict`].
pub struct EvictV {
    pub order_sequence_number: u64,
    pub maker: Seq<u8>,
    pub price_in_ticks: u64,
    pub base_lots_evicted: u64,
}

impl View for Evict {
    type V = EvictV;

    open spec fn view(&self) -> EvictV {
        EvictV {
            order_sequence_number: self.order_sequence_number,
            maker: self.maker@,
            price_in_ticks: self.price_in_ticks,
            base_lots_evicted: self.base_lots_evicted,
        }
    }
}

/// Totals for one crossing order, with raw lot counts already scaled to
/// absolute amounts by the market's lot sizes.
#[derive(Clone, Copy, Debug, PartialEq, Eq, Structural)]
pub struct FillSummary {
    pub client_order_id: u128,
    pub total_base_filled: u64,
    pub total_quote_filled_including_fees: u64,
    pub total_quote_fees: u64,
}

/// The payload of one decoded audit-log record.
#[derive(Clone, Debug, PartialEq, Eq)]
pub enum MarketEventDetails {
    Fill(Fill),
    Place(Place),
    Reduce(Reduce),
    Evict(Evict),
    FillSummary(FillSummary),
}

/// Mathematical image of [`MarketEventDetails`].
pub enum MarketEventDetailsV {
    Fill(FillV),
    Place(PlaceV),
    Reduce(ReduceV),
    Evict(EvictV),
    FillSummary(FillSummary),
}

impl View for MarketEventDetails {
    type V = MarketEventDetailsV;

    open spec fn view(&self) -> MarketEventDetailsV {
        match self {
            MarketEventDetails::Fill(f) => MarketEventDetailsV::Fill(f@),
            MarketEventDetails::Place(p) => MarketEventDetailsV::Place(p@),
            MarketEventDetails::Reduce(x) => MarketEventDetailsV::Reduce(x@),
            MarketEventDetails::Evict(e) => MarketEventDetailsV::Evict(e@),
            MarketEventDetails::FillSummary(s) => MarketEventDetailsV::FillSummary(*s),
        }
    }
}

/// One decoded market event: the shared header fields, the transaction
/// signature it came from, its index in the raw log, and its payload.
#[derive(Clone, Debug, PartialEq, Eq)]
pub struct PhoenixEvent {
    pub market: Address,
    pub sequence_number: u64,
    pub slot: u64,
    pub timestamp: i64,
    pub signature: TxSignature,
    pub signer: Address,
    pub event_index: u64,
    pub details: MarketEventDetails,
}

/// Mathematical image of [`PhoenixEvent`].
pub struct PhoenixEventV {
    pub market: Seq<u8>,
    pub sequence_number: u64,
    pub slot: u64,
    pub timestamp: i64,
    pub signature: Seq<u8>,
    pub signer: Seq<u8>,
    pub event_index: u64,
    pub details: MarketEventDetailsV,
}

impl View for PhoenixEvent {
    type V = PhoenixEventV;

    open spec fn view(&self) -> PhoenixEventV {
        PhoenixEventV {
            market: self.market@,
            sequence_number: self.sequence_number,
            slot: self.slot,
            timestamp: self.timestamp,
            signature: self.signature@,
            signer: self.signer@,
            event_index: self.event_index,
            details: self.details@,
        }
    }
}

} // verus!
