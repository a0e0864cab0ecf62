use vstd::prelude::*;

use crate::addr::Address;
use crate::addr::TxSignature;
use crate::bytes::{le_val, le_val_i64, read_bytes, read_le_i64, read_le_u128, read_le_u64};
use crate::client::SDKClientCore;
use crate::err::SdkError;
use crate::events::{
    spec_side_of_order_sequence_number, AuditLogHeader, AuditLogHeaderV, Fill, FillSummary, FillV,
    MarketEventDetails, MarketEventDetailsV, MarketEventWrapper, PhoenixEvent, PhoenixEventV,
    Place, PlaceV, Reduce, ReduceV, Evict, EvictV, Side,
};
use crate::meta::MarketMetadata;

verus! {

/// The byte length of the audit-log header record, discriminant included.
pub const AUDIT_LOG_HEADER_LEN: usize = 92;

/// The total byte length of the record selected by discriminant `d`,
/// discriminant byte included, as fixed by the on-chain program's wire
/// format.
pub open spec fn spec_record_size(d: u8) -> int {
    if d == 2 {
        67
    } else if d == 3 {
        43
    } else if d == 4 {
        35
    } else if d == 5 {
        59
    } else if d == 6 {
        43
    } else {
        0
    }
}

/// Run-time table of [`spec_record_size`].
pub fn record_size_of(d: u8) -> (r: usize)
    requires
        2 <= d <= 6,
    ensures
        r == spec_record_size(d),
{
    match d {
        2 => 67,
        3 => 43,
        4 => 35,
        5 => 59,
        _ => 43,
    }
}

/// The header fields encoded at the front of an audit log: the enum
/// discriminant, then an instruction byte, the market sequence number, the
/// timestamp, the slot, the market key, the signer key, and an event count.
pub open spec fn spec_parse_header(s: Seq<u8>) -> AuditLogHeaderV {
    AuditLogHeaderV {
        market: s.subrange(26, 58),
        market_sequence_number: le_val(s, 2, 8) as u64,
        slot: le_val(s, 18, 8) as u64,
        timestamp: le_val_i64(s, 10) as i64,
        signer: s.subrange(58, 90),
    }
}

/// An event assembled from the shared header fields and one record payload.
pub open spec fn spec_event(
    h: AuditLogHeaderV,
    sig: Seq<u8>,
    event_index: u64,
    details: MarketEventDetailsV,
) -> PhoenixEventV {
    PhoenixEventV {
        market: h.market,
        sequence_number: h.market_sequence_number,
        slot: h.slot,
        timestamp: h.timestamp,
        signature: sig,
        signer: h.signer,
        event_index,
        details,
    }
}

/// The event encoded by the record starting at `off` (whose discriminant is
/// `s[off]`, one of the five record kinds, with its full record in bounds).
/// Only a fill summary can fail, when scaling its lot counts by the market's
/// lot sizes overflows.
pub open spec fn spec_parse_record(
    m: MarketMetadata,
    sig: Seq<u8>,
    h: AuditLogHeaderV,
    s: Seq<u8>,
    off: int,
) -> Result<PhoenixEventV, SdkError> {
    let d = s[off];
    let event_index = le_val(s, off + 1, 2) as u64;
    if d == 2 {
        let order_sequence_number = le_val(s, off + 35, 8) as u64;
        let base_lots_remaining = le_val(s, off + 59, 8) as u64;
        Ok(
            spec_event(
                h,
                sig,
                event_index,
                MarketEventDetailsV::Fill(
                    FillV {
                        order_sequence_number,
                        maker: s.subrange(off + 3, off + 35),
                        taker: h.signer,
                        price_in_ticks: le_val(s, off + 43, 8) as u64,
                        base_lots_filled: le_val(s, off + 51, 8) as u64,
                        base_lots_remaining,
                        side_filled: spec_side_of_order_sequence_number(order_sequence_number),
                        is_full_fill: base_lots_remaining == 0,
                    },
                ),
            ),
        )
    } else if d == 3 {
        Ok(
            spec_event(
                h,
                sig,
                event_index,
                MarketEventDetailsV::Place(
                    PlaceV {
                        order_sequence_number: le_val(s, off + 3, 8) as u64,
                        client_order_id: le_val(s, off + 11, 16) as u128,
                        maker: h.signer,
                        price_in_ticks: le_val(s, off + 27, 8) as u64,
                        base_lots_placed: le_val(s, off + 35, 8) as u64,
                    },
                ),
            ),
        )
    } else if d == 4 {
        let base_lots_remaining = le_val(s, off + 27, 8) as u64;
        Ok(
            spec_event(
                h,
                sig,
                event_index,
                MarketEventDetailsV::Reduce(
                    ReduceV {
                        order_sequence_number: le_val(s, off + 3, 8) as u64,
                        maker: h.signer,
                        price_in_ticks: le_val(s, off + 11, 8) as u64,
                        base_lots_removed: le_val(s, off + 19, 8) as u64,
                        base_lots_remaining,
                        is_full_cancel: base_lots_remaining == 0,
                    },
                ),
            ),
        )
    } else if d == 5 {
        Ok(
            spec_event(
                h,
                sig,
                event_index,
                MarketEventDetailsV::Evict(
                    EvictV {
                        order_sequence_number: le_val(s, off + 35, 8) as u64,
                        maker: s.subrange(off + 3, off + 35),
                        price_in_ticks: le_val(s, off + 43, 8) as u64,
                        base_lots_evicted: le_val(s, off + 51, 8) as u64,
                    },
                ),
            ),
        )
    } else {
        let total_base_lots_filled = le_val(s, off + 19, 8) as u64;
        let total_quote_lots_filled = le_val(s, off + 27, 8) as u64;
        let total_fee_in_quote_lots = le_val(s, off + 35, 8) as u64;
        if total_base_lots_filled * m.base_lot_size > u64::MAX || total_quote_lots_filled
            * m.quote_lot_size > u64::MAX || total_fee_in_quote_lots * m.quote_lot_size
            > u64::MAX {
            Err(SdkError::ArithmeticOverflow)
        } else {
            Ok(
                spec_event(
                    h,
                    sig,
                    event_index,
                    MarketEventDetailsV::FillSummary(
                        FillSummary {
                            client_order_id: le_val(s, off + 3, 16) as u128,
                            total_base_filled: (total_base_lots_filled * m.base_lot_size) as u64,
                            total_quote_filled_including_fees: (total_quote_lots_filled
                                * m.quote_lot_size) as u64,
                            total_quote_fees: (total_fee_in_quote_lots
                                * m.quote_lot_size) as u64,
                        },
                    ),
                ),
            )
        }
    }
}

/// The events encoded by the records from `off` to the end of the log. The
/// stream is valid only when every discriminant is a known record kind,
/// every record's announced length is in bounds, and the final record lands
/// exactly on the end of the buffer.
pub open spec fn spec_parse_records(
    m: MarketMetadata,
    sig: Seq<u8>,
    h: AuditLogHeaderV,
    s: Seq<u8>,
    off: int,
) -> Result<Seq<PhoenixEventV>, SdkError>
    decreases s.len() - off,
{
    if off >= s.len() {
        Ok(Seq::empty())
    } else {
        let d = s[off];
        if !(2 <= d <= 6) {
            Err(SdkError::UnknownEventKind)
        } else if off + spec_record_size(d) > s.len() {
            Err(SdkError::TruncatedEvent)
        } else {
            match spec_parse_record(m, sig, h, s, off) {
                Err(e) => Err(e),
                Ok(ev) => match spec_parse_records(m, sig, h, s, off + spec_record_size(d)) {
                    Err(e) => Err(e),
                    Ok(rest) => Ok(seq![ev] + rest),
                },
            }
        }
    }
}

/// The events encoded by one transaction's audit log: a header record of
/// exactly [`AUDIT_LOG_HEADER_LEN`] bytes followed by the record stream.
pub open spec fn spec_parse_log(m: MarketMetadata, sig: Seq<u8>, s: Seq<u8>) -> Result<
    Seq<PhoenixEventV>,
    SdkError,
> {
    if s.len() < AUDIT_LOG_HEADER_LEN || s[0] != 1 {
        Err(SdkError::MalformedHeader)
    } else {
        spec_parse_records(m, sig, spec_parse_header(s), s, AUDIT_LOG_HEADER_LEN as int)
    }
}

/// The events of a batch of logs, in log order; any log's failure fails the
/// whole batch.
pub open spec fn spec_parse_logs(m: MarketMetadata, sig: Seq<u8>, logs: Seq<Seq<u8>>) -> Result<
    Seq<PhoenixEventV>,
    SdkError,
>
    decreases logs.len(),
{
    if logs.len() == 0 {
        Ok(Seq::empty())
    } else {
        match spec_parse_log(m, sig, logs[0]) {
            Err(e) => Err(e),
            Ok(evs) => match spec_parse_logs(m, sig, logs.drop_first()) {
                Err(e) => Err(e),
                Ok(rest) => Ok(evs + rest),
            },
        }
    }
}

/// The byte sequences of a batch of log buffers.
pub open spec fn logs_view(s: Seq<Vec<u8>>) -> Seq<Seq<u8>> {
    s.map_values(|v: Vec<u8>| v@)
}

/// The mathematical images of a sequence of decoded events.
pub open spec fn events_view(s: Seq<PhoenixEvent>) -> Seq<PhoenixEventV> {
    s.map_values(|e: PhoenixEvent| e@)
}

/// Decodes the header record at the front of `bytes`.
fn parse_header(bytes: &Vec<u8>) -> (h: AuditLogHeader)
    requires
        bytes@.len() >= AUDIT_LOG_HEADER_LEN,
        bytes@[0] == 1,
    ensures
        h@ == spec_parse_header(bytes@),
{
    let market = Address::from_bytes(read_bytes(bytes, 26, 32));
    let signer = Address::from_bytes(read_bytes(bytes, 58, 32));
    let market_sequence_number = read_le_u64(bytes, 2, 8);
    let timestamp = read_le_i64(bytes, 10);
    let slot = read_le_u64(bytes, 18, 8);
    AuditLogHeader { market, market_sequence_number, slot, timestamp, signer }
}

/// Decodes the record starting at `off`, combining its payload with the
/// shared header fields.
fn parse_record(
    m: &MarketMetadata,
    sig: &TxSignature,
    h: &AuditLogHeader,
    bytes: &Vec<u8>,
    off: usize,
) -> (r: Result<PhoenixEvent, SdkError>)
    requires
        off < bytes@.len(),
        2 <= bytes@[off as int] <= 6,
        off + spec_record_size(bytes@[off as int]) <= bytes@.len(),
    ensures
        match r {
            Ok(ev) => spec_parse_record(*m, sig@, h@, bytes@, off as int) == Ok::<
                PhoenixEventV,
                SdkError,
            >(ev@),
            Err(e) => spec_parse_record(*m, sig@, h@, bytes@, off as int) == Err::<
                PhoenixEventV,
                SdkError,
            >(e),
        },
{
    // Binds the buffer length so the field offsets below are known to fit
    // in a `usize`.
    let len: usize = bytes.len();
    let d = bytes[off];
    let event_index = read_le_u64(bytes, off + 1, 2);
    if d == 2 {
        let maker = Address::from_bytes(read_bytes(bytes, off + 3, 32));
        let order_sequence_number = read_le_u64(bytes, off + 35, 8);
        let price_in_ticks = read_le_u64(bytes, off + 43, 8);
        let base_lots_filled = read_le_u64(bytes, off + 51, 8);
        let base_lots_remaining = read_le_u64(bytes, off + 59, 8);
        Ok(
            PhoenixEvent {
                market: h.market.duplicate(),
                sequence_number: h.market_sequence_number,
                slot: h.slot,
                timestamp: h.timestamp,
                signature: sig.duplicate(),
                signer: h.signer.duplicate(),
                event_index,
                details: MarketEventDetails::Fill(
                    Fill {
                        order_sequence_number,
                        maker,
                        taker: h.signer.duplicate(),
                        price_in_ticks,
                        base_lots_filled,
                        base_lots_remaining,
                        side_filled: Side::from_order_sequence_number(order_sequence_number),
                        is_full_fill: base_lots_remaining == 0,
                    },
                ),
            },
        )
    } else if d == 3 {
        let order_sequence_number = read_le_u64(bytes, off + 3, 8);
        let client_order_id = read_le_u128(bytes, off + 11);
        let price_in_ticks = read_le_u64(bytes, off + 27, 8);
        let base_lots_placed = read_le_u64(bytes, off + 35, 8);
        Ok(
            PhoenixEvent {
                market: h.market.duplicate(),
                sequence_number: h.market_sequence_number,
                slot: h.slot,
                timestamp: h.timestamp,
                signature: sig.duplicate(),
                signer: h.signer.duplicate(),
                event_index,
                details: MarketEventDetails::Place(
                    Place {
                        order_sequence_number,
                        client_order_id,
                        maker: h.signer.duplicate(),
                        price_in_ticks,
                        base_lots_placed,
                    },
                ),
            },
        )
    } else if d == 4 {
        let order_sequence_number = read_le_u64(bytes, off + 3, 8);
        let price_in_ticks = read_le_u64(bytes, off + 11, 8);
        let base_lots_removed = read_le_u64(bytes, off + 19, 8);
        let base_lots_remaining = read_le_u64(bytes, off + 27, 8);
        Ok(
            PhoenixEvent {
                market: h.market.duplicate(),
                sequence_number: h.market_sequence_number,
                slot: h.slot,
                timestamp: h.timestamp,
                signature: sig.duplicate(),
                signer: h.signer.duplicate(),
                event_index,
                details: MarketEventDetails::Reduce(
                    Reduce {
                        order_sequence_number,
                        maker: h.signer.duplicate(),
                        price_in_ticks,
                        base_lots_removed,
                        base_lots_remaining,
                        is_full_cancel: base_lots_remaining == 0,
                    },
                ),
            },
        )
    } else if d == 5 {
        let maker = Address::from_bytes(read_bytes(bytes, off + 3, 32));
        let order_sequence_number = read_le_u64(bytes, off + 35, 8);
        let price_in_ticks = read_le_u64(bytes, off + 43, 8);
        let base_lots_evicted = read_le_u64(bytes, off + 51, 8);
        Ok(
            PhoenixEvent {
                market: h.market.duplicate(),
                sequence_number: h.market_sequence_number,
                slot: h.slot,
                timestamp: h.timestamp,
                signature: sig.duplicate(),
                signer: h.signer.duplicate(),
                event_index,
                details: MarketEventDetails::Evict(
                    Evict { order_sequence_number, maker, price_in_ticks, base_lots_evicted },
                ),
            },
        )
    } else {
        let client_order_id = read_le_u128(bytes, off + 3);
        let total_base_lots_filled = read_le_u64(bytes, off + 19, 8);
        let total_quote_lots_filled = read_le_u64(bytes, off + 27, 8);
        let total_fee_in_quote_lots = read_le_u64(bytes, off + 35, 8);
        let total_base_filled = match total_base_lots_filled.checked_mul(m.base_lot_size) {
            Some(v) => v,
            None => {
                return Err(SdkError::ArithmeticOverflow);
            },
        };
        let total_quote_filled_including_fees = match total_quote_lots_filled.checked_mul(
            m.quote_lot_size,
        ) {
            Some(v) => v,
            None => {
                return Err(SdkError::ArithmeticOverflow);
            },
        };
        let total_quote_fees = match total_fee_in_quote_lots.checked_mul(m.quote_lot_size) {
            Some(v) => v,
            None => {
                return Err(SdkError::ArithmeticOverflow);
            },
        };
        Ok(
            PhoenixEvent {
                market: h.market.duplicate(),
                sequence_number: h.market_sequence_number,
                slot: h.slot,
                timestamp: h.timestamp,
                signature: sig.duplicate(),
                signer: h.signer.duplicate(),
                event_index,
                details: MarketEventDetails::FillSummary(
                    FillSummary {
                        client_order_id,
                        total_base_filled,
                        total_quote_filled_including_fees,
                        total_quote_fees,
                    },
                ),
            },
        )
    }
}

/// Decodes one transaction's audit log into its ordered event list.
///
/// The log must open with a header record; after it, records are decoded
/// back to back until the cursor lands exactly on the end of the buffer.
/// Any unknown discriminant, truncated record, or scaling overflow fails the
/// whole log with a typed error and no partial result.
pub fn parse_one_log(m: &MarketMetadata, sig: &TxSignature, bytes: &Vec<u8>) -> (r: Result<
    Vec<PhoenixEvent>,
    SdkError,
>)
    ensures
        match r {
            Ok(v) => spec_parse_log(*m, sig@, bytes@) == Ok::<Seq<PhoenixEventV>, SdkError>(
                events_view(v@),
            ),
            Err(e) => spec_parse_log(*m, sig@, bytes@) == Err::<Seq<PhoenixEventV>, SdkError>(e),
        },
{
    let len: usize = bytes.len();
    if len < AUDIT_LOG_HEADER_LEN {
        return Err(SdkError::MalformedHeader);
    }
    if bytes[0] != 1 {
        return Err(SdkError::MalformedHeader);
    }
    let header = parse_header(bytes);
    let mut events: Vec<PhoenixEvent> = Vec::new();
    let mut off: usize = AUDIT_LOG_HEADER_LEN;
    while off < len
        invariant
            AUDIT_LOG_HEADER_LEN <= off <= len,
            len == bytes@.len(),
            bytes@[0] == 1,
            header@ == spec_parse_header(bytes@),
            spec_parse_log(*m, sig@, bytes@) == (match spec_parse_records(
                *m,
                sig@,
                header@,
                bytes@,
                off as int,
            ) {
                Ok(rest) => Ok::<Seq<PhoenixEventV>, SdkError>(events_view(events@) + rest),
                Err(e) => Err::<Seq<PhoenixEventV>, SdkError>(e),
            }),
        decreases len - off,
    {
        let d = bytes[off];
        match MarketEventWrapper::from_discriminant(d) {
            Some(MarketEventWrapper::Fill) | Some(MarketEventWrapper::Place)
            | Some(MarketEventWrapper::Reduce) | Some(MarketEventWrapper::Evict)
            | Some(MarketEventWrapper::FillSummary) => {},
            _ => {
                return Err(SdkError::UnknownEventKind);
            },
        }
        let size = record_size_of(d);
        if size > len - off {
            return Err(SdkError::TruncatedEvent);
        }
        let ghost pre_events = events@;
        match parse_record(m, sig, &header, bytes, off) {
            Ok(ev) => {
                events.push(ev);
                proof {
                    let rec = spec_parse_record(*m, sig@, header@, bytes@, off as int);
                    let rest = spec_parse_records(
                        *m,
                        sig@,
                        header@,
                        bytes@,
                        off + spec_record_size(d),
                    )->Ok_0;
                    assert(events_view(events@) =~= events_view(pre_events).push(rec->Ok_0));
                    assert(events_view(pre_events) + (seq![rec->Ok_0] + rest) =~= events_view(
                        events@,
                    ) + rest);
                }
            },
            Err(e) => {
                return Err(e);
            },
        }
        off = off + size;
    }
    proof {
        assert(events_view(events@) + Seq::<PhoenixEventV>::empty() =~= events_view(events@));
    }
    Ok(events)
}

impl SDKClientCore {
    /// The decode outcome for a batch of raw logs under the active market:
    /// a configuration failure when the active market is unregistered,
    /// otherwise the batch decode of [`spec_parse_logs`].
    pub open spec fn spec_parse_outcome(&self, sig: Seq<u8>, logs: Seq<Seq<u8>>) -> Result<
        Seq<PhoenixEventV>,
        SdkError,
    > {
        match self.active_meta() {
            None => Err(SdkError::MarketNotFound),
            Some(m) => spec_parse_logs(m, sig, logs),
        }
    }

    /// Decodes the raw audit logs of one transaction into structured events,
    /// in log order, scaling fill summaries by the active market's lot
    /// sizes. Fails as a whole, with a typed error, on an unregistered
    /// market or any malformed log.
    pub fn parse_wrapper_events(&self, sig: &TxSignature, events: &Vec<Vec<u8>>) -> (r: Result<
        Vec<PhoenixEvent>,
        SdkError,
    >)
        requires
            self.wf(),
        ensures
            match r {
                Ok(v) => self.spec_parse_outcome(sig@, logs_view(events@)) == Ok::<
                    Seq<PhoenixEventV>,
                    SdkError,
                >(events_view(v@)),
                Err(e) => self.spec_parse_outcome(sig@, logs_view(events@)) == Err::<
                    Seq<PhoenixEventV>,
                    SdkError,
                >(e),
            },
    {
        let meta = self.get_active_market_metadata()?;
        let mut out: Vec<PhoenixEvent> = Vec::new();
        let n = events.len();
        let mut i: usize = 0;
        proof {
            let logs = logs_view(events@);
            assert(logs.skip(0) =~= logs);
            let rest0 = spec_parse_logs(*meta, sig@, logs)->Ok_0;
            assert(events_view(out@) + rest0 =~= rest0);
        }
        while i < n
            invariant
                0 <= i <= n,
                n == events@.len(),
                self.active_meta() == Some(*meta),
                spec_parse_logs(*meta, sig@, logs_view(events@)) == (match spec_parse_logs(
                    *meta,
                    sig@,
                    logs_view(events@).skip(i as int),
                ) {
                    Ok(rest) => Ok::<Seq<PhoenixEventV>, SdkError>(events_view(out@) + rest),
                    Err(e) => Err::<Seq<PhoenixEventV>, SdkError>(e),
                }),
            decreases n - i,
        {
            proof {
                let logs = logs_view(events@);
                assert(logs.skip(i as int)[0] == events@[i as int]@);
                assert(logs.skip(i as int).drop_first() =~= logs.skip(i + 1));
            }
            let ghost pre_out = out@;
            match parse_one_log(meta, sig, &events[i]) {
                Ok(mut batch) => {
                    let ghost batch_snap = batch@;
                    append_events(&mut out, batch);
                    proof {
                        let logs = logs_view(events@);
                        let rest = spec_parse_logs(*meta, sig@, logs.skip(i + 1))->Ok_0;
                        assert(events_view(out@) =~= events_view(pre_out) + events_view(
                            batch_snap,
                        ));
                        assert(events_view(pre_out) + (events_view(batch_snap) + rest)
                            =~= events_view(out@) + rest);
                    }
                },
                Err(e) => {
                    return Err(e);
                },
            }
            i = i + 1;
        }
        proof {
            assert(logs_view(events@).skip(n as int) =~= Seq::<Seq<u8>>::empty());
            assert(events_view(out@) + Seq::<PhoenixEventV>::empty() =~= events_view(out@));
        }
        Ok(out)
    }
}

/// Moves every event of `src` onto the end of `dst`, preserving order.
fn append_events(dst: &mut Vec<PhoenixEvent>, src: Vec<PhoenixEvent>)
    ensures
        final(dst)@ == old(dst)@ + src@,
{
    let mut src = src;
    let ghost all = src@;
    let total: usize = src.len();
    let mut taken: usize = 0;
    while src.len() > 0
        invariant
            all.len() == total,
            taken + src@.len() == all.len(),
            src@ == all.skip(taken as int),
            dst@ == old(dst)@ + all.subrange(0, taken as int),
        decreases src@.len(),
    {
        let e = src.remove(0);
        proof {
            assert(e == all[taken as int]);
            assert(src@ =~= all.skip(taken as int + 1));
        }
        dst.push(e);
        proof {
            assert(dst@ =~= old(dst)@ + all.subrange(0, taken as int + 1));
        }
        taken = taken + 1;
    }
    proof {
        assert(all.subrange(0, all.len() as int) =~= all);
        assert(dst@ =~= old(dst)@ + all);
    }
}

} // verus!
