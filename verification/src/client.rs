use vstd::prelude::*;

use crate::addr::Address;
use crate::err::SdkError;
use crate::meta::{MarketEntry, MarketMetadata};

verus! {

/// The metadata registered for `key`, if any. The latest registration for a
/// key wins, so re-registering a market replaces its metadata.
pub open spec fn find_meta(s: Seq<MarketEntry>, key: Seq<u8>) -> Option<MarketMetadata>
    decreases s.len(),
{
    if s.len() == 0 {
        None
    } else if s.last().key@ == key {
        Some(s.last().meta)
    } else {
        find_meta(s.drop_last(), key)
    }
}

/// The stateless client core: a registry of markets keyed by address, the
/// selected active market, and the trader identity that instructions are
/// built for.
pub struct SDKClientCore {
    pub markets: Vec<MarketEntry>,
    pub active_market_key: Address,
    pub trader: Address,
}

impl SDKClientCore {
    /// Addresses are well formed and every registered market is consistently
    /// configured.
    pub open spec fn wf(&self) -> bool {
        &&& self.active_market_key.wf()
        &&& self.trader.wf()
        &&& forall|i: int|
            0 <= i < self.markets@.len() ==> (#[trigger] self.markets@[i]).wf()
    }

    /// The metadata of the active market, if the active market is registered.
    pub open spec fn active_meta(&self) -> Option<MarketMetadata> {
        find_meta(self.markets@, self.active_market_key@)
    }

    /// A core with no registered markets, an active-market selector that
    /// matches no market, and the given trader identity.
    pub fn new(active_market_key: Address, trader: Address) -> (r: SDKClientCore)
        requires
            active_market_key.wf(),
            trader.wf(),
        ensures
            r.wf(),
            r.markets@.len() == 0,
            r.active_market_key@ == active_market_key@,
            r.trader@ == trader@,
    {
        SDKClientCore { markets: Vec::new(), active_market_key, trader }
    }

    /// Registers a market, replacing any earlier registration for the same
    /// key. A misconfigured market is rejected, so that every later
    /// conversion can divide by its lot and tick sizes safely.
    pub fn add_market(&mut self, key: Address, meta: MarketMetadata) -> (r: Result<
        (),
        SdkError,
    >)
        requires
            old(self).wf(),
            key.wf(),
        ensures
            final(self).wf(),
            final(self).active_market_key@ == old(self).active_market_key@,
            final(self).trader@ == old(self).trader@,
            meta.wf() ==> r == Ok::<(), SdkError>(())
                && final(self).markets@ == old(self).markets@.push(MarketEntry { key, meta }),
            !meta.wf() ==> r == Err::<(), SdkError>(SdkError::InvalidMarketConfig)
                && final(self).markets@ == old(self).markets@,
    {
        if meta.check_wf() {
            self.markets.push(MarketEntry { key, meta });
            Ok(())
        } else {
            Err(SdkError::InvalidMarketConfig)
        }
    }

    /// Selects `market` as the active market; fails without changing anything
    /// when no such market is registered.
    pub fn change_active_market(&mut self, market: &Address) -> (r: Result<(), SdkError>)
        requires
            old(self).wf(),
            market.wf(),
        ensures
            final(self).wf(),
            final(self).markets@ == old(self).markets@,
            final(self).trader@ == old(self).trader@,
            find_meta(old(self).markets@, market@) is Some ==> r == Ok::<(), SdkError>(())
                && final(self).active_market_key@ == market@,
            find_meta(old(self).markets@, market@) is None ==> r == Err::<(), SdkError>(
                SdkError::MarketNotFound,
            ) && final(self).active_market_key@ == old(self).active_market_key@,
    {
        if find_market(&self.markets, market).is_some() {
            self.active_market_key = market.duplicate();
            Ok(())
        } else {
            Err(SdkError::MarketNotFound)
        }
    }

    /// Decides `wf` at run time, so that unverified callers can test it
    /// before calling the operations that assume it.
    pub fn check_wf(&self) -> (r: bool)
        ensures
            r == self.wf(),
    {
        if self.active_market_key.as_bytes().len() != 32 || self.trader.as_bytes().len() != 32 {
            return false;
        }
        let mut i: usize = 0;
        while i < self.markets.len()
            invariant
                0 <= i <= self.markets@.len(),
                forall|j: int| 0 <= j < i ==> (#[trigger] self.markets@[j]).wf(),
            decreases self.markets@.len() - i,
        {
            let entry = &self.markets[i];
            if entry.key.as_bytes().len() != 32 || !entry.meta.check_wf() {
                return false;
            }
            i = i + 1;
        }
        true
    }

    /// The metadata of the active market; fails when the active market is not
    /// registered.
    pub fn get_active_market_metadata(&self) -> (r: Result<&MarketMetadata, SdkError>)
        ensures
            match r {
                Ok(m) => self.active_meta() == Some(*m),
                Err(e) => self.active_meta() is None && e == SdkError::MarketNotFound,
            },
    {
        match find_market(&self.markets, &self.active_market_key) {
            Some(m) => Ok(m),
            None => Err(SdkError::MarketNotFound),
        }
    }
}

/// The entry registered for `key`, as a reference; the latest registration
/// wins.
fn find_market<'a>(markets: &'a Vec<MarketEntry>, key: &Address) -> (r: Option<
    &'a MarketMetadata,
>)
    ensures
        match r {
            Some(m) => find_meta(markets@, key@) == Some(*m),
            None => find_meta(markets@, key@) is None,
        },
{
    let mut i: usize = markets.len();
    proof {
        assert(markets@.subrange(0, markets@.len() as int) =~= markets@);
    }
    while i > 0
        invariant
            0 <= i <= markets@.len(),
            find_meta(markets@, key@) == find_meta(markets@.subrange(0, i as int), key@),
        decreases i,
    {
        i = i - 1;
        let entry = &markets[i];
        proof {
            assert(markets@.subrange(0, i + 1).last() == markets@[i as int]);
            assert(markets@.subrange(0, i + 1).drop_last() =~= markets@.subrange(0, i as int));
        }
        if entry.key.equals(key) {
            return Some(&entry.meta);
        }
    }
    None
}

} // verus!
