use vstd::prelude::*;

use crate::addr::TxSignature;

verus! {

/// What to ask the signature service for on one poll: fetch signatures
/// newer than `until` (all history when unset), at most `limit` of them
/// (unbounded when unset).
pub struct FetchPlan {
    pub until: Option<TxSignature>,
    pub limit: Option<u64>,
}

/// The poller's only state: the newest transaction signature already
/// processed, unset before the first poll. The cursor only ever advances
/// forward, so events are delivered at least once and in chronological
/// order within the process's lifetime.
pub struct EventPollerState {
    pub cursor: Option<TxSignature>,
}

impl EventPollerState {
    /// The cursor's bytes, if one is set.
    pub open spec fn spec_cursor(&self) -> Option<Seq<u8>> {
        match self.cursor {
            Some(s) => Some(s@),
            None => None,
        }
    }

    /// A poller that has processed nothing yet.
    pub fn new() -> (r: EventPollerState)
        ensures
            r.spec_cursor() is None,
    {
        EventPollerState { cursor: None }
    }

    /// The fetch for the next poll. With no cursor, only the single most
    /// recent signature is fetched, establishing a starting point without
    /// backfilling history; with a cursor, everything newer than it.
    pub fn fetch_plan(&self) -> (r: FetchPlan)
        ensures
            self.spec_cursor() is None ==> r.until is None && r.limit == Some(1u64),
            self.spec_cursor() matches Some(c) ==> (r.until matches Some(u) && u@ == c && r.limit
                is None),
    {
        match &self.cursor {
            None => FetchPlan { until: None, limit: Some(1) },
            Some(s) => FetchPlan { until: Some(s.duplicate()), limit: None },
        }
    }

    /// Accepts one fetched batch of signatures, newest first, and returns
    /// them in processing order, oldest first. The cursor advances to the
    /// newest signature of the batch and is unchanged by an empty batch.
    pub fn plan_batch(&mut self, sigs: Vec<TxSignature>) -> (r: Vec<TxSignature>)
        ensures
            r@.len() == sigs@.len(),
            forall|i: int| 0 <= i < sigs@.len() ==> r@[i] == sigs@[sigs@.len() - 1 - i],
            sigs@.len() > 0 ==> final(self).spec_cursor() == Some(sigs@[0]@),
            sigs@.len() == 0 ==> final(self).spec_cursor() == old(self).spec_cursor(),
    {
        if sigs.len() > 0 {
            self.cursor = Some(sigs[0].duplicate());
        }
        let ghost all = sigs@;
        let mut rest = sigs;
        let mut out: Vec<TxSignature> = Vec::new();
        while rest.len() > 0
            invariant
                out@.len() + rest@.len() == all.len(),
                rest@ == all.subrange(0, rest@.len() as int),
                forall|i: int| 0 <= i < out@.len() ==> out@[i] == all[all.len() - 1 - i],
            decreases rest@.len(),
        {
            let ghost pre = rest@;
            match rest.pop() {
                Some(s) => {
                    proof {
                        assert(s == all[pre.len() - 1]);
                        assert(rest@ =~= all.subrange(0, rest@.len() as int));
                    }
                    out.push(s);
                },
                None => {},
            }
        }
        out
    }
}

} // verus!
