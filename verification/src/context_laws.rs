//! What holds of all the scaling contexts of a program together.

use crate::swscale::{
    context_at, state_of, CachedContextCall, ContextCall, ContextState, ScalerApi, SwsContext,
};
use vstd::multiset::Multiset;
use vstd::prelude::*;

verus! {

/// The contexts that libswscale ever gave out, by their addresses.
#[verifier::ext_equal]
pub struct ContextLedger {
    /// Those that it allocated.
    pub allocated: Multiset<usize>,
    /// Those that an `SwsContext` stands for.
    pub live: Multiset<usize>,
    /// Those that were freed, by `sws_freeContext` or by libswscale itself.
    pub freed: Multiset<usize>,
}

/// What happens to contexts.
pub enum ContextStep {
    /// `sws_getContext` or `sws_alloc_context` returned this address.
    Obtain { returned: usize, api: ScalerApi },
    /// A context was handed to `sws_getCachedContext`, which returned this address.
    Replace { context: ContextState, call: CachedContextCall, returned: usize },
    /// The `SwsContext` let go of its address, which went to `sws_freeContext`.
    Free { context: ContextState },
}

impl ContextLedger {
    /// Before the first context.
    pub open spec fn empty() -> ContextLedger {
        ContextLedger {
            allocated: Multiset::empty(),
            live: Multiset::empty(),
            freed: Multiset::empty(),
        }
    }

    /// A reply stands for a context that was just allocated, or for none.
    pub open spec fn obtained(self, reply: Option<ContextState>) -> ContextLedger {
        match reply {
            None => self,
            Some(context) => ContextLedger {
                allocated: self.allocated.insert(context.address),
                live: self.live.insert(context.address),
                ..self
            },
        }
    }

    /// A context is freed, and nothing stands for it any more.
    pub open spec fn released(self, context: usize) -> ContextLedger {
        ContextLedger {
            live: self.live.remove(context),
            freed: self.freed.insert(context),
            ..self
        }
    }

    /// The ledger after a step.
    pub open spec fn after(self, step: ContextStep) -> ContextLedger {
        match step {
            ContextStep::Obtain { returned, api } => self.obtained(context_at(returned, api)),
            ContextStep::Replace { context, call, returned } => if returned == call.context {
                self
            } else {
                self.released(call.context).obtained(context_at(returned, ScalerApi::Legacy))
            },
            ContextStep::Free { context } => self.released(context.address),
        }
    }

    /// A step takes a context that an `SwsContext` stands for.
    pub open spec fn allows(self, step: ContextStep) -> bool {
        match step {
            ContextStep::Obtain { returned, api } => true,
            ContextStep::Replace { context, call, returned } => call.context == context.address
                && self.live.count(context.address) > 0,
            ContextStep::Free { context } => self.live.count(context.address) > 0,
        }
    }

    /// libswscale does not allocate a context where another one is live.
    pub open spec fn placed_clear(self, step: ContextStep) -> bool {
        match step {
            ContextStep::Obtain { returned, api } => self.live.count(returned) == 0,
            ContextStep::Replace { context, call, returned } => returned == call.context
                || self.live.count(returned) == 0,
            ContextStep::Free { context } => true,
        }
    }

    /// Every context that was allocated is live or was freed, and not both, and none
    /// was freed twice.
    pub open spec fn balanced(self) -> bool {
        self.allocated == self.live.add(self.freed)
    }

    /// No two `SwsContext` stand for one address.
    pub open spec fn distinct(self) -> bool {
        forall|address: usize| #[trigger] self.live.count(address) <= 1
    }
}

/// The ledger after these steps, from the first context on.
pub open spec fn ledger_after(steps: Seq<ContextStep>) -> ContextLedger
    decreases steps.len(),
{
    if steps.len() == 0 {
        ContextLedger::empty()
    } else {
        ledger_after(steps.drop_last()).after(steps.last())
    }
}

/// Every step takes a live context.
pub open spec fn is_run(steps: Seq<ContextStep>) -> bool
    decreases steps.len(),
{
    steps.len() == 0 || (is_run(steps.drop_last()) && ledger_after(steps.drop_last()).allows(
        steps.last(),
    ))
}

/// No step allocates a context where another one is live.
pub open spec fn is_placed_clear(steps: Seq<ContextStep>) -> bool
    decreases steps.len(),
{
    steps.len() == 0 || (is_placed_clear(steps.drop_last()) && ledger_after(
        steps.drop_last(),
    ).placed_clear(steps.last()))
}

/// A context that `ContextCall::complete` or `SwsContext::alloc_context` makes of a
/// reply is booked as one that was obtained, and nothing is booked if there is none.
pub proof fn law_obtained_context_is_booked(
    ledger: ContextLedger,
    call: ContextCall,
    returned: usize,
    api: ScalerApi,
    context: Option<SwsContext>,
)
    requires
        match api {
            ScalerApi::Legacy => call_ensures(ContextCall::complete, (call, returned), context),
            ScalerApi::Modern => call_ensures(SwsContext::alloc_context, (returned,), context),
        },
    ensures
        ledger.after(ContextStep::Obtain { returned, api }) == ledger.obtained(state_of(context)),
{
}

/// A context that `CachedContextCall::complete` makes of a reply is the one that was
/// handed over, and then nothing is booked; or that one is booked as freed, and the
/// other, if there is one, as obtained.
pub proof fn law_replaced_context_is_booked(
    ledger: ContextLedger,
    old_context: ContextState,
    call: CachedContextCall,
    returned: usize,
    new_context: Option<SwsContext>,
)
    requires
        call.context == old_context.address,
        call.context != 0,
        call_ensures(CachedContextCall::complete, (call, returned), new_context),
    ensures
        ledger.after(ContextStep::Replace { context: old_context, call, returned }) == if (
        new_context matches Some(context) && context@.address == old_context.address) {
            ledger
        } else {
            ledger.released(old_context.address).obtained(state_of(new_context))
        },
{
}

/// The address that `SwsContext::into_raw` gives is the one that is booked as freed.
pub proof fn law_freed_context_is_booked(
    ledger: ContextLedger,
    context: SwsContext,
    address: usize,
)
    requires
        call_ensures(SwsContext::into_raw, (context,), address),
    ensures
        ledger.after(ContextStep::Free { context: context@ }) == ledger.released(address),
{
}

/// Over a whole run, each context is live or was freed exactly once; so when none is
/// live any more, each was freed exactly once.
pub proof fn law_every_context_is_freed_once(steps: Seq<ContextStep>)
    requires
        is_run(steps),
    ensures
        ledger_after(steps).balanced(),
        ledger_after(steps).live == Multiset::<usize>::empty() ==> ledger_after(steps).freed
            == ledger_after(steps).allocated,
    decreases steps.len(),
{
    broadcast use vstd::multiset::group_multiset_axioms;

    if steps.len() > 0 {
        law_every_context_is_freed_once(steps.drop_last());
        let before = ledger_after(steps.drop_last());
        let after = ledger_after(steps);
        assert(after == before.after(steps.last()));
        assert(after.allocated =~= after.live.add(after.freed));
    } else {
        assert(ledger_after(steps).allocated =~= ledger_after(steps).live.add(
            ledger_after(steps).freed,
        ));
    }
    if ledger_after(steps).live == Multiset::<usize>::empty() {
        assert(ledger_after(steps).freed =~= ledger_after(steps).allocated);
    }
}

/// Every request for a context gives one of its own: at no time do two `SwsContext`
/// stand for one address, provided libswscale does not allocate a context where
/// another one is live.
pub proof fn law_live_contexts_are_distinct(steps: Seq<ContextStep>)
    requires
        is_run(steps),
        is_placed_clear(steps),
    ensures
        ledger_after(steps).distinct(),
    decreases steps.len(),
{
    broadcast use vstd::multiset::group_multiset_axioms;

    if steps.len() > 0 {
        law_live_contexts_are_distinct(steps.drop_last());
        let before = ledger_after(steps.drop_last());
        let after = ledger_after(steps);
        assert forall|address: usize| #[trigger] after.live.count(address) <= 1 by {
            assert(before.live.count(address) <= 1);
        }
    }
}

} // verus!
