//! What holds of every state record, whatever operations it has gone through.

use crate::address::unset_address;
use crate::state::oracle_state::{byte_len, next_count};
use crate::state::{OracleStateView, MAX_PROMPT_BYTES, MAX_RESPONSE_BYTES};
use vstd::prelude::*;

verus! {

/// The counter after `dispatches` more dispatches.
pub open spec fn count_after(requests: u64, dispatches: nat) -> u64
    decreases dispatches,
{
    if dispatches == 0 {
        requests
    } else {
        next_count(count_after(requests, (dispatches - 1) as nat))
    }
}

/// Each dispatch counts one up, until the counter is at the largest `u64`; there it stays,
/// and never goes back to zero.
pub proof fn lemma_counter_saturates(requests: u64, dispatches: nat)
    ensures
        count_after(requests, dispatches) == if requests + dispatches <= u64::MAX {
            requests + dispatches
        } else {
            u64::MAX as int
        },
        count_after(requests, dispatches) >= requests,
    decreases dispatches,
{
    if dispatches > 0 {
        lemma_counter_saturates(requests, (dispatches - 1) as nat);
    }
}

/// A fresh record is within its bounds if its prompt is, and holds no context, no response
/// and a counter of zero.
pub proof fn lemma_fresh_record(
    owner_bump: u8,
    treasury_bump: u8,
    default_prompt: Seq<char>,
    scheduler_authority: Seq<u8>,
)
    requires
        byte_len(default_prompt) <= MAX_PROMPT_BYTES,
    ensures
        ({
            let fresh = OracleStateView::initial(
                owner_bump,
                treasury_bump,
                default_prompt,
                scheduler_authority,
            );
            &&& fresh.well_formed()
            &&& !fresh.context_set()
            &&& fresh.requests == 0
            &&& fresh.last_response.len() == 0
        }),
{
}

/// No step lets a text grow beyond its bound.
pub proof fn lemma_bounds_are_kept(before: OracleStateView, after: OracleStateView)
    requires
        before.evolves_to(after),
        before.well_formed(),
    ensures
        after.well_formed(),
{
}

/// The counter never goes down. It goes up only by a dispatch, by one, and only where a
/// context is registered.
pub proof fn lemma_counter_only_grows(before: OracleStateView, after: OracleStateView)
    requires
        before.evolves_to(after),
    ensures
        after.requests >= before.requests,
        after.requests != before.requests ==> {
            &&& after.requests == before.requests + 1
            &&& after == before.dispatched()
            &&& before.context_set()
        },
{
}

/// The scheduler authority and the two bumps are fixed at initialization: no step changes
/// them.
pub proof fn lemma_authority_is_fixed(before: OracleStateView, after: OracleStateView)
    requires
        before.evolves_to(after),
    ensures
        after.scheduler_authority == before.scheduler_authority,
        after.owner_bump == before.owner_bump,
        after.treasury_bump == before.treasury_bump,
{
}

/// The context and the prompt change only by a registration, which sets both.
pub proof fn lemma_prompt_follows_context(before: OracleStateView, after: OracleStateView)
    requires
        before.evolves_to(after),
    ensures
        after.context_ref != before.context_ref || after.default_prompt != before.default_prompt
            ==> after == before.registered(after.context_ref, after.default_prompt),
{
}

/// The last response changes only by a callback, which replaces it whole.
pub proof fn lemma_response_is_replaced(before: OracleStateView, after: OracleStateView)
    requires
        before.evolves_to(after),
    ensures
        after.last_response != before.last_response ==> after == before.answered(
            after.last_response,
        ),
{
}

/// Registering replaces what was registered before, whole: the earlier handle and prompt
/// leave no trace, and registering the same twice is as good as once.
pub proof fn lemma_registration_replaces(
    record: OracleStateView,
    handle: Seq<u8>,
    prompt: Seq<char>,
    next_handle: Seq<u8>,
    next_prompt: Seq<char>,
)
    ensures
        record.registered(handle, prompt).registered(next_handle, next_prompt)
            == record.registered(next_handle, next_prompt),
        record.registered(handle, prompt).registered(handle, prompt) == record.registered(
            handle,
            prompt,
        ),
{
}

/// Only the latest response is kept: of two responses in a row, the record holds the second,
/// whatever the first was.
pub proof fn lemma_last_response_wins(
    record: OracleStateView,
    first: Seq<char>,
    second: Seq<char>,
)
    ensures
        record.answered(first).answered(second) == record.answered(second),
{
}

/// The first request of a deployment, from initialization to the oracle's response: the
/// record ends with one request counted, the registered context and its prompt, and the
/// response; it is within its bounds all the way.
pub proof fn lemma_first_request(
    owner_bump: u8,
    treasury_bump: u8,
    default_prompt: Seq<char>,
    scheduler_authority: Seq<u8>,
    handle: Seq<u8>,
    agent_description: Seq<char>,
    response: Seq<char>,
)
    requires
        byte_len(default_prompt) <= MAX_PROMPT_BYTES,
        byte_len(agent_description) <= MAX_PROMPT_BYTES,
        byte_len(response) <= MAX_RESPONSE_BYTES,
        handle != unset_address(),
    ensures
        ({
            let fresh = OracleStateView::initial(
                owner_bump,
                treasury_bump,
                default_prompt,
                scheduler_authority,
            );
            let registered = fresh.registered(handle, agent_description);
            let dispatched = registered.dispatched();
            let answered = dispatched.answered(response);
            &&& is_history(seq![fresh, registered, dispatched, answered])
            &&& !fresh.context_set() && registered.context_set()
            &&& fresh.well_formed() && registered.well_formed() && dispatched.well_formed()
                && answered.well_formed()
            &&& answered == OracleStateView {
                owner_bump,
                treasury_bump,
                requests: 1,
                context_ref: handle,
                default_prompt: agent_description,
                last_response: response,
                scheduler_authority,
            }
        }),
{
}

/// A history of a record: each entry is one step on from the entry before it.
pub open spec fn is_history(records: Seq<OracleStateView>) -> bool {
    forall|i: int| 0 <= i < records.len() - 1 ==> (#[trigger] records[i]).evolves_to(records[i + 1])
}

/// Over any stretch of a history the texts stay within their bounds, the scheduler authority
/// and the bumps stay what they were, and the counter does not go down, nor up by more than
/// the number of steps.
pub proof fn lemma_history_keeps_invariants(records: Seq<OracleStateView>, from: int, to: int)
    requires
        is_history(records),
        0 <= from <= to < records.len(),
    ensures
        records[from].well_formed() ==> records[to].well_formed(),
        records[to].scheduler_authority == records[from].scheduler_authority,
        records[to].owner_bump == records[from].owner_bump,
        records[to].treasury_bump == records[from].treasury_bump,
        records[from].requests <= records[to].requests <= records[from].requests + (to - from),
    decreases to - from,
{
    if from < to {
        lemma_history_keeps_invariants(records, from, to - 1);
        assert(records[to - 1].evolves_to(records[to - 1 + 1]));
    }
}

} // verus!
