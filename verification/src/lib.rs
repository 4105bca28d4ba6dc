//! Request lifecycle of an agent that asks an LLM oracle for answers on a schedule.
//!
//! A deployment keeps one state record and one treasury. A context is registered with the
//! oracle, the treasury is funded, a dispatch is scheduled with the task scheduler, the
//! scheduler triggers the dispatch, and the oracle calls back with the response. Each
//! operation works on the accounts it is given and changes them all at once or not at all;
//! what it asks of the oracle, the scheduler or the ledger it returns as a request, for the
//! host to carry out in the same transaction.

use vstd::prelude::*;

pub mod address;
pub mod error;
pub mod instructions;
pub mod laws;
pub mod state;
pub mod transaction;

pub use address::Address;
pub use error::SolanaGptOracleError;
pub use instructions::{
    CreateContext, CreateLlmContext, FundTreasury, Initialize, InitializeBumps, InteractWithLlm,
    ProcessOracleCallback, QueueTask, QueueTaskArgs, RequestGpt, Schedule, ScheduleBumps,
    Transfer, Trigger,
};
pub use state::OracleState;

use instructions::process_oracle_callback::oracle_identity;

verus! {

/// Fills in the state record of a fresh deployment, see [`Initialize::outcome`].
pub fn initialize(
    accounts: &mut Initialize,
    default_prompt: String,
    scheduler_authority: Address,
    bumps: &InitializeBumps,
) -> (done: Result<(), SolanaGptOracleError>)
    ensures
        Initialize::outcome(
            *old(accounts),
            *final(accounts),
            default_prompt@,
            scheduler_authority@,
            *bumps,
            done,
        ),
        done is Ok ==> final(accounts).oracle_state.well_formed(),
{
    accounts.initialize(default_prompt, scheduler_authority, bumps)
}

/// Registers a context with the oracle, see [`CreateContext::outcome`].
pub fn create_context(accounts: &mut CreateContext, agent_description: String) -> (sent: Result<
    CreateLlmContext,
    SolanaGptOracleError,
>)
    ensures
        CreateContext::outcome(*old(accounts), *final(accounts), agent_description@, sent),
        old(accounts).oracle_state@.evolves_to(final(accounts).oracle_state@),
{
    accounts.create_context(agent_description)
}

/// Funds the treasury, see [`FundTreasury::outcome`].
pub fn fund_treasury(accounts: &mut FundTreasury, lamports: u64) -> (sent: Result<
    Transfer,
    SolanaGptOracleError,
>)
    ensures
        FundTreasury::outcome(*old(accounts), *final(accounts), lamports, sent),
{
    accounts.fund_treasury(lamports)
}

/// Schedules one dispatch as task `task_id`, see [`Schedule::outcome`].
pub fn schedule(accounts: &mut Schedule, task_id: u16, bumps: ScheduleBumps) -> (sent: Result<
    QueueTask,
    SolanaGptOracleError,
>)
    ensures
        Schedule::outcome(*old(accounts), *final(accounts), task_id, bumps, sent),
{
    accounts.schedule(task_id, bumps)
}

/// Dispatches one request to the oracle, see [`RequestGpt::outcome`].
pub fn request_gpt(accounts: &mut RequestGpt) -> (sent: Result<
    InteractWithLlm,
    SolanaGptOracleError,
>)
    ensures
        RequestGpt::outcome(*old(accounts), *final(accounts), sent),
        old(accounts).oracle_state@.evolves_to(final(accounts).oracle_state@),
{
    accounts.request_gpt()
}

/// Takes the oracle's response, see [`ProcessOracleCallback::outcome`].
pub fn process_oracle_callback(accounts: &mut ProcessOracleCallback, response: String) -> (done:
    Result<(), SolanaGptOracleError>)
    ensures
        ProcessOracleCallback::outcome(
            *old(accounts),
            *final(accounts),
            response@,
            oracle_identity(),
            done,
        ),
        old(accounts).oracle_state@.evolves_to(final(accounts).oracle_state@),
{
    accounts.process_oracle_callback(response)
}

} // verus!
