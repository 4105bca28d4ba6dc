//! The context registrar: registers the agent's conversation context with the oracle.

use crate::address::{unset_address, Address};
use crate::error::SolanaGptOracleError;
use crate::state::oracle_state::{byte_len, fits};
use crate::state::{OracleState, MAX_PROMPT_BYTES};
use vstd::prelude::*;

verus! {

/// What the context registrar works on.
#[derive(Clone, Debug, PartialEq, Eq)]
pub struct CreateContext {
    /// Who pays for the new context.
    pub payer: Address,
    /// The state record.
    pub oracle_state: OracleState,
    /// The oracle's counter of contexts.
    pub oracle_counter: Address,
    /// The address at which the oracle creates the context: the new context's handle.
    pub llm_context: Address,
    pub system_program: Address,
    pub oracle_program: Address,
}

/// A request to the oracle to create a context.
#[derive(Clone, Debug, PartialEq, Eq)]
pub struct CreateLlmContext {
    /// The program to call.
    pub oracle_program: Address,
    pub payer: Address,
    pub context_account: Address,
    pub counter: Address,
    pub system_program: Address,
    /// The description of the agent.
    pub text: String,
}

/// What a [`CreateLlmContext`] holds, as mathematical values.
pub struct CreateLlmContextView {
    pub oracle_program: Seq<u8>,
    pub payer: Seq<u8>,
    pub context_account: Seq<u8>,
    pub counter: Seq<u8>,
    pub system_program: Seq<u8>,
    pub text: Seq<char>,
}

impl View for CreateLlmContext {
    type V = CreateLlmContextView;

    open spec fn view(&self) -> CreateLlmContextView {
        CreateLlmContextView {
            oracle_program: self.oracle_program@,
            payer: self.payer@,
            context_account: self.context_account@,
            counter: self.counter@,
            system_program: self.system_program@,
            text: self.text@,
        }
    }
}

impl CreateContext {
    /// The request that registers a context described by `agent_description`.
    pub open spec fn registration(&self, agent_description: Seq<char>) -> CreateLlmContextView {
        CreateLlmContextView {
            oracle_program: self.oracle_program@,
            payer: self.payer@,
            context_account: self.llm_context@,
            counter: self.oracle_counter@,
            system_program: self.system_program@,
            text: agent_description,
        }
    }

    /// What a registration comes to. A description of at most 280 bytes is accepted: the
    /// request to the oracle is returned, the record takes the new context's handle and
    /// the description as its prompt, and nothing else changes. A longer one is refused,
    /// and the accounts are then left as they were.
    pub open spec fn outcome(
        before: CreateContext,
        after: CreateContext,
        agent_description: Seq<char>,
        sent: Result<CreateLlmContext, SolanaGptOracleError>,
    ) -> bool {
        match sent {
            Ok(request) => {
                &&& byte_len(agent_description) <= MAX_PROMPT_BYTES
                &&& request@ == before.registration(agent_description)
                &&& after.oracle_state@ == before.oracle_state@.registered(
                    before.llm_context@,
                    agent_description,
                )
                &&& after == (CreateContext { oracle_state: after.oracle_state, ..before })
            },
            Err(e) => {
                &&& byte_len(agent_description) > MAX_PROMPT_BYTES
                &&& e == SolanaGptOracleError::PromptTooLong
                &&& after == before
            },
        }
    }

    /// Registers a context: returns the request to send to the oracle, and records the new
    /// context's handle and `agent_description` as the prompt of the dispatches to come.
    /// Registering again replaces both. See [`CreateContext::outcome`]. The record then
    /// holds a context, unless the handle is the unset address itself. The host hands the
    /// request to the oracle in the same transaction, and stores the record only if the
    /// oracle took it.
    pub fn create_context(&mut self, agent_description: String) -> (sent: Result<
        CreateLlmContext,
        SolanaGptOracleError,
    >)
        ensures
            CreateContext::outcome(*old(self), *final(self), agent_description@, sent),
            sent is Ok && old(self).llm_context@ != unset_address()
                ==> final(self).oracle_state@.context_set(),
            old(self).oracle_state@.evolves_to(final(self).oracle_state@),
    {
        if !fits(&agent_description, MAX_PROMPT_BYTES) {
            return Err(SolanaGptOracleError::PromptTooLong);
        }
        let request = CreateLlmContext {
            oracle_program: self.oracle_program,
            payer: self.payer,
            context_account: self.llm_context,
            counter: self.oracle_counter,
            system_program: self.system_program,
            text: agent_description.clone(),
        };
        self.oracle_state.context_ref = self.llm_context;
        self.oracle_state.default_prompt = agent_description;
        Ok(request)
    }
}

} // verus!
