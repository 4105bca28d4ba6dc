//! Initialization: the state record of a new deployment.

use crate::address::Address;
use crate::error::SolanaGptOracleError;
use crate::state::oracle_state::{byte_len, fits};
use crate::state::{OracleState, OracleStateView, MAX_PROMPT_BYTES};
use vstd::prelude::*;

verus! {

/// Bumps of the two addresses that initialization derives.
#[derive(Clone, Copy, Debug, PartialEq, Eq)]
pub struct InitializeBumps {
    pub oracle_state: u8,
    pub treasury: u8,
}

/// What initialization works on.
#[derive(Clone, Debug, PartialEq, Eq)]
pub struct Initialize {
    /// The record to fill in.
    pub oracle_state: OracleState,
}

impl Initialize {
    /// What initialization comes to. A prompt of at most 280 bytes is accepted, and the
    /// record is then that of a fresh deployment. A longer one is refused, and the record
    /// is then left as it was.
    pub open spec fn outcome(
        before: Initialize,
        after: Initialize,
        default_prompt: Seq<char>,
        scheduler_authority: Seq<u8>,
        bumps: InitializeBumps,
        done: Result<(), SolanaGptOracleError>,
    ) -> bool {
        match done {
            Ok(()) => {
                &&& byte_len(default_prompt) <= MAX_PROMPT_BYTES
                &&& after.oracle_state@ == OracleStateView::initial(
                    bumps.oracle_state,
                    bumps.treasury,
                    default_prompt,
                    scheduler_authority,
                )
            },
            Err(e) => {
                &&& byte_len(default_prompt) > MAX_PROMPT_BYTES
                &&& e == SolanaGptOracleError::PromptTooLong
                &&& after == before
            },
        }
    }

    /// Fills in the state record of a fresh deployment, see [`Initialize::outcome`].
    pub fn initialize(
        &mut self,
        default_prompt: String,
        scheduler_authority: Address,
        bumps: &InitializeBumps,
    ) -> (done: Result<(), SolanaGptOracleError>)
        ensures
            Initialize::outcome(
                *old(self),
                *final(self),
                default_prompt@,
                scheduler_authority@,
                *bumps,
                done,
            ),
            done is Ok ==> final(self).oracle_state.well_formed(),
    {
        if !fits(&default_prompt, MAX_PROMPT_BYTES) {
            return Err(SolanaGptOracleError::PromptTooLong);
        }
        self.oracle_state.owner_bump = bumps.oracle_state;
        self.oracle_state.treasury_bump = bumps.treasury;
        self.oracle_state.requests = 0;
        self.oracle_state.context_ref = Address::unset();
        self.oracle_state.scheduler_authority = scheduler_authority;
        self.oracle_state.default_prompt = default_prompt;
        self.oracle_state.last_response = String::new();
        Ok(())
    }
}

} // verus!
