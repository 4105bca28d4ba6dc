//! The request dispatcher: the scheduler triggers it, and it asks the oracle.

use crate::address::{signer_of, signer_seeds, Address, PROGRAM_ID};
use crate::error::SolanaGptOracleError;
use crate::state::OracleState;
use crate::transaction::{AccountMeta, AccountMetaView};
use vstd::prelude::*;

verus! {

/// The seed of the treasury's address: the bytes of `treasury`.
pub const TREASURY_SEED: [u8; 8] = [116, 114, 101, 97, 115, 117, 114, 121];

/// What selects the callback handler among this program's operations: the first eight bytes
/// of the SHA-256 digest of `global:process_oracle_callback`.
pub const CALLBACK_DISCRIMINATOR: [u8; 8] = [21, 243, 66, 82, 61, 125, 90, 204];

/// What the request dispatcher works on.
#[derive(Clone, Debug, PartialEq, Eq)]
pub struct RequestGpt {
    /// The state record.
    pub oracle_state: OracleState,
    /// The address of the state record.
    pub oracle_state_key: Address,
    /// The treasury, which pays the oracle's fee.
    pub treasury: Address,
    /// The record that the oracle keeps of the request.
    pub interaction: Address,
    /// The identity that signed the invocation.
    pub task_queue_authority: Address,
    pub system_program: Address,
    pub oracle_program: Address,
}

/// A request to the oracle: the prompt, who pays, and where the response is to be sent.
#[derive(Clone, Debug, PartialEq, Eq)]
pub struct InteractWithLlm {
    /// The program to call.
    pub oracle_program: Address,
    /// Who pays the fee.
    pub payer: Address,
    pub interaction: Address,
    pub context_account: Address,
    pub system_program: Address,
    /// For each derived address that signs, the seeds it is derived from.
    pub signer_seeds: Vec<Vec<Vec<u8>>>,
    /// The prompt.
    pub text: String,
    /// The program that takes the response.
    pub callback_program_id: Address,
    /// The operation of that program that takes the response.
    pub callback_discriminator: [u8; 8],
    /// The accounts that this operation is given, after the oracle's own identity.
    pub account_metas: Option<Vec<AccountMeta>>,
}

/// What an [`InteractWithLlm`] holds, as mathematical values.
pub struct InteractWithLlmView {
    pub oracle_program: Seq<u8>,
    pub payer: Seq<u8>,
    pub interaction: Seq<u8>,
    pub context_account: Seq<u8>,
    pub system_program: Seq<u8>,
    pub signer_seeds: Seq<Seq<Seq<u8>>>,
    pub text: Seq<char>,
    pub callback_program_id: Seq<u8>,
    pub callback_discriminator: Seq<u8>,
    pub account_metas: Option<Seq<AccountMetaView>>,
}

impl View for InteractWithLlm {
    type V = InteractWithLlmView;

    open spec fn view(&self) -> InteractWithLlmView {
        InteractWithLlmView {
            oracle_program: self.oracle_program@,
            payer: self.payer@,
            interaction: self.interaction@,
            context_account: self.context_account@,
            system_program: self.system_program@,
            signer_seeds: self.signer_seeds.deep_view(),
            text: self.text@,
            callback_program_id: self.callback_program_id@,
            callback_discriminator: self.callback_discriminator@,
            account_metas: match self.account_metas {
                Some(metas) => Some(metas.deep_view()),
                None => None,
            },
        }
    }
}

impl RequestGpt {
    /// The caller is the identity that may trigger a dispatch.
    pub open spec fn authorized(&self) -> bool {
        self.task_queue_authority@ == self.oracle_state@.scheduler_authority
    }

    /// The request that a dispatch sends: the default prompt in the registered context,
    /// paid for by the treasury, with the response to come back to this program's callback
    /// handler, which is given the state record to write to.
    pub open spec fn interaction_request(&self) -> InteractWithLlmView {
        InteractWithLlmView {
            oracle_program: self.oracle_program@,
            payer: self.treasury@,
            interaction: self.interaction@,
            context_account: self.oracle_state@.context_ref,
            system_program: self.system_program@,
            signer_seeds: signer_of(TREASURY_SEED@, self.oracle_state.treasury_bump),
            text: self.oracle_state@.default_prompt,
            callback_program_id: PROGRAM_ID@,
            callback_discriminator: CALLBACK_DISCRIMINATOR@,
            account_metas: Some(
                seq![
                    AccountMetaView {
                        pubkey: self.oracle_state_key@,
                        is_signer: false,
                        is_writable: true,
                    },
                ],
            ),
        }
    }

    /// What a dispatch comes to. A caller other than the scheduler authority is refused
    /// first, then a dispatch before any context is registered; the accounts are then left
    /// as they were. Otherwise the request to the oracle is returned and counted, and
    /// nothing else changes.
    pub open spec fn outcome(
        before: RequestGpt,
        after: RequestGpt,
        sent: Result<InteractWithLlm, SolanaGptOracleError>,
    ) -> bool {
        match sent {
            Ok(request) => {
                &&& before.authorized()
                &&& before.oracle_state@.context_set()
                &&& request@ == before.interaction_request()
                &&& after.oracle_state@ == before.oracle_state@.dispatched()
                &&& after == (RequestGpt { oracle_state: after.oracle_state, ..before })
            },
            Err(e) => {
                &&& after == before
                &&& if !before.authorized() {
                    e == SolanaGptOracleError::Unauthorized
                } else {
                    e == SolanaGptOracleError::ContextNotInitialized
                        && !before.oracle_state@.context_set()
                }
            },
        }
    }

    /// Dispatches one request: returns the request to send to the oracle, and counts it.
    /// The counter stops at the largest `u64`. See [`RequestGpt::outcome`]. The host hands
    /// the request to the oracle in the same transaction, and stores the record only if the
    /// oracle took it.
    pub fn request_gpt(&mut self) -> (sent: Result<InteractWithLlm, SolanaGptOracleError>)
        ensures
            RequestGpt::outcome(*old(self), *final(self), sent),
            old(self).oracle_state@.evolves_to(final(self).oracle_state@),
    {
        if !self.task_queue_authority.same_as(&self.oracle_state.scheduler_authority) {
            return Err(SolanaGptOracleError::Unauthorized);
        }
        if !self.oracle_state.context_set() {
            return Err(SolanaGptOracleError::ContextNotInitialized);
        }
        let mut callback_accounts: Vec<AccountMeta> = Vec::new();
        callback_accounts.push(
            AccountMeta { pubkey: self.oracle_state_key, is_signer: false, is_writable: true },
        );
        assert(callback_accounts.deep_view() =~= seq![
            AccountMetaView {
                pubkey: self.oracle_state_key@,
                is_signer: false,
                is_writable: true,
            },
        ]);
        let request = InteractWithLlm {
            oracle_program: self.oracle_program,
            payer: self.treasury,
            interaction: self.interaction,
            context_account: self.oracle_state.context_ref,
            system_program: self.system_program,
            signer_seeds: signer_seeds(
                TREASURY_SEED.as_slice(),
                self.oracle_state.treasury_bump,
            ),
            text: self.oracle_state.default_prompt.clone(),
            callback_program_id: Address::program(),
            callback_discriminator: CALLBACK_DISCRIMINATOR,
            account_metas: Some(callback_accounts),
        };
        self.oracle_state.requests = self.oracle_state.requests.saturating_add(1);
        Ok(request)
    }
}

} // verus!
