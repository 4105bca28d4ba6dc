//! The callback handler: the oracle hands in the response to a request.

use crate::address::{
    derived_view, lemma_bytes_deep_view, program_address, try_find_program_address, Address,
    ORACLE_PROGRAM_ID,
};
use crate::error::SolanaGptOracleError;
use crate::state::oracle_state::{byte_len, fits};
use crate::state::{OracleState, MAX_RESPONSE_BYTES};
use vstd::prelude::*;
use vstd::slice::slice_to_vec;

verus! {

/// The seed of the oracle's signing identity: the bytes of `identity`.
pub const IDENTITY_SEED: [u8; 8] = [105, 100, 101, 110, 116, 105, 116, 121];

/// What the callback handler works on.
#[derive(Clone, Debug, PartialEq, Eq)]
pub struct ProcessOracleCallback {
    /// The identity that signed the callback.
    pub identity: Address,
    /// The state record.
    pub oracle_state: OracleState,
    /// The program that claims to be the oracle.
    pub oracle_program: Address,
}

/// The seeds from which the oracle program derives its signing identity.
pub open spec fn identity_seeds() -> Seq<Seq<u8>> {
    seq![IDENTITY_SEED@]
}

/// The signing identity of the oracle: the address that the oracle program derives from
/// [`identity_seeds`], if there is one.
pub open spec fn oracle_identity() -> Option<(Seq<u8>, u8)> {
    program_address(identity_seeds(), ORACLE_PROGRAM_ID@)
}

impl ProcessOracleCallback {
    /// The callback comes from the oracle: the program is the oracle program, and the
    /// signer is `derived`, the identity derived for that program.
    pub open spec fn authorized_by(&self, derived: Option<(Seq<u8>, u8)>) -> bool {
        &&& self.oracle_program@ == ORACLE_PROGRAM_ID@
        &&& derived matches Some((identity, _))
        &&& self.identity@ == identity
    }

    /// What a callback comes to, where `derived` is the oracle's signing identity. A caller
    /// that is not the oracle is refused first, then a response of more than 512 bytes; the
    /// accounts are then left as they were. Otherwise the response takes the place of the
    /// last one, and nothing else changes.
    pub open spec fn outcome(
        before: ProcessOracleCallback,
        after: ProcessOracleCallback,
        response: Seq<char>,
        derived: Option<(Seq<u8>, u8)>,
        done: Result<(), SolanaGptOracleError>,
    ) -> bool {
        match done {
            Ok(()) => {
                &&& before.authorized_by(derived)
                &&& byte_len(response) <= MAX_RESPONSE_BYTES
                &&& after.oracle_state@ == before.oracle_state@.answered(response)
                &&& after == (ProcessOracleCallback { oracle_state: after.oracle_state, ..before })
            },
            Err(e) => {
                &&& after == before
                &&& if !before.authorized_by(derived) {
                    e == SolanaGptOracleError::Unauthorized
                } else {
                    e == SolanaGptOracleError::ResponseTooLong && byte_len(response)
                        > MAX_RESPONSE_BYTES
                }
            },
        }
    }

    /// Stores `response` as the last response, given the signing identity `derived` that
    /// was derived for the oracle program, see [`ProcessOracleCallback::outcome`].
    pub fn record_response(
        &mut self,
        response: String,
        derived: Option<(Address, u8)>,
    ) -> (done: Result<(), SolanaGptOracleError>)
        ensures
            ProcessOracleCallback::outcome(
                *old(self),
                *final(self),
                response@,
                derived_view(derived),
                done,
            ),
            old(self).oracle_state@.evolves_to(final(self).oracle_state@),
    {
        if !self.oracle_program.same_as(&Address::oracle_program()) {
            return Err(SolanaGptOracleError::Unauthorized);
        }
        match derived {
            Some((identity, _)) => {
                if !self.identity.same_as(&identity) {
                    return Err(SolanaGptOracleError::Unauthorized);
                }
            },
            None => {
                return Err(SolanaGptOracleError::Unauthorized);
            },
        }
        if !fits(&response, MAX_RESPONSE_BYTES) {
            return Err(SolanaGptOracleError::ResponseTooLong);
        }
        self.oracle_state.last_response = response;
        Ok(())
    }

    /// Stores `response` as the last response. Only the oracle may call: the signer has to
    /// be the identity that the oracle program derives for itself, [`oracle_identity`]. See
    /// [`ProcessOracleCallback::outcome`].
    pub fn process_oracle_callback(&mut self, response: String) -> (done: Result<
        (),
        SolanaGptOracleError,
    >)
        ensures
            ProcessOracleCallback::outcome(
                *old(self),
                *final(self),
                response@,
                oracle_identity(),
                done,
            ),
            old(self).oracle_state@.evolves_to(final(self).oracle_state@),
    {
        let seed = slice_to_vec(IDENTITY_SEED.as_slice());
        proof {
            lemma_bytes_deep_view(seed);
        }
        let mut seeds: Vec<Vec<u8>> = Vec::new();
        seeds.push(seed);
        assert(seeds.deep_view() =~= identity_seeds());
        let derived = try_find_program_address(&seeds, &Address::oracle_program());
        self.record_response(response, derived)
    }
}

} // verus!
