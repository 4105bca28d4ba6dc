//! The state record: the one durable record of a deployment.

use crate::address::{unset_address, Address};
use vstd::prelude::*;
use vstd::string::StringSliceAdditionalSpecFns;
use vstd::utf8::encode_utf8;

verus! {

/// Most bytes that a prompt may take.
pub const MAX_PROMPT_BYTES: usize = 280;

/// Most bytes that an oracle response may take.
pub const MAX_RESPONSE_BYTES: usize = 512;

/// Number of bytes that a text takes once encoded as UTF-8.
pub open spec fn byte_len(text: Seq<char>) -> nat {
    encode_utf8(text).len()
}

/// The counter after one more dispatch: it stops at the largest `u64`.
pub open spec fn next_count(requests: u64) -> u64 {
    if requests == u64::MAX {
        requests
    } else {
        (requests + 1) as u64
    }
}

/// Whether `text` takes at most `limit` bytes.
pub fn fits(text: &String, limit: usize) -> (ok: bool)
    ensures
        ok == (byte_len(text@) <= limit),
{
    text.as_str().as_bytes().len() <= limit
}

/// The state record of a deployment.
#[derive(Clone, Debug, PartialEq, Eq)]
pub struct OracleState {
    /// Bump of the record's own derived address.
    pub owner_bump: u8,
    /// Bump of the treasury's derived address.
    pub treasury_bump: u8,
    /// Number of requests dispatched so far.
    pub requests: u64,
    /// Handle of the registered LLM context; the unset address until one is registered.
    pub context_ref: Address,
    /// Prompt sent with every dispatch.
    pub default_prompt: String,
    /// Most recent response of the oracle; empty until the first one arrives.
    pub last_response: String,
    /// Identity that may trigger a dispatch.
    pub scheduler_authority: Address,
}

/// What a state record holds, as mathematical values.
pub struct OracleStateView {
    pub owner_bump: u8,
    pub treasury_bump: u8,
    pub requests: u64,
    pub context_ref: Seq<u8>,
    pub default_prompt: Seq<char>,
    pub last_response: Seq<char>,
    pub scheduler_authority: Seq<u8>,
}

impl View for OracleState {
    type V = OracleStateView;

    open spec fn view(&self) -> OracleStateView {
        OracleStateView {
            owner_bump: self.owner_bump,
            treasury_bump: self.treasury_bump,
            requests: self.requests,
            context_ref: self.context_ref@,
            default_prompt: self.default_prompt@,
            last_response: self.last_response@,
            scheduler_authority: self.scheduler_authority@,
        }
    }
}

impl OracleStateView {
    /// The record of a fresh deployment: nothing dispatched, no context, no response.
    pub open spec fn initial(
        owner_bump: u8,
        treasury_bump: u8,
        default_prompt: Seq<char>,
        scheduler_authority: Seq<u8>,
    ) -> OracleStateView {
        OracleStateView {
            owner_bump,
            treasury_bump,
            requests: 0,
            context_ref: unset_address(),
            default_prompt,
            last_response: Seq::empty(),
            scheduler_authority,
        }
    }

    /// Both texts are within their bounds.
    pub open spec fn well_formed(self) -> bool {
        &&& byte_len(self.default_prompt) <= MAX_PROMPT_BYTES
        &&& byte_len(self.last_response) <= MAX_RESPONSE_BYTES
    }

    /// A context has been registered.
    pub open spec fn context_set(self) -> bool {
        self.context_ref != unset_address()
    }

    /// The record once a context with this handle and prompt is registered.
    pub open spec fn registered(self, handle: Seq<u8>, prompt: Seq<char>) -> OracleStateView {
        OracleStateView { context_ref: handle, default_prompt: prompt, ..self }
    }

    /// The record once one more request is dispatched.
    pub open spec fn dispatched(self) -> OracleStateView {
        OracleStateView { requests: next_count(self.requests), ..self }
    }

    /// The record once the oracle has answered with `response`.
    pub open spec fn answered(self, response: Seq<char>) -> OracleStateView {
        OracleStateView { last_response: response, ..self }
    }

    /// One step in the life of a record: nothing, or what one of the three operations that
    /// write to it does when it succeeds.
    pub open spec fn evolves_to(self, after: OracleStateView) -> bool {
        ||| after == self
        ||| {
            &&& after == self.registered(after.context_ref, after.default_prompt)
            &&& byte_len(after.default_prompt) <= MAX_PROMPT_BYTES
        }
        ||| {
            &&& after == self.dispatched()
            &&& self.context_set()
        }
        ||| {
            &&& after == self.answered(after.last_response)
            &&& byte_len(after.last_response) <= MAX_RESPONSE_BYTES
        }
    }
}

impl OracleState {
    /// Both texts are within their bounds.
    pub open spec fn well_formed(&self) -> bool {
        self@.well_formed()
    }

    /// Whether a context has been registered.
    pub fn context_set(&self) -> (set: bool)
        ensures
            set == self@.context_set(),
    {
        !self.context_ref.same_as(&Address::unset())
    }
}

} // verus!
