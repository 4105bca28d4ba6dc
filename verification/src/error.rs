//! Why an operation is refused.

use vstd::prelude::*;

verus! {

/// Why an operation is refused. A refused operation changes nothing.
#[derive(Clone, Copy, Debug, PartialEq, Eq, Structural)]
pub enum SolanaGptOracleError {
    /// A prompt takes more than 280 bytes.
    PromptTooLong,
    /// A response takes more than 512 bytes.
    ResponseTooLong,
    /// No context has been registered yet.
    ContextNotInitialized,
    /// The deferred call could not be brought into the scheduler's form.
    TaskCompilationFailed,
    /// A funding of nothing.
    InvalidFundingAmount,
    /// The caller is not the identity that the operation is reserved for.
    Unauthorized,
}

impl SolanaGptOracleError {
    /// The message of each error.
    pub open spec fn spec_message(self) -> Seq<char> {
        match self {
            SolanaGptOracleError::PromptTooLong => "Prompt exceeds maximum size"@,
            SolanaGptOracleError::ResponseTooLong => "Response exceeds maximum size"@,
            SolanaGptOracleError::ContextNotInitialized => {
                "Oracle context has not been initialized"@
            },
            SolanaGptOracleError::TaskCompilationFailed => {
                "Unable to compile TukTuk task transaction"@
            },
            SolanaGptOracleError::InvalidFundingAmount => {
                "Funding amount must be greater than zero"@
            },
            SolanaGptOracleError::Unauthorized => "Caller is not authorized for this operation"@,
        }
    }

    /// The message that is shown for the error.
    pub fn message(&self) -> (text: &'static str)
        ensures
            text@ == self.spec_message(),
    {
        match self {
            SolanaGptOracleError::PromptTooLong => "Prompt exceeds maximum size",
            SolanaGptOracleError::ResponseTooLong => "Response exceeds maximum size",
            SolanaGptOracleError::ContextNotInitialized => {
                "Oracle context has not been initialized"
            },
            SolanaGptOracleError::TaskCompilationFailed => {
                "Unable to compile TukTuk task transaction"
            },
            SolanaGptOracleError::InvalidFundingAmount => {
                "Funding amount must be greater than zero"
            },
            SolanaGptOracleError::Unauthorized => "Caller is not authorized for this operation",
        }
    }
}

} // verus!
