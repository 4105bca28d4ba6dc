pub mod oracle_state;

pub use oracle_state::{OracleState, OracleStateView, MAX_PROMPT_BYTES, MAX_RESPONSE_BYTES};
