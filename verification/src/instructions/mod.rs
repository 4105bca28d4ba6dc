pub mod create_context;
pub mod fund_treasury;
pub mod initialize;
pub mod process_oracle_callback;
pub mod request_gpt;
pub mod schedule;

pub use create_context::{CreateContext, CreateLlmContext};
pub use fund_treasury::{FundTreasury, Transfer};
pub use initialize::{Initialize, InitializeBumps};
pub use process_oracle_callback::ProcessOracleCallback;
pub use request_gpt::{InteractWithLlm, RequestGpt};
pub use schedule::{QueueTask, QueueTaskArgs, Schedule, ScheduleBumps, Trigger};
