//! A verified orchestration engine for multi-step token swaps.
//!
//! A caller escrows funds and names an ordered list of market steps.  The
//! engine issues each step as an external call, resumes when the host reports
//! the call's outcome, and finally settles output, refund and fee transfers
//! to the right parties exactly once.  Every in-flight operation lives under
//! its own identifier in a keyed store, so no two operations can ever touch
//! each other's state, and both success and failure outcomes of every issued
//! call are handled: a failed step always ends in a refund and cleanup.

pub mod engine;
pub mod laws;
pub mod math;
pub mod settlement;
pub mod store;
pub mod types;

pub use engine::SwapEngine;
pub use math::round_up_to_min_tick;
pub use settlement::compute_settlement;
pub use settlement::SettlementRecord;
pub use store::OperationStore;
pub use types::Action;
pub use types::Coin;
pub use types::CurrentSwapOperation;
pub use types::CurrentSwapStep;
pub use types::OperationStatus;
pub use types::StepOutcome;
pub use types::SwapError;
pub use types::SwapResults;
pub use types::SwapStep;
