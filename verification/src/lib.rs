//! Client-side construction pipeline for a ledger-hosted lending protocol.
//!
//! The crate builds, resolves and prepares protocol requests entirely from
//! plain values: deterministic derivation of protocol-owned addresses,
//! resolution of per-operation account lists from account snapshots,
//! assembly of instruction payloads, fee estimation, and a submission
//! state machine that an unverified transport loop can drive.

pub mod address;
pub mod amount;
pub mod codec;
pub mod context;
pub mod digest;
pub mod errors;
pub mod fees;
pub mod instruction;
pub mod ops;
pub mod pda;
pub mod reader;
pub mod resolve;
pub mod snapshots;
pub mod submit;
pub mod token;
pub mod transaction;

pub use address::Address;
pub use context::ClientContext;
pub use errors::ClientError;
pub use instruction::AccountRef;
pub use instruction::Instruction;
pub use snapshots::LendingMarketSnapshot;
pub use snapshots::ObligationSnapshot;
pub use snapshots::ReserveSnapshot;
pub use submit::SubmissionMachine;
pub use submit::SubmissionResult;
pub use transaction::Transaction;
