//! A task-for-hire escrow protocol: a poster deposits value for a task, a
//! worker claims it, submits location-tagged proof of completion, and the
//! poster either releases the escrowed value to the worker or has it returned,
//! after which a non-transferable reputation record is issued to the worker.
//!
//! The heart of the library is the task lifecycle state machine together with
//! its custody and authorization rules: which transitions are legal, who may
//! trigger each, what value moves when, and the invariants that keep deposits
//! from being released twice, duplicated, or stranded.

mod custody;
mod derivation;
mod errors;
mod protocol;
mod reputation;
mod status;
mod task;

pub use protocol::Protocol;

pub use custody::AccountBook;
pub use derivation::TASK_TAG;
pub use derivation::ESCROW_TAG;
pub use derivation::REPUTATION_TAG;
pub use derivation::derived_binding;
pub use derivation::id_seq;
pub use derivation::id_bytes;
pub use errors::ErrorCode;
pub use reputation::ReputationNft;
pub use task::EscrowCustody;
pub use task::Location;
pub use task::Proof;
pub use task::Task;
pub use task::lemma_escrow_custody_balance;
pub use status::TaskStatus;
pub use status::lifecycle_edge;
pub use status::is_terminal;
pub use status::stage;
pub use status::lifecycle_path;
pub use status::lemma_terminal_is_final;
pub use status::lemma_no_shortcut_to_terminal;
