//! The error kinds a lifecycle operation can fail with. None is retryable by
//! the protocol itself: every violation aborts the whole operation with no
//! partial effect, and the caller decides whether to retry with corrected
//! arguments or identity.

use vstd::prelude::*;

verus! {

/// Why a lifecycle operation was refused.
///
/// State violations (`TaskNotOpen`, `TaskNotInProgress`,
/// `TaskNotPendingVerification`) mean the requested transition does not apply
/// to the task's current status. Authorization violations
/// (`NotAuthorizedWorker`, `NotAuthorizedPoster`) mean the caller does not
/// hold the role the transition demands. `NoWorker` is a defensive integrity
/// check that the well-formedness invariant proves unreachable. The custody
/// kinds (`UnknownAccount`, `InsufficientFunds`, `BalanceOverflow`) are the
/// value-transfer collaborator refusing a movement, propagated verbatim. The
/// store kinds (`TaskNotFound`, `TaskAlreadyExists`,
/// `ReputationAlreadyExists`) are the keyed stores enforcing their create-once
/// and lookup semantics, and `AddressDerivationFailed` is the addressing
/// collaborator finding no custodial address for the given seeds.
#[derive(Clone, Copy, Debug, PartialEq, Eq, Structural)]
pub enum ErrorCode {
    TaskNotOpen,
    TaskNotInProgress,
    TaskNotPendingVerification,
    NotAuthorizedWorker,
    NotAuthorizedPoster,
    NoWorker,
    InvalidAmount,
    TaskNotFound,
    TaskAlreadyExists,
    ReputationAlreadyExists,
    UnknownAccount,
    InsufficientFunds,
    BalanceOverflow,
    AddressDerivationFailed,
}

} // verus!
