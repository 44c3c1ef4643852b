//! The task record and its escrow custody binding: one record per posted
//! job, one custody account per record, and the well-formedness invariant
//! that ties the record's fields to its lifecycle status.

use vstd::prelude::*;

use crate::status::TaskStatus;
use crate::status::is_terminal;

verus! {

/// A geographic position, in microdegrees (millionths of a degree) of
/// latitude and longitude, so that positions are exact integers.
#[derive(Clone, Copy, Debug, PartialEq, Eq, Structural)]
pub struct Location {
    pub latitude_microdeg: i64,
    pub longitude_microdeg: i64,
}

/// Worker-submitted evidence of completion: an opaque content reference, the
/// position the work was performed at, and when it was submitted.
#[derive(Clone, Debug, PartialEq, Eq)]
pub struct Proof {
    pub ipfs_hash: String,
    pub location: Location,
    pub submitted_at: i64,
}

/// The custody account bound one-to-one to a task: a protocol-controlled
/// holding account, located by a derived address, that receives exactly the
/// task's amount at creation and is emptied exactly once, at the terminal
/// transition. The bump seed is the derivation proof by which the protocol —
/// and no private key — authorizes the outgoing transfer.
#[derive(Clone, Debug, PartialEq, Eq)]
pub struct EscrowCustody {
    pub address: Vec<u8>,
    pub bump: u8,
    pub balance: u64,
}

/// One posted job: who deposited, who (if anyone) accepted, the deposited
/// amount, the free-text description, the lifecycle status, the submitted
/// proof (if any), timestamps, the record's own derived address and bump, and
/// the escrow custody bound to it.
#[derive(Clone, Debug, PartialEq, Eq)]
pub struct Task {
    pub poster: usize,
    pub worker: Option<usize>,
    pub amount: u64,
    pub description: String,
    pub status: TaskStatus,
    pub proof: Option<Proof>,
    pub created_at: i64,
    pub accepted_at: Option<i64>,
    pub address: Vec<u8>,
    pub bump: u8,
    pub escrow: EscrowCustody,
}

impl Task {
    /// Well-formedness of a task record: the amount is positive and never
    /// changes; the worker, the proof and the acceptance timestamp are set
    /// exactly when the lifecycle says they must be; the addresses are
    /// 32-byte derived addresses; and the escrow custody holds exactly the
    /// deposited amount while the task is live and exactly nothing once it is
    /// terminal.
    pub open spec fn wf(self) -> bool {
        &&& self.amount > 0
        &&& (self.worker is Some <==> self.status != TaskStatus::Open)
        &&& (self.proof is Some <==> (self.status == TaskStatus::PendingVerification
            || is_terminal(self.status)))
        &&& (self.accepted_at is Some <==> self.status != TaskStatus::Open)
        &&& self.address@.len() == 32
        &&& self.escrow.address@.len() == 32
        &&& self.escrow.balance == (if is_terminal(self.status) {
            0u64
        } else {
            self.amount
        })
    }
}

/// Conservation of custody: a well-formed task's escrow account holds exactly
/// the deposited amount for the whole of the task's live lifetime, and is
/// empty from the terminal transition on — so the total value that ever
/// leaves it is exactly the amount, in exactly one transfer.
pub proof fn lemma_escrow_custody_balance(t: Task)
    requires
        t.wf(),
    ensures
        !is_terminal(t.status) ==> t.escrow.balance == t.amount,
        is_terminal(t.status) ==> t.escrow.balance == 0,
{
}

} // verus!
