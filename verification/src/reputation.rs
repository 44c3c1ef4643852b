//! Reputation records: durable, append-only attestations that a worker
//! completed a task successfully. A record is created exactly once per
//! derived key and never mutated or deleted afterwards.

use vstd::prelude::*;

verus! {

/// One reputation attestation: the worker it was issued to, the score
/// awarded, when it was minted, and the derived address and bump seed that
/// key the record in the registry.
#[derive(Clone, Debug, PartialEq, Eq)]
pub struct ReputationNft {
    pub user: usize,
    pub score: u8,
    pub minted_at: i64,
    pub address: Vec<u8>,
    pub bump: u8,
}

impl ReputationNft {
    /// Well-formedness of a reputation record: its derived address is a
    /// 32-byte address.
    pub open spec fn wf(self) -> bool {
        self.address@.len() == 32
    }
}

} // verus!
