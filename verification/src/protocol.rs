//! The protocol state and its lifecycle operations: the task ledger, the
//! account book standing for the external value-custody ledger, and the
//! reputation registry, with the state machine that arbitrates every
//! operation. Each operation is a single atomic unit: either every state
//! mutation and every value movement it asks for commits, or none does, and
//! the caller gets the specific error kind naming the violated precondition.
//!
//! Timestamps and identities come in as plain values: the hosting
//! environment sources the clock and registers the parties' accounts.

use vstd::prelude::*;

use crate::custody::AccountBook;
use crate::derivation::ESCROW_TAG;
use crate::derivation::REPUTATION_TAG;
use crate::derivation::TASK_TAG;
use crate::derivation::derive_address;
use crate::derivation::derived_binding;
use crate::derivation::id_bytes;
use crate::derivation::id_seq;
use crate::errors::ErrorCode;
use crate::reputation::ReputationNft;
use crate::status::TaskStatus;
use crate::status::is_terminal;
use crate::status::lifecycle_edge;
use crate::task::EscrowCustody;
use crate::task::Location;
use crate::task::Proof;
use crate::task::Task;

verus! {

/// The whole protocol state: one task record per poster, the account book of
/// party balances, and the append-only reputation registry, all addressed
/// under one program id.
pub struct Protocol {
    pub program_id: Vec<u8>,
    pub tasks: Vec<Task>,
    pub book: AccountBook,
    pub reputations: Vec<ReputationNft>,
}

impl Protocol {
    /// Well-formedness of the protocol state: the program id is a 32-byte
    /// address, every task record is well formed, no two tasks share a
    /// poster (the ledger keys task records by poster), every reputation
    /// record is well formed, and no two reputation records share a user
    /// (the registry keys records by worker identity).
    pub open spec fn wf(self) -> bool {
        &&& self.program_id@.len() == 32
        &&& forall|i: int| 0 <= i < self.tasks@.len() ==> (#[trigger] self.tasks@[i]).wf()
        &&& forall|i: int, j: int|
            0 <= i < j < self.tasks@.len() ==> (#[trigger] self.tasks@[i]).poster != (
            #[trigger] self.tasks@[j]).poster
        &&& forall|i: int| 0 <= i < self.reputations@.len() ==> (#[trigger] self.reputations@[i]).wf()
        &&& forall|i: int, j: int|
            0 <= i < j < self.reputations@.len() ==> (#[trigger] self.reputations@[i]).user != (
            #[trigger] self.reputations@[j]).user
    }

    /// A task record for this poster already exists in the ledger.
    pub open spec fn has_task_for(self, poster: usize) -> bool {
        exists|i: int| 0 <= i < self.tasks@.len() && (#[trigger] self.tasks@[i]).poster == poster
    }

    /// A reputation record for this user already exists in the registry.
    pub open spec fn has_reputation_for(self, user: usize) -> bool {
        exists|i: int|
            0 <= i < self.reputations@.len() && (#[trigger] self.reputations@[i]).user == user
    }

    /// What the addressing collaborator yields for this poster's task record.
    pub open spec fn task_binding(self, poster: usize) -> Option<(Seq<u8>, u8)> {
        derived_binding(TASK_TAG, id_seq(poster as u64), self.program_id@)
    }

    /// What the addressing collaborator yields for the escrow custody bound
    /// to the task record at `task_addr`.
    pub open spec fn escrow_binding_of(self, task_addr: Seq<u8>) -> Option<(Seq<u8>, u8)> {
        derived_binding(ESCROW_TAG, task_addr, self.program_id@)
    }

    /// What the addressing collaborator yields for this user's reputation
    /// record.
    pub open spec fn reputation_binding(self, user: usize) -> Option<(Seq<u8>, u8)> {
        derived_binding(REPUTATION_TAG, id_seq(user as u64), self.program_id@)
    }

    /// Both address derivations a new task by `poster` needs succeed.
    pub open spec fn create_bindings_ok(self, poster: usize) -> bool {
        self.task_binding(poster) matches Some(tb) && self.escrow_binding_of(tb.0) is Some
    }

    /// Every precondition of `create_task` holds: a positive amount, no task
    /// for this poster yet, both addresses derivable, and a registered
    /// poster account covering the deposit.
    pub open spec fn create_ok(self, poster: usize, amount: u64) -> bool {
        &&& amount > 0
        &&& !self.has_task_for(poster)
        &&& self.create_bindings_ok(poster)
        &&& poster < self.book@.len()
        &&& self.book@[poster as int] >= amount
    }

    /// The status and authorization gate of `verify_and_release`: the task
    /// exists, awaits verification, and the caller is its poster.
    pub open spec fn verify_gate(self, task_id: usize, caller: usize) -> bool {
        &&& task_id < self.tasks@.len()
        &&& self.tasks@[task_id as int].status == TaskStatus::PendingVerification
        &&& self.tasks@[task_id as int].poster == caller
    }

    /// The registry and custody checks of an approving verification: the
    /// worker has no reputation record yet, a reputation address is
    /// derivable, and the worker's account exists and can absorb the amount.
    pub open spec fn release_ok(self, task_id: usize) -> bool {
        let t = self.tasks@[task_id as int];
        &&& t.worker is Some
        &&& !self.has_reputation_for(t.worker->Some_0)
        &&& self.reputation_binding(t.worker->Some_0) is Some
        &&& t.worker->Some_0 < self.book@.len()
        &&& self.book@[t.worker->Some_0 as int] + t.amount <= u64::MAX
    }

    /// The custody checks of a rejecting verification: the poster's account
    /// exists and can absorb the refund.
    pub open spec fn refund_ok(self, task_id: usize) -> bool {
        let t = self.tasks@[task_id as int];
        &&& t.poster < self.book@.len()
        &&& self.book@[t.poster as int] + t.amount <= u64::MAX
    }

    /// A fresh protocol instance under the given program id, with no task,
    /// no account and no reputation record yet.
    pub fn new(program_id: Vec<u8>) -> (r: Protocol)
        requires
            program_id@.len() == 32,
        ensures
            r.wf(),
            r.program_id == program_id,
            r.tasks@.len() == 0,
            r.book@.len() == 0,
            r.reputations@.len() == 0,
    {
        Protocol {
            program_id,
            tasks: Vec::new(),
            book: AccountBook::new(),
            reputations: Vec::new(),
        }
    }

    /// Register a fresh party account with an initial balance; wallet
    /// funding itself is the hosting environment's business.
    pub fn register_account(&mut self, initial: u64) -> (id: usize)
        requires
            old(self).wf(),
        ensures
            final(self).wf(),
            id == old(self).book@.len(),
            final(self).book@ == old(self).book@.push(initial),
            final(self).tasks == old(self).tasks,
            final(self).reputations == old(self).reputations,
            final(self).program_id == old(self).program_id,
    {
        self.book.register(initial)
    }

    /// Create a task: a fresh task record in `Open` status, bound one-to-one
    /// to a fresh escrow custody account that atomically receives exactly
    /// `amount` units out of the poster's account. Fails, with nothing
    /// changed, on a zero amount, on a second task for the same poster, when
    /// the addressing collaborator finds no address, or when the custody
    /// collaborator refuses the deposit; each failure names its own error
    /// kind. On success the returned task id is the index of the new record.
    pub fn create_task(
        &mut self,
        poster: usize,
        amount: u64,
        description: String,
        now: i64,
    ) -> (r: Result<usize, ErrorCode>)
        requires
            old(self).wf(),
        ensures
            final(self).wf(),
            r is Err ==> *final(self) == *old(self),
            r is Ok <==> old(self).create_ok(poster, amount),
            amount == 0 ==> r == Err::<usize, ErrorCode>(ErrorCode::InvalidAmount),
            amount > 0 && old(self).has_task_for(poster) ==> r == Err::<usize, ErrorCode>(
                ErrorCode::TaskAlreadyExists,
            ),
            amount > 0 && !old(self).has_task_for(poster) && !old(self).create_bindings_ok(poster)
                ==> r == Err::<usize, ErrorCode>(ErrorCode::AddressDerivationFailed),
            amount > 0 && !old(self).has_task_for(poster) && old(self).create_bindings_ok(poster)
                && poster >= old(self).book@.len() ==> r == Err::<usize, ErrorCode>(
                ErrorCode::UnknownAccount,
            ),
            amount > 0 && !old(self).has_task_for(poster) && old(self).create_bindings_ok(poster)
                && poster < old(self).book@.len() && old(self).book@[poster as int] < amount ==> r
                == Err::<usize, ErrorCode>(ErrorCode::InsufficientFunds),
            r is Ok ==> ({
                let n = old(self).tasks@.len() as int;
                let t = final(self).tasks@[n];
                &&& r == Ok::<usize, ErrorCode>(old(self).tasks@.len() as usize)
                &&& final(self).tasks@.len() == n + 1
                &&& forall|j: int| 0 <= j < n ==> final(self).tasks@[j] == old(self).tasks@[j]
                &&& t.poster == poster
                &&& t.worker is None
                &&& t.amount == amount
                &&& t.description == description
                &&& t.status == TaskStatus::Open
                &&& t.proof is None
                &&& t.created_at == now
                &&& t.accepted_at is None
                &&& Some((t.address@, t.bump)) == old(self).task_binding(poster)
                &&& Some((t.escrow.address@, t.escrow.bump)) == old(self).escrow_binding_of(
                    t.address@,
                )
                &&& t.escrow.balance == amount
                &&& final(self).book@ == old(self).book@.update(
                    poster as int,
                    (old(self).book@[poster as int] - amount) as u64,
                )
                &&& final(self).reputations == old(self).reputations
                &&& final(self).program_id == old(self).program_id
            }),
    {
        if amount == 0 {
            return Err(ErrorCode::InvalidAmount);
        }
        if self.poster_has_task(poster) {
            return Err(ErrorCode::TaskAlreadyExists);
        }
        let key = id_bytes(poster as u64);
        let task_binding = derive_address(TASK_TAG, &key, &self.program_id);
        let (task_address, task_bump) = match task_binding {
            Some(p) => p,
            None => {
                return Err(ErrorCode::AddressDerivationFailed);
            },
        };
        let escrow_binding = derive_address(ESCROW_TAG, &task_address, &self.program_id);
        let (escrow_address, escrow_bump) = match escrow_binding {
            Some(p) => p,
            None => {
                return Err(ErrorCode::AddressDerivationFailed);
            },
        };
        match self.book.withdraw(poster, amount) {
            Ok(()) => {},
            Err(e) => {
                return Err(e);
            },
        }
        let id = self.tasks.len();
        let task = Task {
            poster,
            worker: None,
            amount,
            description,
            status: TaskStatus::Open,
            proof: None,
            created_at: now,
            accepted_at: None,
            address: task_address,
            bump: task_bump,
            escrow: EscrowCustody { address: escrow_address, bump: escrow_bump, balance: amount },
        };
        self.tasks.push(task);
        Ok(id)
    }

    /// Accept a task: any caller may self-assign as its worker while the
    /// task is `Open` — acceptance is first-come-first-assigned, so under
    /// the per-record serialization the runtime provides, of two competing
    /// acceptances exactly one finds the task `Open` and wins, and the other
    /// fails with `TaskNotOpen`. Fails, with nothing changed, on an unknown
    /// task id or a task that is not `Open`.
    pub fn accept_task(&mut self, task_id: usize, worker: usize, now: i64) -> (r: Result<
        (),
        ErrorCode,
    >)
        requires
            old(self).wf(),
        ensures
            final(self).wf(),
            r is Err ==> *final(self) == *old(self),
            task_id >= old(self).tasks@.len() ==> r == Err::<(), ErrorCode>(ErrorCode::TaskNotFound),
            task_id < old(self).tasks@.len() && old(self).tasks@[task_id as int].status
                != TaskStatus::Open ==> r == Err::<(), ErrorCode>(ErrorCode::TaskNotOpen),
            r is Ok <==> task_id < old(self).tasks@.len() && old(self).tasks@[task_id as int].status
                == TaskStatus::Open,
            r is Ok ==> ({
                let t0 = old(self).tasks@[task_id as int];
                let t = final(self).tasks@[task_id as int];
                &&& t.status == TaskStatus::InProgress
                &&& lifecycle_edge(t0.status, t.status)
                &&& t.worker == Some(worker)
                &&& t.accepted_at == Some(now)
                &&& t.poster == t0.poster
                &&& t.amount == t0.amount
                &&& t.description == t0.description
                &&& t.proof == t0.proof
                &&& t.created_at == t0.created_at
                &&& t.address == t0.address
                &&& t.bump == t0.bump
                &&& t.escrow == t0.escrow
                &&& final(self).tasks@ == old(self).tasks@.update(task_id as int, t)
                &&& final(self).book == old(self).book
                &&& final(self).reputations == old(self).reputations
                &&& final(self).program_id == old(self).program_id
            }),
    {
        if task_id >= self.tasks.len() {
            return Err(ErrorCode::TaskNotFound);
        }
        if self.tasks[task_id].status != TaskStatus::Open {
            return Err(ErrorCode::TaskNotOpen);
        }
        let t = &mut self.tasks[task_id];
        t.worker = Some(worker);
        t.accepted_at = Some(now);
        t.status = TaskStatus::InProgress;
        Ok(())
    }

    /// Submit proof of completion: only the recorded worker may submit, and
    /// only while the task is `InProgress`. The proof — content reference,
    /// position, submission time — is set exactly once and the task moves to
    /// `PendingVerification`. Fails, with nothing changed, on an unknown
    /// task id, a task not `InProgress`, or a caller other than the worker.
    pub fn submit_proof(
        &mut self,
        task_id: usize,
        caller: usize,
        ipfs_hash: String,
        location: Location,
        now: i64,
    ) -> (r: Result<(), ErrorCode>)
        requires
            old(self).wf(),
        ensures
            final(self).wf(),
            r is Err ==> *final(self) == *old(self),
            task_id >= old(self).tasks@.len() ==> r == Err::<(), ErrorCode>(ErrorCode::TaskNotFound),
            task_id < old(self).tasks@.len() && old(self).tasks@[task_id as int].status
                != TaskStatus::InProgress ==> r == Err::<(), ErrorCode>(
                ErrorCode::TaskNotInProgress,
            ),
            task_id < old(self).tasks@.len() && old(self).tasks@[task_id as int].status
                == TaskStatus::InProgress && old(self).tasks@[task_id as int].worker != Some(caller)
                ==> r == Err::<(), ErrorCode>(ErrorCode::NotAuthorizedWorker),
            r is Ok <==> task_id < old(self).tasks@.len() && old(self).tasks@[task_id as int].status
                == TaskStatus::InProgress && old(self).tasks@[task_id as int].worker == Some(caller),
            r is Ok ==> ({
                let t0 = old(self).tasks@[task_id as int];
                let t = final(self).tasks@[task_id as int];
                &&& t.status == TaskStatus::PendingVerification
                &&& lifecycle_edge(t0.status, t.status)
                &&& (t.proof matches Some(p) && p.ipfs_hash == ipfs_hash && p.location == location
                    && p.submitted_at == now)
                &&& t.worker == t0.worker
                &&& t.accepted_at == t0.accepted_at
                &&& t.poster == t0.poster
                &&& t.amount == t0.amount
                &&& t.description == t0.description
                &&& t.created_at == t0.created_at
                &&& t.address == t0.address
                &&& t.bump == t0.bump
                &&& t.escrow == t0.escrow
                &&& final(self).tasks@ == old(self).tasks@.update(task_id as int, t)
                &&& final(self).book == old(self).book
                &&& final(self).reputations == old(self).reputations
                &&& final(self).program_id == old(self).program_id
            }),
    {
        if task_id >= self.tasks.len() {
            return Err(ErrorCode::TaskNotFound);
        }
        if self.tasks[task_id].status != TaskStatus::InProgress {
            return Err(ErrorCode::TaskNotInProgress);
        }
        let authorized = match self.tasks[task_id].worker {
            Some(w) => w == caller,
            None => false,
        };
        if !authorized {
            return Err(ErrorCode::NotAuthorizedWorker);
        }
        let t = &mut self.tasks[task_id];
        t.proof = Some(
            Proof { ipfs_hash, location, submitted_at: now },
        );
        t.status = TaskStatus::PendingVerification;
        Ok(())
    }

    /// Verify the submitted proof and settle the escrow: only the poster may
    /// decide, and only while the task is `PendingVerification`. On a valid
    /// proof the whole deposit moves from the escrow custody to the worker,
    /// the task becomes `Completed`, and one reputation record for the
    /// worker is minted; on an invalid proof the whole deposit moves back to
    /// the poster and the task becomes `Rejected`. Exactly one of the two
    /// disjoint, irreversible outcomes happens, in exactly one transfer, and
    /// the escrow custody is empty from then on. Any refused check — the
    /// gate, the registry's create-once rule, the addressing, or the custody
    /// ledger — aborts the whole operation with nothing changed. The
    /// `NoWorker` integrity check is proved unreachable for well-formed
    /// state.
    pub fn verify_and_release(
        &mut self,
        task_id: usize,
        caller: usize,
        valid_proof: bool,
        now: i64,
    ) -> (r: Result<(), ErrorCode>)
        requires
            old(self).wf(),
        ensures
            final(self).wf(),
            r is Err ==> *final(self) == *old(self),
            r != Err::<(), ErrorCode>(ErrorCode::NoWorker),
            task_id >= old(self).tasks@.len() ==> r == Err::<(), ErrorCode>(ErrorCode::TaskNotFound),
            task_id < old(self).tasks@.len() && old(self).tasks@[task_id as int].status
                != TaskStatus::PendingVerification ==> r == Err::<(), ErrorCode>(
                ErrorCode::TaskNotPendingVerification,
            ),
            task_id < old(self).tasks@.len() && old(self).tasks@[task_id as int].status
                == TaskStatus::PendingVerification && old(self).tasks@[task_id as int].poster
                != caller ==> r == Err::<(), ErrorCode>(ErrorCode::NotAuthorizedPoster),
            r is Ok <==> old(self).verify_gate(task_id, caller) && (if valid_proof {
                old(self).release_ok(task_id)
            } else {
                old(self).refund_ok(task_id)
            }),
            old(self).verify_gate(task_id, caller) && valid_proof && old(self).has_reputation_for(
                old(self).tasks@[task_id as int].worker->Some_0,
            ) ==> r == Err::<(), ErrorCode>(ErrorCode::ReputationAlreadyExists),
            old(self).verify_gate(task_id, caller) && valid_proof && !old(self).has_reputation_for(
                old(self).tasks@[task_id as int].worker->Some_0,
            ) && old(self).reputation_binding(old(self).tasks@[task_id as int].worker->Some_0)
                is None ==> r == Err::<(), ErrorCode>(ErrorCode::AddressDerivationFailed),
            old(self).verify_gate(task_id, caller) && valid_proof && !old(self).has_reputation_for(
                old(self).tasks@[task_id as int].worker->Some_0,
            ) && old(self).reputation_binding(old(self).tasks@[task_id as int].worker->Some_0)
                is Some && old(self).tasks@[task_id as int].worker->Some_0 >= old(self).book@.len()
                ==> r == Err::<(), ErrorCode>(ErrorCode::UnknownAccount),
            old(self).verify_gate(task_id, caller) && valid_proof && !old(self).has_reputation_for(
                old(self).tasks@[task_id as int].worker->Some_0,
            ) && old(self).reputation_binding(old(self).tasks@[task_id as int].worker->Some_0)
                is Some && old(self).tasks@[task_id as int].worker->Some_0 < old(self).book@.len()
                && old(self).book@[old(self).tasks@[task_id as int].worker->Some_0 as int] + old(
                self,
            ).tasks@[task_id as int].amount > u64::MAX ==> r == Err::<(), ErrorCode>(
                ErrorCode::BalanceOverflow,
            ),
            old(self).verify_gate(task_id, caller) && !valid_proof && caller >= old(
                self,
            ).book@.len() ==> r == Err::<(), ErrorCode>(ErrorCode::UnknownAccount),
            old(self).verify_gate(task_id, caller) && !valid_proof && caller < old(self).book@.len()
                && old(self).book@[caller as int] + old(self).tasks@[task_id as int].amount
                > u64::MAX ==> r == Err::<(), ErrorCode>(ErrorCode::BalanceOverflow),
            r is Ok ==> ({
                let t0 = old(self).tasks@[task_id as int];
                let t = final(self).tasks@[task_id as int];
                &&& lifecycle_edge(t0.status, t.status)
                &&& t.status == (if valid_proof {
                    TaskStatus::Completed
                } else {
                    TaskStatus::Rejected
                })
                &&& t.escrow.balance == 0
                &&& t.escrow.address == t0.escrow.address
                &&& t.escrow.bump == t0.escrow.bump
                &&& t.worker == t0.worker
                &&& t.proof == t0.proof
                &&& t.accepted_at == t0.accepted_at
                &&& t.poster == t0.poster
                &&& t.amount == t0.amount
                &&& t.description == t0.description
                &&& t.created_at == t0.created_at
                &&& t.address == t0.address
                &&& t.bump == t0.bump
                &&& final(self).tasks@ == old(self).tasks@.update(task_id as int, t)
                &&& final(self).program_id == old(self).program_id
            }),
            r is Ok && valid_proof ==> ({
                let t0 = old(self).tasks@[task_id as int];
                let w = t0.worker->Some_0 as int;
                let rec = final(self).reputations@.last();
                &&& final(self).book@ == old(self).book@.update(
                    w,
                    (old(self).book@[w] + t0.amount) as u64,
                )
                &&& final(self).reputations@ == old(self).reputations@.push(rec)
                &&& rec.user == t0.worker->Some_0
                &&& rec.score == 1
                &&& rec.minted_at == now
                &&& Some((rec.address@, rec.bump)) == old(self).reputation_binding(
                    t0.worker->Some_0,
                )
            }),
            r is Ok && !valid_proof ==> ({
                let t0 = old(self).tasks@[task_id as int];
                &&& final(self).book@ == old(self).book@.update(
                    t0.poster as int,
                    (old(self).book@[t0.poster as int] + t0.amount) as u64,
                )
                &&& final(self).reputations == old(self).reputations
            }),
    {
        if task_id >= self.tasks.len() {
            return Err(ErrorCode::TaskNotFound);
        }
        if self.tasks[task_id].status != TaskStatus::PendingVerification {
            return Err(ErrorCode::TaskNotPendingVerification);
        }
        if self.tasks[task_id].poster != caller {
            return Err(ErrorCode::NotAuthorizedPoster);
        }
        let worker = match self.tasks[task_id].worker {
            Some(w) => w,
            None => {
                return Err(ErrorCode::NoWorker);
            },
        };
        let amount = self.tasks[task_id].amount;
        if valid_proof {
            if self.user_has_reputation(worker) {
                return Err(ErrorCode::ReputationAlreadyExists);
            }
            let key = id_bytes(worker as u64);
            let rep_binding = derive_address(REPUTATION_TAG, &key, &self.program_id);
            let (rep_address, rep_bump) = match rep_binding {
                Some(p) => p,
                None => {
                    return Err(ErrorCode::AddressDerivationFailed);
                },
            };
            let worker_balance = match self.book.balance_of(worker) {
                Some(b) => b,
                None => {
                    return Err(ErrorCode::UnknownAccount);
                },
            };
            if amount > u64::MAX - worker_balance {
                return Err(ErrorCode::BalanceOverflow);
            }
            let t = &mut self.tasks[task_id];
            t.status = TaskStatus::Completed;
            t.escrow.balance = 0;
            self.book.credit(worker, amount);
            let rec = ReputationNft {
                user: worker,
                score: 1,
                minted_at: now,
                address: rep_address,
                bump: rep_bump,
            };
            self.reputations.push(rec);
            Ok(())
        } else {
            let poster_balance = match self.book.balance_of(caller) {
                Some(b) => b,
                None => {
                    return Err(ErrorCode::UnknownAccount);
                },
            };
            if amount > u64::MAX - poster_balance {
                return Err(ErrorCode::BalanceOverflow);
            }
            let t = &mut self.tasks[task_id];
            t.status = TaskStatus::Rejected;
            t.escrow.balance = 0;
            self.book.credit(caller, amount);
            Ok(())
        }
    }

    /// Mint a reputation record: one durable, append-only attestation for
    /// `user`, keyed by the user's identity alone. Fails, with nothing
    /// changed, if a record at the same derived key already exists — the
    /// registry's idempotency boundary refuses a second mint rather than
    /// silently overwrite — or if no address is derivable. Invoked by
    /// `verify_and_release` on approval with a score of 1; the protocol also
    /// exposes it directly.
    pub fn mint_reputation_nft(&mut self, user: usize, score: u8, now: i64) -> (r: Result<
        (),
        ErrorCode,
    >)
        requires
            old(self).wf(),
        ensures
            final(self).wf(),
            r is Err ==> *final(self) == *old(self),
            old(self).has_reputation_for(user) ==> r == Err::<(), ErrorCode>(
                ErrorCode::ReputationAlreadyExists,
            ),
            !old(self).has_reputation_for(user) && old(self).reputation_binding(user) is None ==> r
                == Err::<(), ErrorCode>(ErrorCode::AddressDerivationFailed),
            r is Ok <==> !old(self).has_reputation_for(user) && old(self).reputation_binding(user)
                is Some,
            r is Ok ==> ({
                let rec = final(self).reputations@.last();
                &&& final(self).reputations@ == old(self).reputations@.push(rec)
                &&& rec.user == user
                &&& rec.score == score
                &&& rec.minted_at == now
                &&& Some((rec.address@, rec.bump)) == old(self).reputation_binding(user)
                &&& final(self).tasks == old(self).tasks
                &&& final(self).book == old(self).book
                &&& final(self).program_id == old(self).program_id
            }),
    {
        if self.user_has_reputation(user) {
            return Err(ErrorCode::ReputationAlreadyExists);
        }
        let key = id_bytes(user as u64);
        let rep_binding = derive_address(REPUTATION_TAG, &key, &self.program_id);
        let (rep_address, rep_bump) = match rep_binding {
            Some(p) => p,
            None => {
                return Err(ErrorCode::AddressDerivationFailed);
            },
        };
        let rec = ReputationNft {
            user,
            score,
            minted_at: now,
            address: rep_address,
            bump: rep_bump,
        };
        self.reputations.push(rec);
        Ok(())
    }

    /// Whether the ledger already holds a task record for this poster.
    pub fn poster_has_task(&self, poster: usize) -> (r: bool)
        ensures
            r == self.has_task_for(poster),
    {
        let mut i: usize = 0;
        while i < self.tasks.len()
            invariant
                i <= self.tasks@.len(),
                forall|k: int| 0 <= k < i ==> (#[trigger] self.tasks@[k]).poster != poster,
            decreases self.tasks@.len() - i,
        {
            if self.tasks[i].poster == poster {
                return true;
            }
            i += 1;
        }
        false
    }

    /// Whether the registry already holds a reputation record for this user.
    pub fn user_has_reputation(&self, user: usize) -> (r: bool)
        ensures
            r == self.has_reputation_for(user),
    {
        let mut i: usize = 0;
        while i < self.reputations.len()
            invariant
                i <= self.reputations@.len(),
                forall|k: int| 0 <= k < i ==> (#[trigger] self.reputations@[k]).user != user,
            decreases self.reputations@.len() - i,
        {
            if self.reputations[i].user == user {
                return true;
            }
            i += 1;
        }
        false
    }

    /// Once a task is terminal, every lifecycle operation against it is
    /// refused with a state violation: the task is no longer `Open`,
    /// `InProgress` or `PendingVerification`, so the operations' contracts
    /// force the matching state-violation error with no state change; and
    /// its escrow custody is already empty and, the contracts changing no
    /// balance on an error, stays so.
    pub proof fn lemma_terminal_task_refuses_operations(self, task_id: usize)
        requires
            self.wf(),
            task_id < self.tasks@.len(),
            is_terminal(self.tasks@[task_id as int].status),
        ensures
            self.tasks@[task_id as int].status != TaskStatus::Open,
            self.tasks@[task_id as int].status != TaskStatus::InProgress,
            self.tasks@[task_id as int].status != TaskStatus::PendingVerification,
            !self.verify_gate(task_id, self.tasks@[task_id as int].poster),
            self.tasks@[task_id as int].escrow.balance == 0,
    {
    }

    /// How many task records the ledger holds.
    pub fn task_count(&self) -> (r: usize)
        ensures
            r == self.tasks@.len(),
    {
        self.tasks.len()
    }

    /// The task record at `task_id`, or nothing for an unknown id.
    pub fn get_task(&self, task_id: usize) -> (r: Option<&Task>)
        ensures
            task_id < self.tasks@.len() ==> (r matches Some(t) && *t == self.tasks@[task_id as int]),
            task_id >= self.tasks@.len() ==> r is None,
    {
        if task_id < self.tasks.len() {
            Some(&self.tasks[task_id])
        } else {
            None
        }
    }

    /// The balance of a party account, or nothing for an unregistered
    /// identity.
    pub fn balance_of(&self, id: usize) -> (r: Option<u64>)
        ensures
            id < self.book@.len() ==> r == Some(self.book@[id as int]),
            id >= self.book@.len() ==> r is None,
    {
        self.book.balance_of(id)
    }

    /// How many reputation records the registry holds.
    pub fn reputation_count(&self) -> (r: usize)
        ensures
            r == self.reputations@.len(),
    {
        self.reputations.len()
    }

    /// The reputation record at index `i` of the registry, or nothing.
    pub fn get_reputation(&self, i: usize) -> (r: Option<&ReputationNft>)
        ensures
            i < self.reputations@.len() ==> (r matches Some(n) && *n == self.reputations@[i as int]),
            i >= self.reputations@.len() ==> r is None,
    {
        if i < self.reputations.len() {
            Some(&self.reputations[i])
        } else {
            None
        }
    }
}

} // verus!
