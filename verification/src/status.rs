//! The task lifecycle: statuses, the legal transition edges, and proofs that
//! the lifecycle is linear — every terminal task passed through each earlier
//! stage in order, and a terminal status has no outgoing edge.

use vstd::prelude::*;

verus! {

/// The lifecycle stage of a task. `Open` is the initial status; `Completed`
/// and `Rejected` are terminal.
#[derive(Clone, Copy, Debug, PartialEq, Eq, Structural)]
pub enum TaskStatus {
    Open,
    InProgress,
    PendingVerification,
    Completed,
    Rejected,
}

/// The legal transitions of the lifecycle state machine: a task moves from
/// `Open` to `InProgress` (accept), from `InProgress` to
/// `PendingVerification` (submit proof), and from `PendingVerification` to
/// exactly one of `Completed` or `Rejected` (verify).
pub open spec fn lifecycle_edge(from: TaskStatus, to: TaskStatus) -> bool {
    ||| (from == TaskStatus::Open && to == TaskStatus::InProgress)
    ||| (from == TaskStatus::InProgress && to == TaskStatus::PendingVerification)
    ||| (from == TaskStatus::PendingVerification && to == TaskStatus::Completed)
    ||| (from == TaskStatus::PendingVerification && to == TaskStatus::Rejected)
}

/// A terminal status: no lifecycle operation applies to the task any more.
pub open spec fn is_terminal(s: TaskStatus) -> bool {
    s == TaskStatus::Completed || s == TaskStatus::Rejected
}

/// How far along the lifecycle a status lies. Every legal edge advances the
/// stage by exactly one, so the lifecycle is linear.
pub open spec fn stage(s: TaskStatus) -> int {
    match s {
        TaskStatus::Open => 0,
        TaskStatus::InProgress => 1,
        TaskStatus::PendingVerification => 2,
        TaskStatus::Completed => 3,
        TaskStatus::Rejected => 3,
    }
}

/// Once a task is `Completed` or `Rejected`, no transition leads anywhere:
/// the terminal statuses have no outgoing lifecycle edge.
pub proof fn lemma_terminal_is_final(from: TaskStatus, to: TaskStatus)
    requires
        is_terminal(from),
    ensures
        !lifecycle_edge(from, to),
{
}

/// A sequence of statuses that a single task could exhibit over its lifetime:
/// it starts `Open` and every step follows a legal lifecycle edge.
pub open spec fn lifecycle_path(p: Seq<TaskStatus>) -> bool {
    &&& p.len() >= 1
    &&& p[0] == TaskStatus::Open
    &&& forall|i: int| 0 <= i && i + 1 < p.len() ==> lifecycle_edge(#[trigger] p[i], p[i + 1])
}

/// Along a lifecycle path the stage of the k-th status is exactly k.
pub proof fn lemma_stage_along_path(p: Seq<TaskStatus>, k: int)
    requires
        lifecycle_path(p),
        0 <= k < p.len(),
    ensures
        stage(p[k]) == k,
    decreases k,
{
    if k > 0 {
        lemma_stage_along_path(p, k - 1);
        assert(lifecycle_edge(p[k - 1], p[k]));
    }
}

/// No sequence of lifecycle operations reaches a terminal status without
/// passing through `Open`, `InProgress` and `PendingVerification`, in that
/// order, one operation per step.
pub proof fn lemma_no_shortcut_to_terminal(p: Seq<TaskStatus>)
    requires
        lifecycle_path(p),
        is_terminal(p[p.len() - 1]),
    ensures
        p.len() == 4,
        p[0] == TaskStatus::Open,
        p[1] == TaskStatus::InProgress,
        p[2] == TaskStatus::PendingVerification,
{
    lemma_stage_along_path(p, p.len() - 1);
    lemma_stage_along_path(p, 1);
    lemma_stage_along_path(p, 2);
}

} // verus!
