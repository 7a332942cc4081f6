use vstd::prelude::*;

use crate::errors::AgentPayError;
use crate::ops::accepted_task;
use crate::ops::settlement_allowed;
use crate::ops::settlement_error;
use crate::state::is_terminal;
use crate::state::task_step;
use crate::state::TaskRequest;
use crate::state::TaskStatus;

verus! {

/// Escrow and status never disagree: for a well-formed task with a
/// positive price, exactly one of the two holds — the escrow holds
/// `amount_lamports`, or the escrow holds zero and the status is terminal.
/// (With a zero price the two coincide on terminal tasks, so exclusivity
/// is stated for priced work.)
pub proof fn lemma_escrow_status_exclusive(t: TaskRequest)
    requires
        t.wf(),
        t.amount_lamports > 0,
    ensures
        (t.escrow_lamports == t.amount_lamports) != (t.escrow_lamports == 0 && is_terminal(
            t.status,
        )),
{
}

/// The reachability law of the state machine, read off its one-step
/// relation: `Submitted` is reached only from `Open` and only while
/// `now <= deadline`; `Completed` and `Disputed` only from `Submitted`;
/// `Expired` only from `Open` and only once `now > deadline`; and no step
/// ever re-enters `Open`, so no round trip exists.
pub proof fn lemma_step_reachability(pre: TaskRequest, post: TaskRequest, now: i64)
    requires
        task_step(pre, post, now),
    ensures
        post.status is Submitted ==> pre.status is Open && now <= pre.deadline,
        post.status is Completed ==> pre.status is Submitted,
        post.status is Disputed ==> pre.status is Submitted,
        post.status is Expired ==> pre.status is Open && now > pre.deadline,
        post.status !is Open,
{
}

/// Every step of the state machine keeps a task well-formed: the escrow
/// keeps the full amount through `Submitted` and is fully disbursed by
/// every terminal edge, so a task never shows a terminal status with
/// funds still locked, nor locked funds short of the amount.
pub proof fn lemma_step_preserves_wf(pre: TaskRequest, post: TaskRequest, now: i64)
    requires
        pre.wf(),
        task_step(pre, post, now),
    ensures
        post.wf(),
{
}

/// Acceptance is not idempotent: once a task is accepted, a second
/// acceptance by the same requester is refused, and refused precisely
/// with `InvalidTaskStatus` — the completed task is no longer
/// `Submitted`, while the caller is still its requester.
pub proof fn lemma_double_accept_fails(t: TaskRequest, caller: [u8; 32])
    requires
        settlement_allowed(t, caller),
    ensures
        !settlement_allowed(accepted_task(t), caller),
        settlement_error(accepted_task(t), caller) == AgentPayError::InvalidTaskStatus,
{
}

} // verus!
