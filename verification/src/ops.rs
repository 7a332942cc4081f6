use vstd::prelude::*;

use crate::errors::AgentPayError;
use crate::state::key_eq;
use crate::state::task_step;
use crate::state::Pubkey;
use crate::state::ServiceListing;
use crate::state::TaskRequest;
use crate::state::TaskStatus;
use crate::zk::ProofVerifier;

verus! {

/// The task record a successful `create_task` produces: escrow locked to
/// the listing's price at this instant, status `Open`, no result yet.
pub open spec fn new_task(
    listing: ServiceListing,
    listing_address: Pubkey,
    requester: Pubkey,
    task_id: [u8; 16],
    description: [u8; 256],
    deadline: i64,
    now: i64,
) -> TaskRequest {
    TaskRequest {
        requester,
        provider: listing.provider,
        service_listing: listing_address,
        task_id,
        description,
        amount_lamports: listing.price_lamports,
        status: TaskStatus::Open,
        result_hash: vstd::array::spec_array_fill_for_copy_type::<u8, 32>(0u8),
        deadline,
        created_at: now,
        zk_verified: false,
        escrow_lamports: listing.price_lamports,
    }
}

/// When a result submission (plain or proof-carrying) passes the state
/// machine's own checks: the caller is the task's provider, the task is
/// still `Open`, and the deadline has not passed.
pub open spec fn submit_allowed(t: TaskRequest, caller: Pubkey, now: i64) -> bool {
    caller == t.provider && t.status is Open && now <= t.deadline
}

/// Which error a refused submission reports, checks in order: identity,
/// then status, then deadline.
pub open spec fn submit_error(t: TaskRequest, caller: Pubkey, now: i64) -> AgentPayError {
    if caller != t.provider {
        AgentPayError::UnauthorizedProvider
    } else if !(t.status is Open) {
        AgentPayError::InvalidTaskStatus
    } else {
        AgentPayError::DeadlinePassed
    }
}

/// When the requester's verdict on a submitted result (acceptance or
/// dispute) may proceed: the caller is the task's requester and the task
/// is `Submitted`.
pub open spec fn settlement_allowed(t: TaskRequest, caller: Pubkey) -> bool {
    caller == t.requester && t.status is Submitted
}

/// Which error a refused settlement reports: identity first, then status.
pub open spec fn settlement_error(t: TaskRequest, caller: Pubkey) -> AgentPayError {
    if caller != t.requester {
        AgentPayError::UnauthorizedRequester
    } else {
        AgentPayError::InvalidTaskStatus
    }
}

/// The task after acceptance: `Completed`, escrow fully disbursed.
pub open spec fn accepted_task(t: TaskRequest) -> TaskRequest {
    TaskRequest { status: TaskStatus::Completed, escrow_lamports: 0, ..t }
}

/// The task after a dispute: `Disputed`, escrow fully refunded.
pub open spec fn disputed_task(t: TaskRequest) -> TaskRequest {
    TaskRequest { status: TaskStatus::Disputed, escrow_lamports: 0, ..t }
}

/// When the permissionless expiry crank may fire: the task is still
/// `Open` and the deadline lies strictly in the past.
pub open spec fn expire_allowed(t: TaskRequest, now: i64) -> bool {
    t.status is Open && now > t.deadline
}

/// Which error a refused expiry reports: status first, then deadline.
pub open spec fn expire_error(t: TaskRequest, now: i64) -> AgentPayError {
    if !(t.status is Open) {
        AgentPayError::InvalidTaskStatus
    } else {
        AgentPayError::DeadlineNotReached
    }
}

/// The task after expiry: `Expired`, escrow fully refunded.
pub open spec fn expired_task(t: TaskRequest) -> TaskRequest {
    TaskRequest { status: TaskStatus::Expired, escrow_lamports: 0, ..t }
}

/// Registers a new service listing for `provider`, priced at
/// `price_lamports` per task, active and with no completed work yet.
///
/// The keyed store places the listing at the address derived from
/// (`provider`, `service_id`) and refuses the write if a record already
/// exists there, so the caller must pick a fresh id; that uniqueness check
/// belongs to the external store, not to the core.
pub fn register_service(
    provider: Pubkey,
    service_id: [u8; 16],
    description: [u8; 128],
    price_lamports: u64,
    min_reputation: u64,
    now: i64,
) -> (listing: ServiceListing)
    ensures
        listing == (ServiceListing {
            provider,
            service_id,
            description,
            price_lamports,
            is_active: true,
            tasks_completed: 0,
            created_at: now,
            min_reputation,
        }),
{
    ServiceListing {
        provider,
        service_id,
        description,
        price_lamports,
        is_active: true,
        tasks_completed: 0,
        created_at: now,
        min_reputation,
    }
}

/// Deactivates a listing, permanently: there is no reactivation path.
/// Only the listing's provider may do this.
pub fn deactivate_service(listing: &mut ServiceListing, caller: Pubkey) -> (r: Result<
    (),
    AgentPayError,
>)
    ensures
        caller == old(listing).provider ==> r is Ok && *final(listing) == (ServiceListing {
            is_active: false,
            ..*old(listing)
        }),
        caller != old(listing).provider ==> r == Err::<(), AgentPayError>(
            AgentPayError::UnauthorizedServiceOwner,
        ) && *final(listing) == *old(listing),
{
    if !key_eq(&caller, &listing.provider) {
        return Err(AgentPayError::UnauthorizedServiceOwner);
    }
    listing.is_active = false;
    Ok(())
}

/// Creates a task against `listing` and locks the payment in escrow, both
/// in one indivisible step: the requester's balance is debited by the
/// listing's current price exactly when the task record comes into being,
/// and not at all when any check refuses the creation.
///
/// `listing_address` is the listing's externally derived storage address,
/// kept on the task as a back-reference; the keyed store guarantees the
/// new task's own address, derived from (`requester`, `task_id`), is
/// fresh. The signer layer has authenticated `requester`.
pub fn create_task(
    listing: &ServiceListing,
    listing_address: Pubkey,
    requester: Pubkey,
    requester_balance: &mut u64,
    task_id: [u8; 16],
    description: [u8; 256],
    deadline: i64,
    now: i64,
) -> (r: Result<TaskRequest, AgentPayError>)
    ensures
        r is Ok <==> listing.is_active && deadline > now && *old(requester_balance)
            >= listing.price_lamports,
        r is Ok ==> {
            &&& r->Ok_0 == new_task(
                *listing,
                listing_address,
                requester,
                task_id,
                description,
                deadline,
                now,
            )
            &&& r->Ok_0.wf()
            &&& *final(requester_balance) == *old(requester_balance) - listing.price_lamports
        },
        !listing.is_active ==> r == Err::<TaskRequest, AgentPayError>(
            AgentPayError::ServiceNotActive,
        ),
        listing.is_active && deadline <= now ==> r == Err::<TaskRequest, AgentPayError>(
            AgentPayError::DeadlineInPast,
        ),
        listing.is_active && deadline > now && *old(requester_balance) < listing.price_lamports
            ==> r == Err::<TaskRequest, AgentPayError>(AgentPayError::InsufficientPayment),
        r is Err ==> *final(requester_balance) == *old(requester_balance),
{
    if !listing.is_active {
        return Err(AgentPayError::ServiceNotActive);
    }
    if deadline <= now {
        return Err(AgentPayError::DeadlineInPast);
    }
    let amount = listing.price_lamports;
    if *requester_balance < amount {
        return Err(AgentPayError::InsufficientPayment);
    }
    *requester_balance = *requester_balance - amount;
    Ok(
        TaskRequest {
            requester,
            provider: listing.provider,
            service_listing: listing_address,
            task_id,
            description,
            amount_lamports: amount,
            status: TaskStatus::Open,
            result_hash: [0u8; 32],
            deadline,
            created_at: now,
            zk_verified: false,
            escrow_lamports: amount,
        },
    )
}

/// Records the provider's result hash and moves the task from `Open` to
/// `Submitted`. The result data itself travels off the ledger; the hash
/// makes it verifiable. The escrow stays locked until the requester's
/// verdict. The signer layer has authenticated `caller`.
pub fn submit_result(
    task: &mut TaskRequest,
    caller: Pubkey,
    result_hash: [u8; 32],
    now: i64,
) -> (r: Result<(), AgentPayError>)
    requires
        old(task).wf(),
    ensures
        r is Ok <==> submit_allowed(*old(task), caller, now),
        r is Ok ==> *final(task) == (TaskRequest {
            status: TaskStatus::Submitted,
            result_hash,
            ..*old(task)
        }) && task_step(*old(task), *final(task), now),
        r is Err ==> r == Err::<(), AgentPayError>(submit_error(*old(task), caller, now))
            && *final(task) == *old(task),
        final(task).wf(),
{
    if !key_eq(&caller, &task.provider) {
        return Err(AgentPayError::UnauthorizedProvider);
    }
    if !matches!(task.status, TaskStatus::Open) {
        return Err(AgentPayError::InvalidTaskStatus);
    }
    if now > task.deadline {
        return Err(AgentPayError::DeadlinePassed);
    }
    task.result_hash = result_hash;
    task.status = TaskStatus::Submitted;
    Ok(())
}

/// Records a proof-carrying result: the provider proves knowledge of the
/// result pre-image, with the result hash as the sole public input, and
/// the task moves to `Submitted` with `zk_verified` set. A rejected proof
/// refuses the whole submission and leaves the task untouched — the
/// transition is all-or-nothing. The signer layer has authenticated
/// `caller`.
pub fn submit_result_zk<V: ProofVerifier>(
    task: &mut TaskRequest,
    caller: Pubkey,
    checker: &V,
    proof_a: [u8; 64],
    proof_b: [u8; 128],
    proof_c: [u8; 64],
    result_hash: [u8; 32],
    now: i64,
) -> (r: Result<(), AgentPayError>)
    requires
        old(task).wf(),
    ensures
        r is Ok <==> submit_allowed(*old(task), caller, now) && checker.accepts(
            proof_a@,
            proof_b@,
            proof_c@,
            seq![result_hash],
        ),
        r is Ok ==> *final(task) == (TaskRequest {
            status: TaskStatus::Submitted,
            result_hash,
            zk_verified: true,
            ..*old(task)
        }) && task_step(*old(task), *final(task), now),
        !submit_allowed(*old(task), caller, now) ==> r == Err::<(), AgentPayError>(
            submit_error(*old(task), caller, now),
        ),
        submit_allowed(*old(task), caller, now) && !checker.accepts(
            proof_a@,
            proof_b@,
            proof_c@,
            seq![result_hash],
        ) ==> r == Err::<(), AgentPayError>(AgentPayError::ZkProofVerificationFailed),
        r is Err ==> *final(task) == *old(task),
        final(task).wf(),
{
    if !key_eq(&caller, &task.provider) {
        return Err(AgentPayError::UnauthorizedProvider);
    }
    if !matches!(task.status, TaskStatus::Open) {
        return Err(AgentPayError::InvalidTaskStatus);
    }
    if now > task.deadline {
        return Err(AgentPayError::DeadlinePassed);
    }
    let mut public_inputs: Vec<[u8; 32]> = Vec::new();
    public_inputs.push(result_hash);
    proof {
        assert(public_inputs@ =~= seq![result_hash]);
    }
    if !checker.verify(&proof_a, &proof_b, &proof_c, &public_inputs) {
        return Err(AgentPayError::ZkProofVerificationFailed);
    }
    task.result_hash = result_hash;
    task.status = TaskStatus::Submitted;
    task.zk_verified = true;
    Ok(())
}

/// The requester accepts the submitted result: the task completes and its
/// escrow moves to the provider's wallet in the same step, and the
/// listing's completed-task counter rises by one. `listing` is the task's
/// originating listing, located by the external store, so its provider is
/// the task's. The signer layer has authenticated `caller`.
///
/// Counter or wallet overflow would be a fatal condition, not a silent
/// wrap, so a successful call requires room for both.
pub fn accept_result(
    task: &mut TaskRequest,
    listing: &mut ServiceListing,
    provider_balance: &mut u64,
    caller: Pubkey,
) -> (r: Result<(), AgentPayError>)
    requires
        old(task).wf(),
        old(listing).provider == old(task).provider,
        settlement_allowed(*old(task), caller) ==> old(listing).tasks_completed < u64::MAX
            && *old(provider_balance) + old(task).amount_lamports <= u64::MAX,
    ensures
        r is Ok <==> settlement_allowed(*old(task), caller),
        r is Ok ==> {
            &&& *final(task) == accepted_task(*old(task))
            &&& *final(provider_balance) == *old(provider_balance) + old(task).amount_lamports
            &&& *final(listing) == (ServiceListing {
                tasks_completed: (old(listing).tasks_completed + 1) as u64,
                ..*old(listing)
            })
            &&& forall|n: i64| task_step(*old(task), *final(task), n)
        },
        r is Err ==> r == Err::<(), AgentPayError>(settlement_error(*old(task), caller))
            && *final(task) == *old(task) && *final(listing) == *old(listing)
            && *final(provider_balance) == *old(provider_balance),
        final(task).wf(),
{
    if !key_eq(&caller, &task.requester) {
        return Err(AgentPayError::UnauthorizedRequester);
    }
    if !matches!(task.status, TaskStatus::Submitted) {
        return Err(AgentPayError::InvalidTaskStatus);
    }
    let amount = task.amount_lamports;
    task.status = TaskStatus::Completed;
    task.escrow_lamports = task.escrow_lamports - amount;
    *provider_balance = *provider_balance + amount;
    listing.tasks_completed = listing.tasks_completed + 1;
    Ok(())
}

/// The requester disputes the submitted result: the task closes as
/// `Disputed` and its escrow returns to the requester's wallet in the
/// same step — a single-step unconditional refund, not an adjudication.
/// The signer layer has authenticated `caller`.
pub fn dispute_task(
    task: &mut TaskRequest,
    requester_balance: &mut u64,
    caller: Pubkey,
) -> (r: Result<(), AgentPayError>)
    requires
        old(task).wf(),
        settlement_allowed(*old(task), caller) ==> *old(requester_balance) + old(
            task,
        ).amount_lamports <= u64::MAX,
    ensures
        r is Ok <==> settlement_allowed(*old(task), caller),
        r is Ok ==> {
            &&& *final(task) == disputed_task(*old(task))
            &&& *final(requester_balance) == *old(requester_balance) + old(task).amount_lamports
            &&& forall|n: i64| task_step(*old(task), *final(task), n)
        },
        r is Err ==> r == Err::<(), AgentPayError>(settlement_error(*old(task), caller))
            && *final(task) == *old(task) && *final(requester_balance) == *old(requester_balance),
        final(task).wf(),
{
    if !key_eq(&caller, &task.requester) {
        return Err(AgentPayError::UnauthorizedRequester);
    }
    if !matches!(task.status, TaskStatus::Submitted) {
        return Err(AgentPayError::InvalidTaskStatus);
    }
    let amount = task.amount_lamports;
    task.status = TaskStatus::Disputed;
    task.escrow_lamports = task.escrow_lamports - amount;
    *requester_balance = *requester_balance + amount;
    Ok(())
}

/// Expires a task whose deadline passed with no result: the task closes
/// as `Expired` and its escrow returns to the requester's wallet in the
/// same step. Permissionless: any party may turn this crank, so an
/// unresponsive provider cannot strand the requester's funds.
/// `requester_balance` is the wallet of the task's own requester, located
/// by the external store.
pub fn expire_task(
    task: &mut TaskRequest,
    requester_balance: &mut u64,
    now: i64,
) -> (r: Result<(), AgentPayError>)
    requires
        old(task).wf(),
        expire_allowed(*old(task), now) ==> *old(requester_balance) + old(task).amount_lamports
            <= u64::MAX,
    ensures
        r is Ok <==> expire_allowed(*old(task), now),
        r is Ok ==> {
            &&& *final(task) == expired_task(*old(task))
            &&& *final(requester_balance) == *old(requester_balance) + old(task).amount_lamports
            &&& task_step(*old(task), *final(task), now)
        },
        r is Err ==> r == Err::<(), AgentPayError>(expire_error(*old(task), now)) && *final(task)
            == *old(task) && *final(requester_balance) == *old(requester_balance),
        final(task).wf(),
{
    if !matches!(task.status, TaskStatus::Open) {
        return Err(AgentPayError::InvalidTaskStatus);
    }
    if now <= task.deadline {
        return Err(AgentPayError::DeadlineNotReached);
    }
    let amount = task.amount_lamports;
    task.status = TaskStatus::Expired;
    task.escrow_lamports = task.escrow_lamports - amount;
    *requester_balance = *requester_balance + amount;
    Ok(())
}

/// Checks a provider's reputation claim against an active listing: the
/// proof, with public inputs `[threshold, provider_commitment]`, shows
/// the provider's reputation meets the threshold without revealing the
/// score. Advisory and off-path: it reads the listing, mutates nothing,
/// and task creation does not itself demand it — a requester who skips
/// this call can still create a task against a listing with a minimum
/// set.
pub fn verify_reputation<V: ProofVerifier>(
    listing: &ServiceListing,
    checker: &V,
    proof_a: [u8; 64],
    proof_b: [u8; 128],
    proof_c: [u8; 64],
    threshold: [u8; 32],
    provider_commitment: [u8; 32],
) -> (r: Result<(), AgentPayError>)
    ensures
        r is Ok <==> listing.is_active && checker.accepts(
            proof_a@,
            proof_b@,
            proof_c@,
            seq![threshold, provider_commitment],
        ),
        !listing.is_active ==> r == Err::<(), AgentPayError>(AgentPayError::ServiceNotActive),
        listing.is_active && !checker.accepts(
            proof_a@,
            proof_b@,
            proof_c@,
            seq![threshold, provider_commitment],
        ) ==> r == Err::<(), AgentPayError>(AgentPayError::ReputationTooLow),
{
    if !listing.is_active {
        return Err(AgentPayError::ServiceNotActive);
    }
    let mut public_inputs: Vec<[u8; 32]> = Vec::new();
    public_inputs.push(threshold);
    public_inputs.push(provider_commitment);
    proof {
        assert(public_inputs@ =~= seq![threshold, provider_commitment]);
    }
    if !checker.verify(&proof_a, &proof_b, &proof_c, &public_inputs) {
        return Err(AgentPayError::ReputationTooLow);
    }
    Ok(())
}

} // verus!
