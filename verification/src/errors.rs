use vstd::prelude::*;

verus! {

/// Every way a marketplace operation can be refused. All of these signal a
/// caller or precondition violation, never a transient fault: an operation
/// that returns one of them has made no change to any record or balance.
#[derive(Clone, Copy, Debug, PartialEq, Eq, Structural)]
pub enum AgentPayError {
    /// The referenced service listing has been deactivated.
    ServiceNotActive,
    /// The offered payment is below the service price. Reserved: payment is
    /// currently computed from the listing, so no operation returns it yet
    /// for a client-supplied amount; it also reports a failed escrow debit.
    InsufficientPayment,
    /// The task is not in the status the transition requires.
    InvalidTaskStatus,
    /// Only the task's requester may perform this action.
    UnauthorizedRequester,
    /// Only the task's provider may perform this action.
    UnauthorizedProvider,
    /// Only the listing's provider may perform this action.
    UnauthorizedServiceOwner,
    /// The task deadline has not passed yet.
    DeadlineNotReached,
    /// The task deadline has already passed.
    DeadlinePassed,
    /// A description exceeds its fixed capacity. Reserved: descriptions are
    /// fixed-width blobs here, so no operation returns it.
    DescriptionTooLong,
    /// A new task's deadline must lie strictly in the future.
    DeadlineInPast,
    /// The zero-knowledge proof accompanying a submission was rejected.
    ZkProofVerificationFailed,
    /// The provider's proven reputation does not meet the threshold.
    ReputationTooLow,
}

} // verus!
