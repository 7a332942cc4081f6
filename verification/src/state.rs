use vstd::prelude::*;

verus! {

/// An identity on the ledger: a wallet or record address. Addresses of
/// stored records are derived externally from a namespace tag, the owning
/// identity, and a caller-chosen id; the core only carries them.
pub type Pubkey = [u8; 32];

/// A service offer, one per (provider, service_id). Its storage address is
/// derived from that pair, so no two listings can collide; the keyed store
/// enforcing that uniqueness is an external collaborator.
#[derive(Clone, Copy, Debug)]
pub struct ServiceListing {
    /// The wallet of the party providing this service. Immutable.
    pub provider: Pubkey,
    /// Caller-chosen identifier, unique per provider. Immutable.
    pub service_id: [u8; 16],
    /// Fixed-capacity description blob, opaque to the core.
    pub description: [u8; 128],
    /// Cost per task in lamports, captured into each task at creation.
    pub price_lamports: u64,
    /// Whether new tasks may be created against this listing. Once false,
    /// there is no path back to true.
    pub is_active: bool,
    /// Number of tasks successfully completed; a public reputation signal.
    pub tasks_completed: u64,
    /// Creation timestamp. Immutable.
    pub created_at: i64,
    /// Minimum reputation a requester may demand proof of (0 = disabled).
    /// Advisory: task creation itself does not consult it.
    pub min_reputation: u64,
}

/// Where a task stands in its lifecycle.
#[derive(Clone, Copy, Debug, PartialEq, Eq, Structural)]
pub enum TaskStatus {
    /// Created and escrow locked; waiting for the provider's result.
    Open,
    /// Provider submitted a result; waiting for the requester's verdict.
    Submitted,
    /// Requester accepted; escrow released to the provider. Terminal.
    Completed,
    /// Requester disputed; escrow refunded to the requester. Terminal.
    Disputed,
    /// Deadline passed with no result; escrow refunded. Terminal.
    Expired,
}

/// A paid unit of work, one per (requester, task_id). The task record is
/// itself the escrow account: `escrow_lamports` is the balance it holds.
#[derive(Clone, Copy, Debug)]
pub struct TaskRequest {
    /// The paying party. Immutable.
    pub requester: Pubkey,
    /// The working party, copied from the listing at creation. Immutable.
    pub provider: Pubkey,
    /// Address of the originating listing (non-owning back-reference).
    pub service_listing: Pubkey,
    /// Caller-chosen identifier, unique per requester. Immutable.
    pub task_id: [u8; 16],
    /// Fixed-capacity description blob, opaque to the core.
    pub description: [u8; 256],
    /// The escrowed payment, fixed at creation to the listing's price.
    pub amount_lamports: u64,
    /// Current state-machine position.
    pub status: TaskStatus,
    /// Content hash of the delivered result; all zero until submission.
    pub result_hash: [u8; 32],
    /// Absolute timestamp after which the provider may no longer submit.
    pub deadline: i64,
    /// Creation timestamp. Immutable.
    pub created_at: i64,
    /// Whether the submission that produced `Submitted` carried a proof
    /// that passed cryptographic verification.
    pub zk_verified: bool,
    /// The balance the task record holds in escrow.
    pub escrow_lamports: u64,
}

/// True of the states from which no further transition exists.
pub open spec fn is_terminal(s: TaskStatus) -> bool {
    s is Completed || s is Disputed || s is Expired
}

/// True when every byte of `h` is zero.
pub open spec fn all_zero(h: Seq<u8>) -> bool {
    forall|i: int| 0 <= i < h.len() ==> h[i] == 0
}

impl TaskRequest {
    /// Well-formedness: escrow and status never disagree. The escrow holds
    /// exactly `amount_lamports` until a terminal transition disburses it
    /// in full, and an `Open` task has no result recorded yet.
    pub open spec fn wf(self) -> bool {
        &&& if is_terminal(self.status) {
                self.escrow_lamports == 0
            } else {
                self.escrow_lamports == self.amount_lamports
            }
        &&& self.status is Open ==> all_zero(self.result_hash@) && !self.zk_verified
    }
}

/// The fields no transition may touch: identities, ids, the escrowed
/// amount, the deadline, and the creation time are fixed at creation.
pub open spec fn task_frame(pre: TaskRequest, post: TaskRequest) -> bool {
    &&& post.requester == pre.requester
    &&& post.provider == pre.provider
    &&& post.service_listing == pre.service_listing
    &&& post.task_id == pre.task_id
    &&& post.description == pre.description
    &&& post.amount_lamports == pre.amount_lamports
    &&& post.deadline == pre.deadline
    &&& post.created_at == pre.created_at
}

/// The complete one-step transition relation of the task state machine at
/// time `now`. A successful mutating operation takes the task from `pre`
/// to `post` only along one of these four edges; no edge re-enters `Open`.
pub open spec fn task_step(pre: TaskRequest, post: TaskRequest, now: i64) -> bool {
    &&& task_frame(pre, post)
    &&& {
        ||| (pre.status is Open && now <= pre.deadline && post.status is Submitted
                && post.escrow_lamports == pre.escrow_lamports)
        ||| (pre.status is Submitted && post.status is Completed && post.escrow_lamports == 0)
        ||| (pre.status is Submitted && post.status is Disputed && post.escrow_lamports == 0)
        ||| (pre.status is Open && now > pre.deadline && post.status is Expired
                && post.escrow_lamports == 0)
    }
}

/// Byte-for-byte comparison of two ledger identities.
pub fn key_eq(a: &Pubkey, b: &Pubkey) -> (r: bool)
    ensures
        r == (*a == *b),
{
    let mut i: usize = 0;
    while i < 32
        invariant
            0 <= i <= 32,
            forall|j: int| 0 <= j < i ==> a@[j] == b@[j],
        decreases 32 - i,
    {
        if a[i] != b[i] {
            proof {
                assert(a@[i as int] != b@[i as int]);
                assert(*a != *b);
            }
            return false;
        }
        i += 1;
    }
    proof {
        assert(*a =~= *b);
    }
    true
}

} // verus!
