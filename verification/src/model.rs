//! The account model: pools, reward sub-pools, the registry that resolves a
//! pool identity to its record, and the request and error types of the
//! engine's interface.

use vstd::prelude::*;

verus! {

/// One weighting bucket inside a pool.
///
/// `forfeitable_balance` bounds the tokens that may still be penalized out
/// of this sub-pool; it is tracked independently of the vault's raw balance,
/// since one vault may back several sub-pools.
#[derive(Clone, Copy, PartialEq, Eq, Structural, Debug)]
pub struct SubPool {
    /// Position of this sub-pool inside `Pool::reward_pools`.
    pub index: usize,
    /// Whether accrual currently uses the maximum weight.
    pub is_locked: bool,
    /// Upper bound on tokens that may be penalized out of this sub-pool.
    pub forfeitable_balance: u64,
}

/// The central custody record: a vault, the mint it holds, an administrator
/// and a fixed ordered sequence of reward sub-pools.
#[derive(Debug)]
pub struct Pool {
    /// Unique, stable identifier; seed material for authority derivation.
    pub identity: u64,
    /// The single custodial account holding the pooled tokens.
    pub vault_ref: u64,
    /// The token type the vault holds.
    pub mint_ref: u64,
    /// The identity permitted to invoke penalty and release actions.
    pub admin: u64,
    /// The reward sub-pools, in index order.
    pub reward_pools: Vec<SubPool>,
}

impl Pool {
    /// Each sub-pool records its own position in the sequence.
    pub open spec fn wf(self) -> bool {
        forall|i: int|
            0 <= i < self.reward_pools@.len() ==> (#[trigger] self.reward_pools@[i]).index as int
                == i
    }
}

/// The set of pool records, resolvable by identity.
#[derive(Debug)]
pub struct Registry {
    pub pools: Vec<Pool>,
}

impl Registry {
    /// Every pool is well formed and identities are unique, so a pool
    /// identity resolves to at most one record.
    pub open spec fn wf(self) -> bool {
        &&& forall|i: int| 0 <= i < self.pools@.len() ==> (#[trigger] self.pools@[i]).wf()
        &&& forall|i: int, j: int|
            0 <= i < j < self.pools@.len() ==> (#[trigger] self.pools@[i]).identity != (
            #[trigger] self.pools@[j]).identity
    }

    /// Whether some pool in the registry carries `identity`.
    pub open spec fn has_pool(self, identity: u64) -> bool {
        exists|i: int|
            0 <= i < self.pools@.len() && (#[trigger] self.pools@[i]).identity == identity
    }

    /// The slot of the pool carrying `identity` (unique when `wf()` holds).
    pub open spec fn slot_of(self, identity: u64) -> int {
        choose|i: int|
            0 <= i < self.pools@.len() && (#[trigger] self.pools@[i]).identity == identity
    }

    /// The pool record carrying `identity`.
    pub open spec fn pool_of(self, identity: u64) -> Pool {
        self.pools@[self.slot_of(identity)]
    }

    /// Resolves a pool identity to its slot, or `None` when no pool in the
    /// registry carries it.
    pub fn find(&self, identity: u64) -> (r: Option<usize>)
        requires
            self.wf(),
        ensures
            match r {
                Some(slot) => {
                    &&& (slot as int) < self.pools@.len()
                    &&& self.pools@[slot as int].identity == identity
                    &&& slot as int == self.slot_of(identity)
                    &&& self.has_pool(identity)
                },
                None => !self.has_pool(identity),
            },
    {
        let n = self.pools.len();
        let mut i: usize = 0;
        while i < n
            invariant
                self.wf(),
                n == self.pools@.len(),
                i <= n,
                forall|k: int| 0 <= k < i ==> (#[trigger] self.pools@[k]).identity != identity,
            decreases n - i,
        {
            if self.pools[i].identity == identity {
                proof {
                    assert(self.has_pool(identity));
                    let j = self.slot_of(identity);
                    if j < i as int {
                        assert(self.pools@[j].identity != self.pools@[i as int].identity);
                    }
                    if j > i as int {
                        assert(self.pools@[i as int].identity != self.pools@[j].identity);
                    }
                }
                return Some(i);
            }
            i += 1;
        }
        None
    }
}

/// The closed set of actions a caller may select.  The caller never supplies
/// a raw lock value: the lock state after a successful action is a function
/// of the action type alone.
#[derive(Clone, Copy, PartialEq, Eq, Structural, Debug)]
pub enum Action {
    /// Penalize a sub-pool: lock it, reserve the amount against its
    /// forfeitable balance, and move the amount out of the vault.
    Penalty,
    /// Administratively unlock a sub-pool; moves no funds.
    Release,
}

/// The lock state a successful action of this type always produces.
pub open spec fn target_lock_state(action: Action) -> bool {
    match action {
        Action::Penalty => true,
        Action::Release => false,
    }
}

/// Whether the action type permits crediting the pool's own vault.  A
/// same-vault credit must be an intentional, documented branch; no action in
/// the current set permits it, so a request whose destination equals the
/// vault is always rejected.
pub open spec fn permits_self_credit(action: Action) -> bool {
    match action {
        Action::Penalty => false,
        Action::Release => false,
    }
}

/// Executable twin of `permits_self_credit`, for the validator's
/// destination check.
pub fn action_permits_self_credit(action: Action) -> (b: bool)
    ensures
        b == permits_self_credit(action),
{
    match action {
        Action::Penalty => false,
        Action::Release => false,
    }
}

/// An inbound request.  All fields are mandatory; none is trusted for an
/// authorization decision before validation.
#[derive(Clone, Copy, PartialEq, Eq, Structural, Debug)]
pub struct PenaltyRequest {
    /// Identity of the pool the request targets.
    pub pool_identity: u64,
    /// The vault the caller claims the pool owns; must match the record.
    pub vault: u64,
    /// The mint the caller claims the vault holds; must match the record.
    pub mint: u64,
    /// The identity making the request.
    pub caller: u64,
    /// Index of the targeted sub-pool.
    pub pool_index: usize,
    /// Amount to penalize, in tokens.
    pub amount: u64,
    /// Account to receive the penalized tokens.
    pub destination: u64,
    /// The requested action, from the closed set.
    pub action: Action,
}

/// Rejections detected before any state is mutated.
#[derive(Clone, Copy, PartialEq, Eq, Structural, Debug)]
pub enum AuthError {
    /// No pool in the registry carries the requested identity.
    UnknownPool,
    /// The request's vault is not the pool's vault.
    VaultMismatch,
    /// The request's mint is not the pool's mint.
    MintMismatch,
    /// The caller lacks the capability the action requires.
    Unauthorized,
    /// The sub-pool index is not below the pool's sub-pool count.
    IndexOutOfRange,
    /// The destination is the pool's own vault and the action does not
    /// permit a same-vault credit.
    InvalidDestination,
}

/// Failures of the execution stage.
#[derive(Clone, Copy, PartialEq, Eq, Structural, Debug)]
pub enum ExecError {
    /// The requested amount exceeds the sub-pool's forfeitable balance; no
    /// state was changed.
    InsufficientForfeitable,
    /// The external transfer primitive failed after the reservation; the
    /// reservation was rolled back.
    TransferFailed,
}

/// Returned on success: what was moved and the lock state left behind.
#[derive(Clone, Copy, PartialEq, Eq, Structural, Debug)]
pub struct TransferReceipt {
    pub pool_identity: u64,
    pub pool_index: usize,
    pub amount: u64,
    pub new_lock_state: bool,
}

} // verus!
