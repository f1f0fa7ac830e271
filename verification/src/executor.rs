//! The penalty/transfer executor and the reward-pool state machine.
//!
//! A validated penalty runs in two steps around the external transfer
//! primitive, which the engine never performs itself.  `prepare_transfer`
//! re-checks the amount against the sub-pool's forfeitable balance,
//! transitions the sub-pool to its locked state, reserves the amount, and
//! emits the signed transfer instruction.  The caller invokes the external
//! primitive with exactly that instruction and reports its outcome to
//! `complete_transfer`, which either returns the receipt or rolls the
//! reservation back so the sub-pool is restored to its pre-request state.
//! `execute` composes the two around a caller-supplied transfer primitive
//! and carries the whole atomicity contract: the penalty takes effect as
//! reserved, or the custody state is exactly what it was before.
//! A release action needs no transfer and is applied in one step.

use vstd::prelude::*;

use crate::authority::{DerivedAuthority, Engine};
use crate::model::{
    target_lock_state, Action, ExecError, Registry, SubPool, TransferReceipt,
};
use crate::validate::ValidatedRequest;

verus! {

/// The outbound invocation of the external transfer primitive: move
/// `amount` tokens from the pool's vault to the destination, signed by the
/// derived authority.  No raw secret appears here, only the opaque
/// authority proof.
#[derive(Clone, Copy, PartialEq, Eq, Structural)]
pub struct TransferInstruction {
    pub source: u64,
    pub destination: u64,
    pub amount: u64,
    pub authority: DerivedAuthority,
}

/// A reservation made by `prepare_transfer`, waiting for the outcome of
/// the external transfer primitive.  The fields are private and the type
/// is not clonable: the only way to settle a reservation is to hand it
/// back to `complete_transfer`, exactly once.
pub struct PendingTransfer {
    pool_slot: usize,
    pool_identity: u64,
    pool_index: usize,
    amount: u64,
    prior_locked: bool,
    instruction: TransferInstruction,
}

impl PendingTransfer {
    pub closed spec fn pool_slot_spec(self) -> int {
        self.pool_slot as int
    }

    pub closed spec fn pool_identity_spec(self) -> u64 {
        self.pool_identity
    }

    pub closed spec fn pool_index_spec(self) -> int {
        self.pool_index as int
    }

    pub closed spec fn amount_spec(self) -> u64 {
        self.amount
    }

    /// The sub-pool's lock state before the reservation, kept for rollback.
    pub closed spec fn prior_locked_spec(self) -> bool {
        self.prior_locked
    }

    pub closed spec fn instruction_spec(self) -> TransferInstruction {
        self.instruction
    }

    /// The instruction to hand to the external transfer primitive.
    pub fn instruction(&self) -> (ins: &TransferInstruction)
        ensures
            *ins == self.instruction_spec(),
    {
        &self.instruction
    }

    pub fn pool_identity(&self) -> (id: u64)
        ensures
            id == self.pool_identity_spec(),
    {
        self.pool_identity
    }

    pub fn pool_index(&self) -> (i: usize)
        ensures
            i as int == self.pool_index_spec(),
    {
        self.pool_index
    }

    pub fn amount(&self) -> (a: u64)
        ensures
            a == self.amount_spec(),
    {
        self.amount
    }
}

/// The sub-pool at `reg.pools[slot].reward_pools[idx]`.
pub open spec fn sub_at(reg: Registry, slot: int, idx: int) -> SubPool {
    reg.pools@[slot].reward_pools@[idx]
}

/// Everything outside the targeted sub-pool is unchanged from `r0` to
/// `r1`, and the targeted sub-pool keeps its index.
pub open spec fn frame_except(r0: Registry, r1: Registry, slot: int, idx: int) -> bool {
    &&& 0 <= slot < r0.pools@.len()
    &&& r1.pools@.len() == r0.pools@.len()
    &&& 0 <= idx < r0.pools@[slot].reward_pools@.len()
    &&& r1.pools@[slot].reward_pools@.len() == r0.pools@[slot].reward_pools@.len()
    &&& (forall|p: int|
        #![trigger r0.pools@[p]]
        #![trigger r1.pools@[p]]
        0 <= p < r0.pools@.len() && p != slot ==> r1.pools@[p] == r0.pools@[p])
    &&& r1.pools@[slot].identity == r0.pools@[slot].identity
    &&& r1.pools@[slot].vault_ref == r0.pools@[slot].vault_ref
    &&& r1.pools@[slot].mint_ref == r0.pools@[slot].mint_ref
    &&& r1.pools@[slot].admin == r0.pools@[slot].admin
    &&& (forall|k: int|
        #![trigger sub_at(r0, slot, k)]
        #![trigger sub_at(r1, slot, k)]
        0 <= k < r0.pools@[slot].reward_pools@.len() && k != idx ==> sub_at(r1, slot, k) == sub_at(
            r0,
            slot,
            k,
        ))
    &&& sub_at(r1, slot, idx).index == sub_at(r0, slot, idx).index
}

/// A successful penalty reservation: the targeted sub-pool is locked and
/// its forfeitable balance decreased by exactly `amount`; `prior_locked`
/// records the lock state it had before; nothing else changed.
pub open spec fn sub_pool_reserved(
    r0: Registry,
    r1: Registry,
    slot: int,
    idx: int,
    amount: u64,
    prior_locked: bool,
) -> bool {
    &&& frame_except(r0, r1, slot, idx)
    &&& amount <= sub_at(r0, slot, idx).forfeitable_balance
    &&& sub_at(r1, slot, idx).is_locked == true
    &&& sub_at(r1, slot, idx).forfeitable_balance == sub_at(r0, slot, idx).forfeitable_balance
        - amount
    &&& prior_locked == sub_at(r0, slot, idx).is_locked
}

/// A rolled-back reservation: the targeted sub-pool's lock state is put
/// back to `prior_locked` and its forfeitable balance increased by exactly
/// `amount`; nothing else changed.
pub open spec fn sub_pool_restored(
    r1: Registry,
    r2: Registry,
    slot: int,
    idx: int,
    amount: u64,
    prior_locked: bool,
) -> bool {
    &&& frame_except(r1, r2, slot, idx)
    &&& sub_at(r1, slot, idx).forfeitable_balance + amount <= u64::MAX
    &&& sub_at(r2, slot, idx).is_locked == prior_locked
    &&& sub_at(r2, slot, idx).forfeitable_balance == sub_at(r1, slot, idx).forfeitable_balance
        + amount
}

/// A release: the targeted sub-pool is unlocked, its forfeitable balance
/// untouched; nothing else changed.
pub open spec fn sub_pool_released(r0: Registry, r1: Registry, slot: int, idx: int) -> bool {
    &&& frame_except(r0, r1, slot, idx)
    &&& sub_at(r1, slot, idx).is_locked == false
    &&& sub_at(r1, slot, idx).forfeitable_balance == sub_at(r0, slot, idx).forfeitable_balance
}

/// The two registries hold the same custody state: the same pools, slot
/// for slot, with equal bindings and equal sub-pool sequences.
pub open spec fn same_custody_state(a: Registry, b: Registry) -> bool {
    &&& a.pools@.len() == b.pools@.len()
    &&& (forall|p: int|
        #![trigger a.pools@[p]]
        #![trigger b.pools@[p]]
        0 <= p < a.pools@.len() ==> {
            &&& a.pools@[p].identity == b.pools@[p].identity
            &&& a.pools@[p].vault_ref == b.pools@[p].vault_ref
            &&& a.pools@[p].mint_ref == b.pools@[p].mint_ref
            &&& a.pools@[p].admin == b.pools@[p].admin
            &&& a.pools@[p].reward_pools@ == b.pools@[p].reward_pools@
        })
}

/// A step that leaves the frame intact preserves the registry's
/// well-formedness.
pub proof fn lemma_frame_preserves_wf(r0: Registry, r1: Registry, slot: int, idx: int)
    requires
        r0.wf(),
        frame_except(r0, r1, slot, idx),
    ensures
        r1.wf(),
{
    assert forall|i: int| 0 <= i < r1.pools@.len() implies (#[trigger] r1.pools@[i]).wf() by {
        if i == slot {
            let p0 = r0.pools@[slot];
            let p1 = r1.pools@[slot];
            assert(p0.wf());
            assert forall|k: int|
                0 <= k < p1.reward_pools@.len() implies (#[trigger] p1.reward_pools@[k]).index
                as int == k by {
                assert(p1.reward_pools@[k] == sub_at(r1, slot, k));
                if k != idx {
                    assert(sub_at(r1, slot, k) == sub_at(r0, slot, k));
                } else {
                    assert(sub_at(r1, slot, idx).index == sub_at(r0, slot, idx).index);
                }
                assert(p0.reward_pools@[k].index as int == k);
            }
        } else {
            assert(r1.pools@[i] == r0.pools@[i]);
            assert(r0.pools@[i].wf());
        }
    }
    assert forall|i: int, j: int|
        0 <= i < j < r1.pools@.len() implies (#[trigger] r1.pools@[i]).identity != (
    #[trigger] r1.pools@[j]).identity by {
        assert(r1.pools@[i].identity == r0.pools@[i].identity);
        assert(r1.pools@[j].identity == r0.pools@[j].identity);
        assert(r0.pools@[i].identity != r0.pools@[j].identity);
    }
}

/// Reserves a validated penalty: re-checks the amount against the
/// sub-pool's forfeitable balance at the moment of use, locks the
/// sub-pool, decrements the balance by exactly the amount, and emits the
/// transfer instruction — funded by the pool's vault, for exactly the
/// validated amount, signed by the authority derived for the pool.  When
/// the amount exceeds the forfeitable balance, nothing changes and
/// `InsufficientForfeitable` is returned.
pub fn prepare_transfer(engine: &Engine, reg: &mut Registry, v: &ValidatedRequest) -> (r: Result<
    PendingTransfer,
    ExecError,
>)
    requires
        old(reg).wf(),
        v.valid_for(*old(reg)),
        v.action == Action::Penalty,
    ensures
        final(reg).wf(),
        r is Ok <==> v.amount <= sub_at(*old(reg), v.pool_slot as int, v.pool_index as int).forfeitable_balance,
        r is Err ==> r == Err::<PendingTransfer, ExecError>(ExecError::InsufficientForfeitable)
            && *final(reg) == *old(reg),
        r is Ok ==> {
            let p = r->Ok_0;
            &&& sub_pool_reserved(
                *old(reg),
                *final(reg),
                v.pool_slot as int,
                v.pool_index as int,
                v.amount,
                p.prior_locked_spec(),
            )
            &&& p.pool_slot_spec() == v.pool_slot as int
            &&& p.pool_identity_spec() == v.pool_identity
            &&& p.pool_index_spec() == v.pool_index as int
            &&& p.amount_spec() == v.amount
            &&& p.instruction_spec().source == old(reg).pools@[v.pool_slot as int].vault_ref
            &&& p.instruction_spec().destination == v.destination
            &&& p.instruction_spec().amount == v.amount
            &&& p.instruction_spec().authority == engine.authority_of(v.pool_identity)
        },
{
    let slot = v.pool_slot;
    let idx = v.pool_index;
    if v.amount > balance_at(reg, slot, idx) {
        return Err(ExecError::InsufficientForfeitable);
    }
    let authority = engine.authority_for(v.pool_identity);
    let prior: SubPool = reg.pools[slot].reward_pools[idx];
    let remaining = prior.forfeitable_balance - v.amount;
    let pool = &mut reg.pools[slot];
    pool.reward_pools[idx] = SubPool {
        index: prior.index,
        is_locked: true,
        forfeitable_balance: remaining,
    };
    let instruction = TransferInstruction {
        source: pool.vault_ref,
        destination: v.destination,
        amount: v.amount,
        authority,
    };
    proof {
        lemma_frame_preserves_wf(*old(reg), *reg, slot as int, idx as int);
    }
    Ok(
        PendingTransfer {
            pool_slot: slot,
            pool_identity: v.pool_identity,
            pool_index: idx,
            amount: v.amount,
            prior_locked: prior.is_locked,
            instruction,
        },
    )
}

/// Reads a sub-pool's forfeitable balance without touching the registry.
fn balance_at(reg: &Registry, slot: usize, idx: usize) -> (b: u64)
    requires
        (slot as int) < reg.pools@.len(),
        (idx as int) < reg.pools@[slot as int].reward_pools@.len(),
    ensures
        b == sub_at(*reg, slot as int, idx as int).forfeitable_balance,
{
    reg.pools[slot].reward_pools[idx].forfeitable_balance
}

/// Settles a reservation with the outcome of the external transfer
/// primitive.  On success the state stands as reserved and the receipt is
/// returned; on failure the reservation is rolled back — the sub-pool's
/// lock state and forfeitable balance are restored exactly — and
/// `TransferFailed` is returned.
pub fn complete_transfer(reg: &mut Registry, pending: PendingTransfer, transfer_ok: bool) -> (r:
    Result<TransferReceipt, ExecError>)
    requires
        old(reg).wf(),
        pending.pool_slot_spec() < old(reg).pools@.len(),
        old(reg).pools@[pending.pool_slot_spec()].identity == pending.pool_identity_spec(),
        pending.pool_index_spec() < old(reg).pools@[pending.pool_slot_spec()].reward_pools@.len(),
        sub_at(*old(reg), pending.pool_slot_spec(), pending.pool_index_spec()).forfeitable_balance
            + pending.amount_spec() <= u64::MAX,
    ensures
        final(reg).wf(),
        transfer_ok ==> *final(reg) == *old(reg),
        transfer_ok ==> {
            &&& r is Ok
            &&& r->Ok_0.pool_identity == pending.pool_identity_spec()
            &&& r->Ok_0.pool_index as int == pending.pool_index_spec()
            &&& r->Ok_0.amount == pending.amount_spec()
            &&& r->Ok_0.new_lock_state == sub_at(
                *old(reg),
                pending.pool_slot_spec(),
                pending.pool_index_spec(),
            ).is_locked
        },
        !transfer_ok ==> r == Err::<TransferReceipt, ExecError>(ExecError::TransferFailed)
            && sub_pool_restored(
            *old(reg),
            *final(reg),
            pending.pool_slot_spec(),
            pending.pool_index_spec(),
            pending.amount_spec(),
            pending.prior_locked_spec(),
        ),
{
    let slot = pending.pool_slot;
    let idx = pending.pool_index;
    if transfer_ok {
        let locked = reg.pools[slot].reward_pools[idx].is_locked;
        Ok(
            TransferReceipt {
                pool_identity: pending.pool_identity,
                pool_index: idx,
                amount: pending.amount,
                new_lock_state: locked,
            },
        )
    } else {
        let prior: SubPool = reg.pools[slot].reward_pools[idx];
        let pool = &mut reg.pools[slot];
        pool.reward_pools[idx] = SubPool {
            index: prior.index,
            is_locked: pending.prior_locked,
            forfeitable_balance: prior.forfeitable_balance + pending.amount,
        };
        proof {
            lemma_frame_preserves_wf(*old(reg), *reg, slot as int, idx as int);
        }
        Err(ExecError::TransferFailed)
    }
}

/// Applies a validated release: unlocks the targeted sub-pool and leaves
/// its forfeitable balance untouched.  A release moves no funds, so it
/// cannot fail after validation and its receipt carries a zero amount.
pub fn release(reg: &mut Registry, v: &ValidatedRequest) -> (r: TransferReceipt)
    requires
        old(reg).wf(),
        v.valid_for(*old(reg)),
        v.action == Action::Release,
    ensures
        final(reg).wf(),
        sub_pool_released(*old(reg), *final(reg), v.pool_slot as int, v.pool_index as int),
        r.pool_identity == v.pool_identity,
        r.pool_index == v.pool_index,
        r.amount == 0,
        r.new_lock_state == target_lock_state(Action::Release),
{
    let slot = v.pool_slot;
    let idx = v.pool_index;
    let prior: SubPool = reg.pools[slot].reward_pools[idx];
    let pool = &mut reg.pools[slot];
    pool.reward_pools[idx] = SubPool {
        index: prior.index,
        is_locked: false,
        forfeitable_balance: prior.forfeitable_balance,
    };
    proof {
        lemma_frame_preserves_wf(*old(reg), *reg, slot as int, idx as int);
    }
    TransferReceipt {
        pool_identity: v.pool_identity,
        pool_index: idx,
        amount: 0,
        new_lock_state: false,
    }
}

/// The single choke point for a penalty: reserves the amount, invokes the
/// external transfer primitive — supplied by the caller as `transfer`,
/// called at most once, with exactly the validated instruction — and
/// settles the reservation with the primitive's outcome.  Either the
/// penalty takes effect as reserved and the receipt is returned, or the
/// registry's custody state is exactly what it was before the request.
pub fn execute<F: FnOnce(TransferInstruction) -> bool>(
    engine: &Engine,
    reg: &mut Registry,
    v: &ValidatedRequest,
    transfer: F,
) -> (r: Result<TransferReceipt, ExecError>)
    requires
        old(reg).wf(),
        v.valid_for(*old(reg)),
        v.action == Action::Penalty,
        forall|i: TransferInstruction| call_requires(transfer, (i,)),
    ensures
        final(reg).wf(),
        r == Err::<TransferReceipt, ExecError>(ExecError::InsufficientForfeitable) <==> v.amount
            > sub_at(*old(reg), v.pool_slot as int, v.pool_index as int).forfeitable_balance,
        r == Err::<TransferReceipt, ExecError>(ExecError::InsufficientForfeitable) ==> *final(reg)
            == *old(reg),
        r == Err::<TransferReceipt, ExecError>(ExecError::TransferFailed) ==> same_custody_state(
            *final(reg),
            *old(reg),
        ),
        r is Err ==> r == Err::<TransferReceipt, ExecError>(ExecError::InsufficientForfeitable)
            || r == Err::<TransferReceipt, ExecError>(ExecError::TransferFailed),
        r is Ok ==> exists|prior: bool|
            sub_pool_reserved(
                *old(reg),
                *final(reg),
                v.pool_slot as int,
                v.pool_index as int,
                v.amount,
                prior,
            ),
        r is Ok ==> {
            &&& r->Ok_0.pool_identity == v.pool_identity
            &&& r->Ok_0.pool_index == v.pool_index
            &&& r->Ok_0.amount == v.amount
            &&& r->Ok_0.new_lock_state == true
        },
        v.amount <= sub_at(
            *old(reg),
            v.pool_slot as int,
            v.pool_index as int,
        ).forfeitable_balance ==> exists|outcome: bool|
            #![auto]
            call_ensures(
                transfer,
                (
                    (TransferInstruction {
                        source: old(reg).pools@[v.pool_slot as int].vault_ref,
                        destination: v.destination,
                        amount: v.amount,
                        authority: engine.authority_of(v.pool_identity),
                    }),
                ),
                outcome,
            ) && (outcome <==> r is Ok),
{
    let ghost r0 = *reg;
    let pending = match prepare_transfer(engine, reg, v) {
        Ok(p) => p,
        Err(e) => {
            return Err(e);
        },
    };
    let ghost r1 = *reg;
    let ghost prior = pending.prior_locked_spec();
    let ok = transfer(*pending.instruction());
    let result = complete_transfer(reg, pending, ok);
    proof {
        if !ok {
            lemma_atomic_rollback(
                r0,
                r1,
                *reg,
                v.pool_slot as int,
                v.pool_index as int,
                v.amount,
                prior,
            );
        }
    }
    result
}

/// Lock-state law: after any successful action the targeted sub-pool's
/// lock state is exactly the deterministic target of the action type;
/// no field of the request can force any other value.
pub proof fn lemma_lock_state_deterministic(
    r0: Registry,
    r1: Registry,
    slot: int,
    idx: int,
    amount: u64,
    prior_locked: bool,
    action: Action,
)
    requires
        match action {
            Action::Penalty => sub_pool_reserved(r0, r1, slot, idx, amount, prior_locked),
            Action::Release => sub_pool_released(r0, r1, slot, idx),
        },
    ensures
        sub_at(r1, slot, idx).is_locked == target_lock_state(action),
{
}

/// Conservation law: a successful reservation decreases the targeted
/// sub-pool's forfeitable balance by exactly the penalized amount — the
/// same amount the emitted transfer instruction carries, by the contract
/// of `prepare_transfer` — and touches no other balance.
pub proof fn lemma_conservation(
    r0: Registry,
    r1: Registry,
    slot: int,
    idx: int,
    amount: u64,
    prior_locked: bool,
)
    requires
        sub_pool_reserved(r0, r1, slot, idx, amount, prior_locked),
    ensures
        sub_at(r1, slot, idx).forfeitable_balance == sub_at(r0, slot, idx).forfeitable_balance
            - amount,
        forall|k: int|
            0 <= k < r0.pools@[slot].reward_pools@.len() && k != idx ==> sub_at(
                r1,
                slot,
                k,
            ).forfeitable_balance == sub_at(r0, slot, k).forfeitable_balance,
{
}

/// Atomic-rollback law: a reservation followed by a rollback of that same
/// reservation leaves the registry in exactly the custody state it had
/// before the request.
pub proof fn lemma_atomic_rollback(
    r0: Registry,
    r1: Registry,
    r2: Registry,
    slot: int,
    idx: int,
    amount: u64,
    prior_locked: bool,
)
    requires
        sub_pool_reserved(r0, r1, slot, idx, amount, prior_locked),
        sub_pool_restored(r1, r2, slot, idx, amount, prior_locked),
    ensures
        same_custody_state(r2, r0),
{
    assert forall|p: int| 0 <= p < r2.pools@.len() implies {
        &&& (#[trigger] r2.pools@[p]).identity == r0.pools@[p].identity
        &&& r2.pools@[p].vault_ref == r0.pools@[p].vault_ref
        &&& r2.pools@[p].mint_ref == r0.pools@[p].mint_ref
        &&& r2.pools@[p].admin == r0.pools@[p].admin
        &&& r2.pools@[p].reward_pools@ == r0.pools@[p].reward_pools@
    } by {
        if p != slot {
            assert(r1.pools@[p] == r0.pools@[p]);
            assert(r2.pools@[p] == r1.pools@[p]);
        } else {
            assert(r2.pools@[slot].reward_pools@.len() == r0.pools@[slot].reward_pools@.len());
            assert forall|k: int|
                0 <= k < r0.pools@[slot].reward_pools@.len() implies (
            #[trigger] r2.pools@[slot].reward_pools@[k]) == r0.pools@[slot].reward_pools@[k] by {
                assert(r2.pools@[slot].reward_pools@[k] == sub_at(r2, slot, k));
                assert(r0.pools@[slot].reward_pools@[k] == sub_at(r0, slot, k));
                if k != idx {
                    assert(sub_at(r1, slot, k) == sub_at(r0, slot, k));
                    assert(sub_at(r2, slot, k) == sub_at(r1, slot, k));
                } else {
                    let s0 = sub_at(r0, slot, idx);
                    let s2 = sub_at(r2, slot, idx);
                    assert(s2.is_locked == s0.is_locked);
                    assert(s2.forfeitable_balance == s0.forfeitable_balance);
                    assert(s2.index == s0.index);
                }
            }
            assert(r2.pools@[slot].reward_pools@ =~= r0.pools@[slot].reward_pools@);
        }
    }
}

} // verus!
