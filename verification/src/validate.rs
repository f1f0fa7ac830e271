//! The authorization validator: the only producer of `ValidatedRequest`.
//!
//! Validation borrows the registry immutably, so no sub-pool state can
//! change before it completes.  The checks run in a fixed order, each
//! independently sufficient to reject, and the error names the first
//! check that failed.

use vstd::prelude::*;

use crate::model::{
    action_permits_self_credit, permits_self_credit, Action, AuthError, PenaltyRequest, Registry,
};

verus! {

/// A request that has passed every validator check against some registry.
/// The execution stage requires `valid_for` to hold of the registry it
/// mutates, so a request validated against one registry cannot be replayed
/// against an incompatible one.
#[derive(Clone, Copy, PartialEq, Eq, Structural, Debug)]
pub struct ValidatedRequest {
    /// Slot of the resolved pool in the registry.
    pub pool_slot: usize,
    /// Identity of the resolved pool.
    pub pool_identity: u64,
    /// Index of the targeted sub-pool, in bounds for the resolved pool.
    pub pool_index: usize,
    /// Amount to penalize.
    pub amount: u64,
    /// Account to receive the penalized tokens.
    pub destination: u64,
    /// The requested action.
    pub action: Action,
}

impl ValidatedRequest {
    /// What execution relies on: the slot resolves the named pool, the
    /// sub-pool index is in bounds, and the destination is not the pool's
    /// own vault unless the action permits a same-vault credit.
    pub open spec fn valid_for(self, reg: Registry) -> bool {
        &&& (self.pool_slot as int) < reg.pools@.len()
        &&& reg.pools@[self.pool_slot as int].identity == self.pool_identity
        &&& (self.pool_index as int) < reg.pools@[self.pool_slot as int].reward_pools@.len()
        &&& (self.destination != reg.pools@[self.pool_slot as int].vault_ref
            || permits_self_credit(self.action))
    }
}

/// The validator's decision ladder, as a mathematical function of the
/// registry and the request.
pub open spec fn validate_spec(reg: Registry, req: PenaltyRequest) -> Result<
    ValidatedRequest,
    AuthError,
> {
    if !reg.has_pool(req.pool_identity) {
        Err(AuthError::UnknownPool)
    } else {
        let pool = reg.pool_of(req.pool_identity);
        if req.vault != pool.vault_ref {
            Err(AuthError::VaultMismatch)
        } else if req.mint != pool.mint_ref {
            Err(AuthError::MintMismatch)
        } else if req.caller != pool.admin {
            Err(AuthError::Unauthorized)
        } else if req.pool_index >= pool.reward_pools@.len() {
            Err(AuthError::IndexOutOfRange)
        } else if req.destination == pool.vault_ref && !permits_self_credit(req.action) {
            Err(AuthError::InvalidDestination)
        } else {
            Ok(
                ValidatedRequest {
                    pool_slot: reg.slot_of(req.pool_identity) as usize,
                    pool_identity: req.pool_identity,
                    pool_index: req.pool_index,
                    amount: req.amount,
                    destination: req.destination,
                    action: req.action,
                },
            )
        }
    }
}

/// Checks a request against the registry: the pool must resolve, the
/// supplied vault and mint must be the ones bound to the pool record, the
/// caller must hold the admin capability, the sub-pool index must be in
/// bounds, and the destination must not be the pool's own vault unless the
/// action permits it.  Returns the first failing check's error; mutates
/// nothing.
pub fn validate(reg: &Registry, req: &PenaltyRequest) -> (r: Result<ValidatedRequest, AuthError>)
    requires
        reg.wf(),
    ensures
        r == validate_spec(*reg, *req),
        r is Ok ==> r->Ok_0.valid_for(*reg),
{
    match reg.find(req.pool_identity) {
        None => Err(AuthError::UnknownPool),
        Some(slot) => {
            let pool = &reg.pools[slot];
            if req.vault != pool.vault_ref {
                Err(AuthError::VaultMismatch)
            } else if req.mint != pool.mint_ref {
                Err(AuthError::MintMismatch)
            } else if req.caller != pool.admin {
                Err(AuthError::Unauthorized)
            } else if req.pool_index >= pool.reward_pools.len() {
                Err(AuthError::IndexOutOfRange)
            } else if req.destination == pool.vault_ref && !action_permits_self_credit(
                req.action,
            ) {
                Err(AuthError::InvalidDestination)
            } else {
                Ok(
                    ValidatedRequest {
                        pool_slot: slot,
                        pool_identity: req.pool_identity,
                        pool_index: req.pool_index,
                        amount: req.amount,
                        destination: req.destination,
                        action: req.action,
                    },
                )
            }
        },
    }
}

/// Bounds law: a sub-pool index at or beyond the pool's sub-pool count is
/// rejected with `IndexOutOfRange` (the index is unsigned, so no negative
/// index exists to consider).  The validator borrows the registry
/// immutably, so no sub-pool state changes on rejection.
pub proof fn lemma_index_out_of_range_rejected(reg: Registry, req: PenaltyRequest)
    requires
        reg.has_pool(req.pool_identity),
        req.vault == reg.pool_of(req.pool_identity).vault_ref,
        req.mint == reg.pool_of(req.pool_identity).mint_ref,
        req.caller == reg.pool_of(req.pool_identity).admin,
        req.pool_index >= reg.pool_of(req.pool_identity).reward_pools@.len(),
    ensures
        validate_spec(reg, req) == Err::<ValidatedRequest, AuthError>(AuthError::IndexOutOfRange),
{
}

/// Relationship binding law: a request whose vault or mint differs from
/// the resolved pool record fails validation, with the vault checked
/// first; no `ValidatedRequest` exists for it, so execution — which
/// requires one — never invokes a transfer.
pub proof fn lemma_relationship_binding(reg: Registry, req: PenaltyRequest)
    requires
        reg.has_pool(req.pool_identity),
        req.vault != reg.pool_of(req.pool_identity).vault_ref || req.mint != reg.pool_of(
            req.pool_identity,
        ).mint_ref,
    ensures
        validate_spec(reg, req) is Err,
        req.vault != reg.pool_of(req.pool_identity).vault_ref ==> validate_spec(reg, req)
            == Err::<ValidatedRequest, AuthError>(AuthError::VaultMismatch),
        req.vault == reg.pool_of(req.pool_identity).vault_ref ==> validate_spec(reg, req)
            == Err::<ValidatedRequest, AuthError>(AuthError::MintMismatch),
{
}

/// No-self-drain law, rejection side: a request whose destination is the
/// pool's own vault never validates while its action type does not permit
/// a same-vault credit (no action in the current set does).
pub proof fn lemma_self_drain_rejected(reg: Registry, req: PenaltyRequest)
    requires
        reg.has_pool(req.pool_identity),
        req.destination == reg.pool_of(req.pool_identity).vault_ref,
        !permits_self_credit(req.action),
    ensures
        validate_spec(reg, req) is Err,
{
}

/// No-self-drain law, acceptance side: every validated request either
/// names a destination other than the pool's vault, or carries an action
/// type that explicitly permits the same-vault credit.
pub proof fn lemma_validated_destination(reg: Registry, req: PenaltyRequest)
    requires
        validate_spec(reg, req) is Ok,
    ensures
        req.destination != reg.pool_of(req.pool_identity).vault_ref || permits_self_credit(
            req.action,
        ),
{
}

} // verus!
