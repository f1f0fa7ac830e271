use custody_engine::authority::Engine;
use custody_engine::executor::{complete_transfer, execute, prepare_transfer, release};
use custody_engine::model::{
    Action, AuthError, ExecError, PenaltyRequest, Pool, Registry, SubPool, TransferReceipt,
};
use custody_engine::validate::validate;

const POOL_ID: u64 = 7;
const VAULT: u64 = 100;
const MINT: u64 = 200;
const ADMIN: u64 = 300;
const USER_X: u64 = 900;

fn two_sub_pool_registry() -> Registry {
    Registry {
        pools: vec![Pool {
            identity: POOL_ID,
            vault_ref: VAULT,
            mint_ref: MINT,
            admin: ADMIN,
            reward_pools: vec![
                SubPool { index: 0, is_locked: false, forfeitable_balance: 500 },
                SubPool { index: 1, is_locked: false, forfeitable_balance: 100 },
            ],
        }],
    }
}

fn penalty_request(pool_index: usize, amount: u64, destination: u64) -> PenaltyRequest {
    PenaltyRequest {
        pool_identity: POOL_ID,
        vault: VAULT,
        mint: MINT,
        caller: ADMIN,
        pool_index,
        amount,
        destination,
        action: Action::Penalty,
    }
}

#[test]
fn scenario_penalty_then_insufficient() {
    let engine = Engine::new(42);
    let mut reg = two_sub_pool_registry();

    let v = validate(&reg, &penalty_request(1, 40, USER_X)).unwrap();
    let pending = prepare_transfer(&engine, &mut reg, &v).unwrap();
    assert_eq!(pending.instruction().amount, 40);
    let receipt = complete_transfer(&mut reg, pending, true).unwrap();

    assert_eq!(reg.pools[0].reward_pools[1].forfeitable_balance, 60);
    assert!(reg.pools[0].reward_pools[1].is_locked);
    assert_eq!(
        receipt,
        TransferReceipt { pool_identity: POOL_ID, pool_index: 1, amount: 40, new_lock_state: true }
    );

    let v2 = validate(&reg, &penalty_request(1, 61, USER_X)).unwrap();
    let r2 = prepare_transfer(&engine, &mut reg, &v2);
    assert!(matches!(r2, Err(ExecError::InsufficientForfeitable)));
    assert_eq!(reg.pools[0].reward_pools[1].forfeitable_balance, 60);
}

#[test]
fn index_out_of_range_rejected() {
    let reg = two_sub_pool_registry();
    let r = validate(&reg, &penalty_request(2, 10, USER_X));
    assert_eq!(r.unwrap_err(), AuthError::IndexOutOfRange);
    let r = validate(&reg, &penalty_request(usize::MAX, 10, USER_X));
    assert_eq!(r.unwrap_err(), AuthError::IndexOutOfRange);
    // Validation borrows the registry immutably; nothing can have changed.
    assert_eq!(reg.pools[0].reward_pools[0].forfeitable_balance, 500);
    assert_eq!(reg.pools[0].reward_pools[1].forfeitable_balance, 100);
    assert!(!reg.pools[0].reward_pools[0].is_locked);
    assert!(!reg.pools[0].reward_pools[1].is_locked);
}

#[test]
fn unknown_pool_rejected() {
    let reg = two_sub_pool_registry();
    let mut req = penalty_request(0, 10, USER_X);
    req.pool_identity = POOL_ID + 1;
    assert_eq!(validate(&reg, &req).unwrap_err(), AuthError::UnknownPool);
}

#[test]
fn vault_mismatch_rejected() {
    let reg = two_sub_pool_registry();
    let mut req = penalty_request(0, 10, USER_X);
    req.vault = VAULT + 1;
    assert_eq!(validate(&reg, &req).unwrap_err(), AuthError::VaultMismatch);
    // The vault check comes first even when the mint is wrong too.
    req.mint = MINT + 1;
    assert_eq!(validate(&reg, &req).unwrap_err(), AuthError::VaultMismatch);
}

#[test]
fn mint_mismatch_rejected() {
    let reg = two_sub_pool_registry();
    let mut req = penalty_request(0, 10, USER_X);
    req.mint = MINT + 1;
    assert_eq!(validate(&reg, &req).unwrap_err(), AuthError::MintMismatch);
}

#[test]
fn unauthorized_caller_rejected() {
    let reg = two_sub_pool_registry();
    let mut req = penalty_request(0, 10, USER_X);
    req.caller = USER_X;
    assert_eq!(validate(&reg, &req).unwrap_err(), AuthError::Unauthorized);
}

#[test]
fn self_drain_rejected() {
    let reg = two_sub_pool_registry();
    let r = validate(&reg, &penalty_request(0, 10, VAULT));
    assert_eq!(r.unwrap_err(), AuthError::InvalidDestination);
    // No action in the closed set permits a same-vault credit.
    let mut req = penalty_request(0, 10, VAULT);
    req.action = Action::Release;
    assert_eq!(validate(&reg, &req).unwrap_err(), AuthError::InvalidDestination);
}

#[test]
fn lock_state_follows_action() {
    // The request carries no lock flag at all: the lock state after a
    // successful action is dictated by the action type alone.
    let engine = Engine::new(42);
    let mut reg = two_sub_pool_registry();

    let v = validate(&reg, &penalty_request(0, 5, USER_X)).unwrap();
    let pending = prepare_transfer(&engine, &mut reg, &v).unwrap();
    complete_transfer(&mut reg, pending, true).unwrap();
    assert!(reg.pools[0].reward_pools[0].is_locked);

    // A second penalty on an already locked sub-pool leaves it locked.
    let v = validate(&reg, &penalty_request(0, 5, USER_X)).unwrap();
    let pending = prepare_transfer(&engine, &mut reg, &v).unwrap();
    complete_transfer(&mut reg, pending, true).unwrap();
    assert!(reg.pools[0].reward_pools[0].is_locked);

    // A release always unlocks.
    let mut req = penalty_request(0, 0, USER_X);
    req.action = Action::Release;
    let v = validate(&reg, &req).unwrap();
    let receipt = release(&mut reg, &v);
    assert!(!reg.pools[0].reward_pools[0].is_locked);
    assert!(!receipt.new_lock_state);
    assert_eq!(receipt.amount, 0);
    assert_eq!(reg.pools[0].reward_pools[0].forfeitable_balance, 490);
}

#[test]
fn conservation_exact_amount() {
    let engine = Engine::new(42);
    let mut reg = two_sub_pool_registry();
    let v = validate(&reg, &penalty_request(1, 37, USER_X)).unwrap();
    let pending = prepare_transfer(&engine, &mut reg, &v).unwrap();

    // The instruction moves exactly the validated amount, from the pool's
    // vault, to the validated destination.
    let ins = pending.instruction();
    assert_eq!(ins.amount, 37);
    assert_eq!(ins.source, VAULT);
    assert_eq!(ins.destination, USER_X);

    // The forfeitable balance dropped by exactly the amount; the other
    // sub-pool is untouched.
    assert_eq!(reg.pools[0].reward_pools[1].forfeitable_balance, 63);
    assert_eq!(reg.pools[0].reward_pools[0].forfeitable_balance, 500);

    let receipt = complete_transfer(&mut reg, pending, true).unwrap();
    assert_eq!(receipt.amount, 37);
    assert_eq!(reg.pools[0].reward_pools[1].forfeitable_balance, 63);
}

#[test]
fn rollback_restores_state() {
    let engine = Engine::new(42);
    let mut reg = two_sub_pool_registry();

    // Lock sub-pool 0 first so the rollback must restore a non-default state.
    let v = validate(&reg, &penalty_request(0, 10, USER_X)).unwrap();
    let pending = prepare_transfer(&engine, &mut reg, &v).unwrap();
    complete_transfer(&mut reg, pending, true).unwrap();

    let snapshot: Vec<SubPool> = reg.pools[0].reward_pools.clone();

    // A penalty whose transfer fails must leave no trace.
    let v = validate(&reg, &penalty_request(0, 25, USER_X)).unwrap();
    let pending = prepare_transfer(&engine, &mut reg, &v).unwrap();
    assert_eq!(reg.pools[0].reward_pools[0].forfeitable_balance, 465);
    let r = complete_transfer(&mut reg, pending, false);
    assert_eq!(r.unwrap_err(), ExecError::TransferFailed);
    assert_eq!(reg.pools[0].reward_pools, snapshot);

    // The same holds when the reserved sub-pool was unlocked before.
    let snapshot: Vec<SubPool> = reg.pools[0].reward_pools.clone();
    let v = validate(&reg, &penalty_request(1, 100, USER_X)).unwrap();
    let pending = prepare_transfer(&engine, &mut reg, &v).unwrap();
    let r = complete_transfer(&mut reg, pending, false);
    assert_eq!(r.unwrap_err(), ExecError::TransferFailed);
    assert_eq!(reg.pools[0].reward_pools, snapshot);
}

#[test]
fn derivation_needs_the_private_tag() {
    // An attacker who sees only the public pool record can try to rebuild
    // the authority by running the derivation with a guessed tag; with any
    // tag other than the engine's, the result is a different authority.
    let engine = Engine::new(0x5eed);
    let impostor = Engine::new(0x0bad);
    let same_tag = Engine::new(0x5eed);

    let mut reg1 = two_sub_pool_registry();
    let v = validate(&reg1, &penalty_request(1, 1, USER_X)).unwrap();
    let genuine = prepare_transfer(&engine, &mut reg1, &v).unwrap();

    let mut reg2 = two_sub_pool_registry();
    let v = validate(&reg2, &penalty_request(1, 1, USER_X)).unwrap();
    let forged = prepare_transfer(&impostor, &mut reg2, &v).unwrap();

    let mut reg3 = two_sub_pool_registry();
    let v = validate(&reg3, &penalty_request(1, 1, USER_X)).unwrap();
    let replayed = prepare_transfer(&same_tag, &mut reg3, &v).unwrap();

    assert!(genuine.instruction().authority != forged.instruction().authority);
    // The derivation is deterministic in the tag and the pool identity.
    assert!(genuine.instruction().authority == replayed.instruction().authority);
}

#[test]
fn distinct_pools_derive_distinct_authorities() {
    let engine = Engine::new(42);
    let mut reg = Registry {
        pools: vec![
            Pool {
                identity: POOL_ID,
                vault_ref: VAULT,
                mint_ref: MINT,
                admin: ADMIN,
                reward_pools: vec![SubPool {
                    index: 0,
                    is_locked: false,
                    forfeitable_balance: 50,
                }],
            },
            Pool {
                identity: POOL_ID + 1,
                vault_ref: VAULT + 1,
                mint_ref: MINT,
                admin: ADMIN,
                reward_pools: vec![SubPool {
                    index: 0,
                    is_locked: false,
                    forfeitable_balance: 50,
                }],
            },
        ],
    };

    let v = validate(&reg, &penalty_request(0, 1, USER_X)).unwrap();
    let first = prepare_transfer(&engine, &mut reg, &v).unwrap();

    let mut req = penalty_request(0, 1, USER_X);
    req.pool_identity = POOL_ID + 1;
    req.vault = VAULT + 1;
    let v = validate(&reg, &req).unwrap();
    let second = prepare_transfer(&engine, &mut reg, &v).unwrap();

    assert!(first.instruction().authority != second.instruction().authority);
}

#[test]
fn pending_reports_what_was_reserved() {
    let engine = Engine::new(42);
    let mut reg = two_sub_pool_registry();
    let v = validate(&reg, &penalty_request(1, 40, USER_X)).unwrap();
    let pending = prepare_transfer(&engine, &mut reg, &v).unwrap();
    assert_eq!(pending.pool_identity(), POOL_ID);
    assert_eq!(pending.pool_index(), 1);
    assert_eq!(pending.amount(), 40);
}

#[test]
fn execute_runs_the_whole_penalty() {
    let engine = Engine::new(42);
    let mut reg = two_sub_pool_registry();
    let v = validate(&reg, &penalty_request(1, 40, USER_X)).unwrap();

    let mut seen_amount: u64 = 0;
    let receipt = execute(&engine, &mut reg, &v, |ins| {
        seen_amount = ins.amount;
        true
    })
    .unwrap();

    // The primitive was invoked with exactly the validated amount.
    assert_eq!(seen_amount, 40);
    assert_eq!(
        receipt,
        TransferReceipt { pool_identity: POOL_ID, pool_index: 1, amount: 40, new_lock_state: true }
    );
    assert_eq!(reg.pools[0].reward_pools[1].forfeitable_balance, 60);
}

#[test]
fn execute_rolls_back_on_primitive_failure() {
    let engine = Engine::new(42);
    let mut reg = two_sub_pool_registry();
    let snapshot: Vec<SubPool> = reg.pools[0].reward_pools.clone();

    let v = validate(&reg, &penalty_request(1, 40, USER_X)).unwrap();
    let r = execute(&engine, &mut reg, &v, |_| false);
    assert!(matches!(r, Err(ExecError::TransferFailed)));
    assert_eq!(reg.pools[0].reward_pools, snapshot);
}

#[test]
fn execute_rejects_excessive_amount_without_invoking_transfer() {
    let engine = Engine::new(42);
    let mut reg = two_sub_pool_registry();
    let v = validate(&reg, &penalty_request(1, 101, USER_X)).unwrap();

    let mut invoked = false;
    let r = execute(&engine, &mut reg, &v, |_| {
        invoked = true;
        true
    });
    assert!(matches!(r, Err(ExecError::InsufficientForfeitable)));
    assert!(!invoked);
    assert_eq!(reg.pools[0].reward_pools[1].forfeitable_balance, 100);
    assert!(!reg.pools[0].reward_pools[1].is_locked);
}

#[test]
fn find_resolves_identity() {
    let reg = two_sub_pool_registry();
    assert_eq!(reg.find(POOL_ID), Some(0));
    assert_eq!(reg.find(POOL_ID + 1), None);
}
