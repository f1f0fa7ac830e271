//! Custodial reward-pool authorization and transfer engine.
//!
//! A `Pool` record binds a custodial vault, a token mint, an administrator
//! and a fixed, indexed set of reward sub-pools.  Every movement of funds
//! out of the vault goes through one choke point: a request is first checked
//! by the authorization validator, then the targeted sub-pool's lock state
//! and forfeitable balance are transitioned, and only then is a transfer
//! instruction emitted, signed by an authority derived from the pool's
//! identity and a private derivation tag.  If the caller reports that the
//! external transfer primitive failed, the reservation is rolled back so
//! that the sub-pool is restored exactly to its prior state.
//!
//! The engine is request/response: a registry is mutated only through
//! `&mut`, so Rust's exclusive borrows serialize penalty requests against
//! the pools it holds, and the outcome of the transfer primitive is known
//! before a reservation is settled.

pub mod authority;
pub mod executor;
pub mod model;
pub mod validate;
