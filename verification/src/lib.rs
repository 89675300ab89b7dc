//! A fungible-token ledger and a savings vault that holds deposits of that
//! token, with every state transition stated as a contract and proved.
//!
//! - [`account`]: account identifiers.
//! - [`store`]: the keyed table that both components keep their entries in.
//! - [`tally`]: the sum of the amounts in a finite map.
//! - [`token`]: the ledger, its mathematical model and its operations.
//! - [`token_theory`]: conservation of supply, allowance accounting, the
//!   pause gate and the blacklist gate.
//! - [`piggybank`]: the vault, its model and its operations.
//! - [`piggybank_theory`]: the lock-time gate, the goal predicate and the
//!   vault's dependence on the ledger's answers.
//!
//! Neither component reads anything from its host. The account that makes a
//! request and the current time are arguments, the vault reaches its ledger
//! through a function it is handed, and the notices that the vault's
//! operations return are for the host to publish.

pub mod account;
pub mod store;
pub mod tally;
pub mod token;
pub mod token_theory;
pub mod piggybank;
pub mod piggybank_theory;
