//! Custody and replay-protection core of a cross-chain token bridge.
//!
//! Value moves between a home ledger and remote ledgers by locking and
//! releasing native assets on one side and minting and burning wrapped
//! representations on the other. This crate holds the bridge controller's
//! state machine: the four operations (`lock`, `release`, `mint_wrapped`,
//! `burn_wrapped`), the shared [`BridgeState`] they mutate, and the
//! invariants that prevent double-spend and double-mint. The host ledger's
//! runtime (account plumbing, signatures, the fungible-asset program's
//! transfer, mint and burn primitives) sits outside this crate and hands the
//! operations plain values: balances in, balances and events out.

mod errors;
mod events;
mod laws;
mod model;
mod ops;
mod state;

pub use errors::BridgeError;
pub use events::Locked;
pub use events::Released;
pub use events::WrappedBurned;
pub use events::WrappedMinted;
pub use laws::lemma_inbound_exactly_once;
pub use laws::lemma_nonce_counts_outbound_successes;
pub use laws::lemma_processed_only_grows;
pub use laws::lemma_processed_stays_duplicate_free;
pub use laws::lemma_release_insufficient_vault_rejected;
pub use laws::lemma_vault_balance_conservation;
pub use laws::lemma_wrapped_round_trip;
pub use laws::lemma_zero_amount_rejected;
pub use model::burn_error;
pub use model::is_outbound;
pub use model::locked_total;
pub use model::outbound_successes;
pub use model::released_total;
pub use model::lock_error;
pub use model::mint_error;
pub use model::release_error;
pub use model::run;
pub use model::step;
pub use model::BridgeOp;
pub use model::Model;
pub use ops::burn_wrapped;
pub use ops::contains_tx;
pub use ops::lock;
pub use ops::mint_wrapped;
pub use ops::release;
pub use ops::BurnWrapped;
pub use ops::Lock;
pub use ops::MintWrapped;
pub use ops::Release;
pub use state::BridgeState;
pub use state::TokenAccount;
pub use state::WrappedMint;
