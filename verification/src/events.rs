use vstd::prelude::*;

verus! {

/// Emitted by a successful `lock`: native assets entered the vault and a
/// mint is owed on `target_chain`. `nonce` is the counter value after this
/// operation; `slot` is the ledger height the host passed in.
#[derive(Clone, Debug)]
pub struct Locked {
    pub source: [u8; 32],
    pub token: [u8; 32],
    pub amount: u64,
    pub target_chain: [u8; 32],
    pub target_addr: Vec<u8>,
    pub nonce: u64,
    pub slot: u64,
}

/// Emitted by a successful `release`: previously locked native assets left
/// the vault for `recipient`, consuming `source_tx`.
#[derive(Clone, Debug)]
pub struct Released {
    pub recipient: [u8; 32],
    pub amount: u64,
    pub source_tx: [u8; 32],
}

/// Emitted by a successful `mint_wrapped`: wrapped assets were created for
/// `recipient`, consuming `source_tx` observed on `source_chain`.
#[derive(Clone, Debug)]
pub struct WrappedMinted {
    pub recipient: [u8; 32],
    pub wrapped_mint: [u8; 32],
    pub amount: u64,
    pub source_tx: [u8; 32],
    pub source_chain: [u8; 32],
}

/// Emitted by a successful `burn_wrapped`: wrapped assets were destroyed,
/// owing a release on `target_chain`. `nonce` is the counter value after
/// this operation.
#[derive(Clone, Debug)]
pub struct WrappedBurned {
    pub source: [u8; 32],
    pub wrapped_mint: [u8; 32],
    pub amount: u64,
    pub target_chain: [u8; 32],
    pub target_addr: Vec<u8>,
    pub nonce: u64,
}

} // verus!
