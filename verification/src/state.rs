use vstd::prelude::*;

verus! {

/// A fungible-asset account, reduced to what the bridge logic reads and
/// writes: its balance. Ownership and mint checks are the host runtime's
/// account validation and stay outside this crate.
pub struct TokenAccount {
    pub balance: u64,
}

/// The issuing authority for the wrapped representation of one remote
/// asset: its address (derived by the host from the remote chain id) and
/// the current total supply of the wrapped asset.
pub struct WrappedMint {
    pub key: [u8; 32],
    pub supply: u64,
}

/// The single shared record of bridge progress.
///
/// `nonce` counts outbound operations (`lock` and `burn_wrapped`); it is a
/// local audit counter, not a cross-chain identifier. `processed` holds
/// every 32-byte source-transaction id already consumed by an inbound
/// operation (`release` or `mint_wrapped`); absence from it is the sole
/// authorization to execute an inbound operation.
pub struct BridgeState {
    pub nonce: u64,
    pub processed: Vec<[u8; 32]>,
}

impl BridgeState {
    /// A source transaction has been consumed already.
    pub open spec fn is_processed(self, tx: [u8; 32]) -> bool {
        self.processed@.contains(tx)
    }

    /// Well-formedness: a given identifier is inserted at most once, so the
    /// processed list never holds duplicates.
    pub open spec fn wf(self) -> bool {
        self.processed@.no_duplicates()
    }
}

} // verus!
