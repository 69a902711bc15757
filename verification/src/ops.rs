use crate::errors::BridgeError;
use crate::events::Locked;
use crate::events::Released;
use crate::events::WrappedBurned;
use crate::events::WrappedMinted;
use crate::model::burn_error;
use crate::model::lemma_push_fresh_keeps_no_duplicates;
use crate::model::lock_error;
use crate::model::mint_error;
use crate::model::release_error;
use crate::model::step;
use crate::model::BridgeOp;
use crate::model::Model;
use crate::state::BridgeState;
use crate::state::TokenAccount;
use crate::state::WrappedMint;
use vstd::prelude::*;

verus! {

/// The accounts a `lock` call touches: the caller, the caller's funded
/// native-asset account, the bridge's vault, the asset's mint address, the
/// shared bridge state, and the ledger height the host read for the event.
pub struct Lock {
    pub user: [u8; 32],
    pub user_token_account: TokenAccount,
    pub vault: TokenAccount,
    pub token_mint: [u8; 32],
    pub bridge_state: BridgeState,
    pub slot: u64,
}

/// The accounts a `release` call touches: the recipient, the recipient's
/// native-asset account, the bridge's vault, and the shared bridge state.
pub struct Release {
    pub user: [u8; 32],
    pub user_token_account: TokenAccount,
    pub vault: TokenAccount,
    pub bridge_state: BridgeState,
}

/// The accounts a `mint_wrapped` call touches: the recipient, the
/// recipient's wrapped-asset account, the issuing authority for the wrapped
/// asset, and the shared bridge state.
pub struct MintWrapped {
    pub user: [u8; 32],
    pub user_token_account: TokenAccount,
    pub wrapped_mint: WrappedMint,
    pub bridge_state: BridgeState,
}

/// The accounts a `burn_wrapped` call touches: the caller, the caller's
/// wrapped-asset account, the issuing authority for the wrapped asset, and
/// the shared bridge state.
pub struct BurnWrapped {
    pub user: [u8; 32],
    pub user_token_account: TokenAccount,
    pub wrapped_mint: WrappedMint,
    pub bridge_state: BridgeState,
}

impl Lock {
    /// The model components a `lock` can read or write; it never touches a
    /// wrapped supply, held as zero.
    pub open spec fn model(self) -> Model {
        Model {
            nonce: self.bridge_state.nonce,
            processed: self.bridge_state.processed@,
            vault: self.vault.balance,
            supply: 0,
        }
    }
}

impl Release {
    /// The model components a `release` can read or write; it never touches
    /// a wrapped supply, held as zero.
    pub open spec fn model(self) -> Model {
        Model {
            nonce: self.bridge_state.nonce,
            processed: self.bridge_state.processed@,
            vault: self.vault.balance,
            supply: 0,
        }
    }
}

impl MintWrapped {
    /// The model components a `mint_wrapped` can read or write; it never
    /// touches the vault, held as zero.
    pub open spec fn model(self) -> Model {
        Model {
            nonce: self.bridge_state.nonce,
            processed: self.bridge_state.processed@,
            vault: 0,
            supply: self.wrapped_mint.supply,
        }
    }
}

impl BurnWrapped {
    /// The model components a `burn_wrapped` can read or write; it never
    /// touches the vault, held as zero.
    pub open spec fn model(self) -> Model {
        Model {
            nonce: self.bridge_state.nonce,
            processed: self.bridge_state.processed@,
            vault: 0,
            supply: self.wrapped_mint.supply,
        }
    }
}

/// Two 32-byte identifiers hold the same bytes.
fn tx_eq(a: &[u8; 32], b: &[u8; 32]) -> (eq: bool)
    ensures
        eq == (a@ == b@),
{
    let mut i: usize = 0;
    while i < 32
        invariant
            0 <= i <= 32,
            forall|j: int| 0 <= j < i ==> a@[j] == b@[j],
        decreases 32 - i,
    {
        if a[i] != b[i] {
            return false;
        }
        i += 1;
    }
    proof {
        assert(a@ =~= b@);
    }
    true
}

/// Linear membership scan over the processed list; the list is the bridge's
/// durable record, so its order is insertion order and a scan decides
/// membership exactly.
pub fn contains_tx(list: &Vec<[u8; 32]>, tx: &[u8; 32]) -> (found: bool)
    ensures
        found == list@.contains(*tx),
{
    let mut i: usize = 0;
    while i < list.len()
        invariant
            0 <= i <= list@.len(),
            forall|j: int| 0 <= j < i ==> list@[j] != *tx,
        decreases list@.len() - i,
    {
        if tx_eq(&list[i], tx) {
            proof {
                assert(list@[i as int] =~= *tx);
            }
            return true;
        }
        i += 1;
    }
    false
}

/// Outbound half of the home side: move `amount` of the native asset from
/// the caller's account into the vault, bump the nonce, and report the
/// `Locked` event owed to the relayer. Rejects a zero amount, a target
/// address over 64 bytes, and any custody failure, in that order, mutating
/// nothing on rejection.
pub fn lock(
    ctx: &mut Lock,
    amount: u64,
    target_chain: [u8; 32],
    target_addr: Vec<u8>,
) -> (result: Result<Locked, BridgeError>)
    requires
        old(ctx).bridge_state.nonce < u64::MAX,
    ensures
        ({
            let stepped = step(
                old(ctx).model(),
                (BridgeOp::Lock {
                    amount,
                    addr_len: target_addr@.len(),
                    user_balance: old(ctx).user_token_account.balance,
                }),
            );
            &&& final(ctx).model() == stepped.0
            &&& (result matches Err(e) ==> stepped.1 == Some(e))
            &&& (result is Ok <==> stepped.1 is None)
        }),
        result is Err ==> *final(ctx) == *old(ctx),
        (result matches Err(e) ==> Some(e) == lock_error(
            amount,
            target_addr@.len(),
            old(ctx).user_token_account.balance,
            old(ctx).vault.balance,
        )),
        (result matches Ok(ev) ==> {
            &&& final(ctx).user_token_account.balance == old(
                ctx,
            ).user_token_account.balance - amount
            &&& final(ctx).vault.balance == old(ctx).vault.balance + amount
            &&& final(ctx).bridge_state.nonce == old(ctx).bridge_state.nonce + 1
            &&& final(ctx).bridge_state.processed == old(ctx).bridge_state.processed
            &&& final(ctx).user == old(ctx).user
            &&& final(ctx).token_mint == old(ctx).token_mint
            &&& final(ctx).slot == old(ctx).slot
            &&& ev.source == old(ctx).user
            &&& ev.token == old(ctx).token_mint
            &&& ev.amount == amount
            &&& ev.target_chain == target_chain
            &&& ev.target_addr@ == target_addr@
            &&& ev.nonce == old(ctx).bridge_state.nonce + 1
            &&& ev.slot == old(ctx).slot
        }),
        old(ctx).bridge_state.wf() ==> final(ctx).bridge_state.wf(),
{
    if amount == 0 {
        return Err(BridgeError::InvalidAmount);
    }
    if target_addr.len() > 64 {
        return Err(BridgeError::InvalidTargetAddress);
    }
    if ctx.user_token_account.balance < amount {
        return Err(BridgeError::AdapterFailure);
    }
    if ctx.vault.balance > u64::MAX - amount {
        return Err(BridgeError::AdapterFailure);
    }
    ctx.user_token_account.balance = ctx.user_token_account.balance - amount;
    ctx.vault.balance = ctx.vault.balance + amount;
    ctx.bridge_state.nonce = ctx.bridge_state.nonce + 1;
    Ok(
        Locked {
            source: ctx.user,
            token: ctx.token_mint,
            amount,
            target_chain,
            target_addr,
            nonce: ctx.bridge_state.nonce,
            slot: ctx.slot,
        },
    )
}

/// Inbound half of the home side: consume `source_tx` and move `amount` of
/// the native asset from the vault to the recipient. Membership of
/// `source_tx` in the processed list is the sole replay guard: a replayed
/// id is rejected before anything moves, and the id is recorded in the same
/// atomic step as the transfer, so no second call can slip between check
/// and record. A custody failure (vault short of funds) also mutates
/// nothing, so the id stays consumable by a later, funded retry.
pub fn release(ctx: &mut Release, amount: u64, source_tx: [u8; 32]) -> (result: Result<
    Released,
    BridgeError,
>)
    ensures
        ({
            let stepped = step(
                old(ctx).model(),
                (BridgeOp::Release {
                    amount,
                    source_tx,
                    recipient_balance: old(ctx).user_token_account.balance,
                }),
            );
            &&& final(ctx).model() == stepped.0
            &&& (result matches Err(e) ==> stepped.1 == Some(e))
            &&& (result is Ok <==> stepped.1 is None)
        }),
        result is Err ==> *final(ctx) == *old(ctx),
        (result matches Err(e) ==> Some(e) == release_error(
            old(ctx).bridge_state.processed@,
            source_tx,
            amount,
            old(ctx).vault.balance,
            old(ctx).user_token_account.balance,
        )),
        (result matches Ok(ev) ==> {
            &&& final(ctx).user_token_account.balance == old(
                ctx,
            ).user_token_account.balance + amount
            &&& final(ctx).vault.balance == old(ctx).vault.balance - amount
            &&& final(ctx).bridge_state.nonce == old(ctx).bridge_state.nonce
            &&& final(ctx).bridge_state.processed@ == old(ctx).bridge_state.processed@.push(
                source_tx,
            )
            &&& final(ctx).bridge_state.is_processed(source_tx)
            &&& final(ctx).user == old(ctx).user
            &&& ev.recipient == old(ctx).user
            &&& ev.amount == amount
            &&& ev.source_tx == source_tx
        }),
        old(ctx).bridge_state.wf() ==> final(ctx).bridge_state.wf(),
{
    if contains_tx(&ctx.bridge_state.processed, &source_tx) {
        return Err(BridgeError::AlreadyProcessed);
    }
    if ctx.vault.balance < amount {
        return Err(BridgeError::AdapterFailure);
    }
    if ctx.user_token_account.balance > u64::MAX - amount {
        return Err(BridgeError::AdapterFailure);
    }
    let ghost s0 = ctx.bridge_state.processed@;
    ctx.bridge_state.processed.push(source_tx);
    ctx.vault.balance = ctx.vault.balance - amount;
    ctx.user_token_account.balance = ctx.user_token_account.balance + amount;
    proof {
        assert(s0.push(source_tx)[s0.len() as int] == source_tx);
        assert(ctx.bridge_state.processed@.contains(source_tx));
        if s0.no_duplicates() {
            lemma_push_fresh_keeps_no_duplicates(s0, source_tx);
        }
    }
    Ok(Released { recipient: ctx.user, amount, source_tx })
}

/// Inbound half of the remote side: consume `source_tx` observed on
/// `source_chain` and create `amount` of the wrapped asset in the
/// recipient's account, raising the recorded supply by the same amount.
/// The replay guard is the same as for `release`: a replayed id is rejected
/// before anything is minted, and a custody failure mutates nothing.
pub fn mint_wrapped(
    ctx: &mut MintWrapped,
    amount: u64,
    source_tx: [u8; 32],
    source_chain: [u8; 32],
) -> (result: Result<WrappedMinted, BridgeError>)
    ensures
        ({
            let stepped = step(
                old(ctx).model(),
                (BridgeOp::Mint {
                    amount,
                    source_tx,
                    recipient_balance: old(ctx).user_token_account.balance,
                }),
            );
            &&& final(ctx).model() == stepped.0
            &&& (result matches Err(e) ==> stepped.1 == Some(e))
            &&& (result is Ok <==> stepped.1 is None)
        }),
        result is Err ==> *final(ctx) == *old(ctx),
        (result matches Err(e) ==> Some(e) == mint_error(
            old(ctx).bridge_state.processed@,
            source_tx,
            amount,
            old(ctx).wrapped_mint.supply,
            old(ctx).user_token_account.balance,
        )),
        (result matches Ok(ev) ==> {
            &&& final(ctx).user_token_account.balance == old(
                ctx,
            ).user_token_account.balance + amount
            &&& final(ctx).wrapped_mint.supply == old(ctx).wrapped_mint.supply + amount
            &&& final(ctx).wrapped_mint.key == old(ctx).wrapped_mint.key
            &&& final(ctx).bridge_state.nonce == old(ctx).bridge_state.nonce
            &&& final(ctx).bridge_state.processed@ == old(ctx).bridge_state.processed@.push(
                source_tx,
            )
            &&& final(ctx).bridge_state.is_processed(source_tx)
            &&& final(ctx).user == old(ctx).user
            &&& ev.recipient == old(ctx).user
            &&& ev.wrapped_mint == old(ctx).wrapped_mint.key
            &&& ev.amount == amount
            &&& ev.source_tx == source_tx
            &&& ev.source_chain == source_chain
        }),
        old(ctx).bridge_state.wf() ==> final(ctx).bridge_state.wf(),
{
    if contains_tx(&ctx.bridge_state.processed, &source_tx) {
        return Err(BridgeError::AlreadyProcessed);
    }
    if ctx.wrapped_mint.supply > u64::MAX - amount {
        return Err(BridgeError::AdapterFailure);
    }
    if ctx.user_token_account.balance > u64::MAX - amount {
        return Err(BridgeError::AdapterFailure);
    }
    let ghost s0 = ctx.bridge_state.processed@;
    ctx.bridge_state.processed.push(source_tx);
    ctx.wrapped_mint.supply = ctx.wrapped_mint.supply + amount;
    ctx.user_token_account.balance = ctx.user_token_account.balance + amount;
    proof {
        assert(s0.push(source_tx)[s0.len() as int] == source_tx);
        assert(ctx.bridge_state.processed@.contains(source_tx));
        if s0.no_duplicates() {
            lemma_push_fresh_keeps_no_duplicates(s0, source_tx);
        }
    }
    Ok(
        WrappedMinted {
            recipient: ctx.user,
            wrapped_mint: ctx.wrapped_mint.key,
            amount,
            source_tx,
            source_chain,
        },
    )
}

/// Outbound half of the remote side: destroy `amount` of the wrapped asset
/// from the caller's account, lower the recorded supply by the same amount,
/// bump the nonce, and report the `WrappedBurned` event a relayer turns
/// into a release on `target_chain`. Rejects a zero amount and any custody
/// failure, mutating nothing on rejection.
pub fn burn_wrapped(
    ctx: &mut BurnWrapped,
    amount: u64,
    target_chain: [u8; 32],
    target_addr: Vec<u8>,
) -> (result: Result<WrappedBurned, BridgeError>)
    requires
        old(ctx).bridge_state.nonce < u64::MAX,
    ensures
        ({
            let stepped = step(
                old(ctx).model(),
                (BridgeOp::Burn { amount, user_balance: old(ctx).user_token_account.balance }),
            );
            &&& final(ctx).model() == stepped.0
            &&& (result matches Err(e) ==> stepped.1 == Some(e))
            &&& (result is Ok <==> stepped.1 is None)
        }),
        result is Err ==> *final(ctx) == *old(ctx),
        (result matches Err(e) ==> Some(e) == burn_error(
            amount,
            old(ctx).user_token_account.balance,
            old(ctx).wrapped_mint.supply,
        )),
        (result matches Ok(ev) ==> {
            &&& final(ctx).user_token_account.balance == old(
                ctx,
            ).user_token_account.balance - amount
            &&& final(ctx).wrapped_mint.supply == old(ctx).wrapped_mint.supply - amount
            &&& final(ctx).wrapped_mint.key == old(ctx).wrapped_mint.key
            &&& final(ctx).bridge_state.nonce == old(ctx).bridge_state.nonce + 1
            &&& final(ctx).bridge_state.processed == old(ctx).bridge_state.processed
            &&& final(ctx).user == old(ctx).user
            &&& ev.source == old(ctx).user
            &&& ev.wrapped_mint == old(ctx).wrapped_mint.key
            &&& ev.amount == amount
            &&& ev.target_chain == target_chain
            &&& ev.target_addr@ == target_addr@
            &&& ev.nonce == old(ctx).bridge_state.nonce + 1
        }),
        old(ctx).bridge_state.wf() ==> final(ctx).bridge_state.wf(),
{
    if amount == 0 {
        return Err(BridgeError::InvalidAmount);
    }
    if ctx.user_token_account.balance < amount {
        return Err(BridgeError::AdapterFailure);
    }
    if ctx.wrapped_mint.supply < amount {
        return Err(BridgeError::AdapterFailure);
    }
    ctx.user_token_account.balance = ctx.user_token_account.balance - amount;
    ctx.wrapped_mint.supply = ctx.wrapped_mint.supply - amount;
    ctx.bridge_state.nonce = ctx.bridge_state.nonce + 1;
    Ok(
        WrappedBurned {
            source: ctx.user,
            wrapped_mint: ctx.wrapped_mint.key,
            amount,
            target_chain,
            target_addr,
            nonce: ctx.bridge_state.nonce,
        },
    )
}

} // verus!
