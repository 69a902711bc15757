use crate::errors::BridgeError;
use vstd::prelude::*;

verus! {

/// The mathematical state of one bridge instance over one asset pair: the
/// outbound counter, the consumed source-transaction ids, the vault's
/// native balance, and the wrapped asset's total supply. The executable
/// operations are each one [`step`] of this model; the laws in `laws` are
/// proved over it.
#[verifier::ext_equal]
pub struct Model {
    pub nonce: u64,
    pub processed: Seq<[u8; 32]>,
    pub vault: u64,
    pub supply: u64,
}

/// One invocation of a bridge operation, carrying the per-call inputs the
/// decision depends on: the caller's or recipient's account balance is an
/// input here because the account belongs to the caller, not to the bridge.
pub enum BridgeOp {
    Lock { amount: u64, addr_len: nat, user_balance: u64 },
    Release { amount: u64, source_tx: [u8; 32], recipient_balance: u64 },
    Mint { amount: u64, source_tx: [u8; 32], recipient_balance: u64 },
    Burn { amount: u64, user_balance: u64 },
}

/// Why `lock` rejects, `None` when it succeeds: a zero amount, then a
/// target address over 64 bytes, then a custody failure (caller short of
/// funds, or the vault balance would leave the 64-bit range).
pub open spec fn lock_error(
    amount: u64,
    addr_len: nat,
    user_balance: u64,
    vault_balance: u64,
) -> Option<BridgeError> {
    if amount == 0 {
        Some(BridgeError::InvalidAmount)
    } else if addr_len > 64 {
        Some(BridgeError::InvalidTargetAddress)
    } else if user_balance < amount || vault_balance + amount > u64::MAX {
        Some(BridgeError::AdapterFailure)
    } else {
        None
    }
}

/// Why `release` rejects, `None` when it succeeds: a replayed `source_tx`
/// first, then a custody failure (vault short of funds, or the recipient's
/// balance would leave the 64-bit range).
pub open spec fn release_error(
    processed: Seq<[u8; 32]>,
    source_tx: [u8; 32],
    amount: u64,
    vault_balance: u64,
    recipient_balance: u64,
) -> Option<BridgeError> {
    if processed.contains(source_tx) {
        Some(BridgeError::AlreadyProcessed)
    } else if vault_balance < amount || recipient_balance + amount > u64::MAX {
        Some(BridgeError::AdapterFailure)
    } else {
        None
    }
}

/// Why `mint_wrapped` rejects, `None` when it succeeds: a replayed
/// `source_tx` first, then a custody failure (the supply or the recipient's
/// balance would leave the 64-bit range).
pub open spec fn mint_error(
    processed: Seq<[u8; 32]>,
    source_tx: [u8; 32],
    amount: u64,
    supply: u64,
    recipient_balance: u64,
) -> Option<BridgeError> {
    if processed.contains(source_tx) {
        Some(BridgeError::AlreadyProcessed)
    } else if supply + amount > u64::MAX || recipient_balance + amount > u64::MAX {
        Some(BridgeError::AdapterFailure)
    } else {
        None
    }
}

/// Why `burn_wrapped` rejects, `None` when it succeeds: a zero amount, then
/// a custody failure (caller's wrapped balance or the recorded supply short
/// of the amount).
pub open spec fn burn_error(amount: u64, user_balance: u64, supply: u64) -> Option<BridgeError> {
    if amount == 0 {
        Some(BridgeError::InvalidAmount)
    } else if user_balance < amount || supply < amount {
        Some(BridgeError::AdapterFailure)
    } else {
        None
    }
}

/// One operation applied to the model: the state it leaves behind and the
/// error it reports. A rejected operation leaves the model exactly as it
/// was. Outbound success bumps `nonce`; inbound success appends the
/// consumed `source_tx`; `vault` moves only with `lock` and `release`,
/// `supply` only with `mint_wrapped` and `burn_wrapped`.
pub open spec fn step(m: Model, op: BridgeOp) -> (Model, Option<BridgeError>) {
    match op {
        BridgeOp::Lock { amount, addr_len, user_balance } => {
            match lock_error(amount, addr_len, user_balance, m.vault) {
                Some(e) => (m, Some(e)),
                None => (
                    Model {
                        nonce: (m.nonce + 1) as u64,
                        processed: m.processed,
                        vault: (m.vault + amount) as u64,
                        supply: m.supply,
                    },
                    None,
                ),
            }
        },
        BridgeOp::Release { amount, source_tx, recipient_balance } => {
            match release_error(m.processed, source_tx, amount, m.vault, recipient_balance) {
                Some(e) => (m, Some(e)),
                None => (
                    Model {
                        nonce: m.nonce,
                        processed: m.processed.push(source_tx),
                        vault: (m.vault - amount) as u64,
                        supply: m.supply,
                    },
                    None,
                ),
            }
        },
        BridgeOp::Mint { amount, source_tx, recipient_balance } => {
            match mint_error(m.processed, source_tx, amount, m.supply, recipient_balance) {
                Some(e) => (m, Some(e)),
                None => (
                    Model {
                        nonce: m.nonce,
                        processed: m.processed.push(source_tx),
                        vault: m.vault,
                        supply: (m.supply + amount) as u64,
                    },
                    None,
                ),
            }
        },
        BridgeOp::Burn { amount, user_balance } => {
            match burn_error(amount, user_balance, m.supply) {
                Some(e) => (m, Some(e)),
                None => (
                    Model {
                        nonce: (m.nonce + 1) as u64,
                        processed: m.processed,
                        vault: m.vault,
                        supply: (m.supply - amount) as u64,
                    },
                    None,
                ),
            }
        },
    }
}

/// A sequence still holds every element it held before a push.
pub proof fn lemma_push_keeps_contains(s: Seq<[u8; 32]>, x: [u8; 32], tx: [u8; 32])
    requires
        s.contains(tx),
    ensures
        s.push(x).contains(tx),
{
    let i = choose|i: int| 0 <= i < s.len() && s[i] == tx;
    assert(s.push(x)[i] == tx);
}

/// Appending a fresh identifier keeps a sequence duplicate-free.
pub proof fn lemma_push_fresh_keeps_no_duplicates(s: Seq<[u8; 32]>, tx: [u8; 32])
    requires
        s.no_duplicates(),
        !s.contains(tx),
    ensures
        s.push(tx).no_duplicates(),
{
    let s1 = s.push(tx);
    assert forall|i: int, j: int|
        0 <= i < s1.len() && 0 <= j < s1.len() && i != j implies s1[i] != s1[j] by {
        if i < s.len() && j < s.len() {
            assert(s1[i] == s[i] && s1[j] == s[j]);
        } else if j == s.len() {
            assert(s1[j] == tx);
            if s1[i] == tx {
                assert(s[i] == tx);
                assert(s.contains(tx));
            }
        } else {
            assert(s1[i] == tx);
            if s1[j] == tx {
                assert(s[j] == tx);
                assert(s.contains(tx));
            }
        }
    }
}

/// An operation that bumps the nonce when it succeeds.
pub open spec fn is_outbound(op: BridgeOp) -> bool {
    match op {
        BridgeOp::Lock { .. } => true,
        BridgeOp::Burn { .. } => true,
        BridgeOp::Release { .. } => false,
        BridgeOp::Mint { .. } => false,
    }
}

/// The model after a whole sequence of operations, rejected ones included.
pub open spec fn run(m: Model, ops: Seq<BridgeOp>) -> Model
    decreases ops.len(),
{
    if ops.len() == 0 {
        m
    } else {
        run(step(m, ops.first()).0, ops.drop_first())
    }
}

/// How many operations of a sequence succeed as outbound operations.
pub open spec fn outbound_successes(m: Model, ops: Seq<BridgeOp>) -> nat
    decreases ops.len(),
{
    if ops.len() == 0 {
        0
    } else {
        (if step(m, ops.first()).1 is None && is_outbound(ops.first()) {
            1nat
        } else {
            0nat
        }) + outbound_successes(step(m, ops.first()).0, ops.drop_first())
    }
}

/// The sum of the amounts of the locks that succeed in a sequence.
pub open spec fn locked_total(m: Model, ops: Seq<BridgeOp>) -> int
    decreases ops.len(),
{
    if ops.len() == 0 {
        0
    } else {
        (match ops.first() {
            BridgeOp::Lock { amount, .. } => {
                if step(m, ops.first()).1 is None {
                    amount as int
                } else {
                    0
                }
            },
            _ => 0,
        }) + locked_total(step(m, ops.first()).0, ops.drop_first())
    }
}

/// The sum of the amounts of the releases that succeed in a sequence.
pub open spec fn released_total(m: Model, ops: Seq<BridgeOp>) -> int
    decreases ops.len(),
{
    if ops.len() == 0 {
        0
    } else {
        (match ops.first() {
            BridgeOp::Release { amount, .. } => {
                if step(m, ops.first()).1 is None {
                    amount as int
                } else {
                    0
                }
            },
            _ => 0,
        }) + released_total(step(m, ops.first()).0, ops.drop_first())
    }
}

} // verus!
