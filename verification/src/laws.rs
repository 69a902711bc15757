use crate::errors::BridgeError;
use crate::model::is_outbound;
use crate::model::lemma_push_fresh_keeps_no_duplicates;
use crate::model::lemma_push_keeps_contains;
use crate::model::locked_total;
use crate::model::outbound_successes;
use crate::model::released_total;
use crate::model::run;
use crate::model::step;
use crate::model::BridgeOp;
use crate::model::Model;
use vstd::prelude::*;

verus! {

/// Once a source transaction has been consumed, every later inbound
/// operation that presents the same id is rejected with `AlreadyProcessed`
/// and changes nothing: of two inbound calls on one id, exactly one
/// succeeds, whichever comes first.
pub proof fn lemma_inbound_exactly_once(m: Model, first: BridgeOp, second: BridgeOp, tx: [u8; 32])
    requires
        !is_outbound(first),
        !is_outbound(second),
        (first matches BridgeOp::Release { source_tx, .. } ==> source_tx == tx),
        (first matches BridgeOp::Mint { source_tx, .. } ==> source_tx == tx),
        (second matches BridgeOp::Release { source_tx, .. } ==> source_tx == tx),
        (second matches BridgeOp::Mint { source_tx, .. } ==> source_tx == tx),
        step(m, first).1 is None,
    ensures
        step(step(m, first).0, second).1 == Some(BridgeError::AlreadyProcessed),
        step(step(m, first).0, second).0 == step(m, first).0,
{
    let m1 = step(m, first).0;
    assert(m1.processed == m.processed.push(tx));
    assert(m1.processed[m.processed.len() as int] == tx);
    assert(m1.processed.contains(tx));
}

/// An outbound operation with a zero amount is always rejected with
/// `InvalidAmount` and changes nothing, whatever the rest of the call was.
pub proof fn lemma_zero_amount_rejected(m: Model, op: BridgeOp)
    requires
        is_outbound(op),
        (op matches BridgeOp::Lock { amount, .. } ==> amount == 0),
        (op matches BridgeOp::Burn { amount, .. } ==> amount == 0),
    ensures
        step(m, op) == (m, Some(BridgeError::InvalidAmount)),
{
}

/// A release of more than the vault holds, on a fresh source transaction,
/// is rejected with `AdapterFailure` and changes nothing: the id stays
/// consumable by a later, funded retry.
pub proof fn lemma_release_insufficient_vault_rejected(
    m: Model,
    amount: u64,
    source_tx: [u8; 32],
    recipient_balance: u64,
)
    requires
        !m.processed.contains(source_tx),
        m.vault < amount,
    ensures
        step(m, (BridgeOp::Release { amount, source_tx, recipient_balance })) == (
            m,
            Some(BridgeError::AdapterFailure),
        ),
{
}

/// After any sequence of operations the nonce has grown by exactly the
/// number of successful outbound operations in it: inbound operations never
/// move it, rejected operations never move it.
pub proof fn lemma_nonce_counts_outbound_successes(m: Model, ops: Seq<BridgeOp>)
    requires
        m.nonce + ops.len() <= u64::MAX,
    ensures
        run(m, ops).nonce == m.nonce + outbound_successes(m, ops),
    decreases ops.len(),
{
    if ops.len() > 0 {
        lemma_nonce_counts_outbound_successes(step(m, ops.first()).0, ops.drop_first());
    }
}

/// Conservation of custody: after any sequence of operations the vault
/// balance is the initial balance plus every amount a successful `lock`
/// brought in, minus every amount a successful `release` paid out. The
/// balance is an unsigned count, so it can never go negative, and a release
/// only succeeds while it covers the amount.
pub proof fn lemma_vault_balance_conservation(m: Model, ops: Seq<BridgeOp>)
    ensures
        run(m, ops).vault == m.vault + locked_total(m, ops) - released_total(m, ops),
    decreases ops.len(),
{
    if ops.len() > 0 {
        lemma_vault_balance_conservation(step(m, ops.first()).0, ops.drop_first());
    }
}

/// The processed record only grows: a source transaction consumed once
/// stays consumed through every later operation, successful or not.
pub proof fn lemma_processed_only_grows(m: Model, ops: Seq<BridgeOp>, tx: [u8; 32])
    requires
        m.processed.contains(tx),
    ensures
        run(m, ops).processed.contains(tx),
    decreases ops.len(),
{
    if ops.len() > 0 {
        let stepped = step(m, ops.first());
        if stepped.0.processed != m.processed {
            match ops.first() {
                BridgeOp::Release { source_tx, .. } => {
                    lemma_push_keeps_contains(m.processed, source_tx, tx);
                },
                BridgeOp::Mint { source_tx, .. } => {
                    lemma_push_keeps_contains(m.processed, source_tx, tx);
                },
                _ => {},
            }
        }
        lemma_processed_only_grows(stepped.0, ops.drop_first(), tx);
    }
}

/// A given identifier is inserted at most once: if the processed record
/// starts duplicate-free, it stays duplicate-free through any sequence of
/// operations, since an insertion is gated on absence.
pub proof fn lemma_processed_stays_duplicate_free(m: Model, ops: Seq<BridgeOp>)
    requires
        m.processed.no_duplicates(),
    ensures
        run(m, ops).processed.no_duplicates(),
    decreases ops.len(),
{
    if ops.len() > 0 {
        let stepped = step(m, ops.first());
        if stepped.0.processed != m.processed {
            match ops.first() {
                BridgeOp::Release { source_tx, .. } => {
                    lemma_push_fresh_keeps_no_duplicates(m.processed, source_tx);
                },
                BridgeOp::Mint { source_tx, .. } => {
                    lemma_push_fresh_keeps_no_duplicates(m.processed, source_tx);
                },
                _ => {},
            }
        }
        lemma_processed_stays_duplicate_free(stepped.0, ops.drop_first());
    }
}

/// A successful mint of some amount followed by a burn of the same amount
/// leaves the wrapped supply exactly where it started, and the consumed
/// source transaction stays in the processed record.
pub proof fn lemma_wrapped_round_trip(
    m: Model,
    amount: u64,
    source_tx: [u8; 32],
    recipient_balance: u64,
    burner_balance: u64,
)
    requires
        amount > 0,
        burner_balance >= amount,
        m.nonce < u64::MAX,
        step(m, (BridgeOp::Mint { amount, source_tx, recipient_balance })).1 is None,
    ensures
        ({
            let m1 = step(m, (BridgeOp::Mint { amount, source_tx, recipient_balance })).0;
            let burned = step(m1, (BridgeOp::Burn { amount, user_balance: burner_balance }));
            &&& burned.1 is None
            &&& burned.0.supply == m.supply
            &&& burned.0.processed.contains(source_tx)
        }),
{
    let m1 = step(m, (BridgeOp::Mint { amount, source_tx, recipient_balance })).0;
    assert(m1.processed[m.processed.len() as int] == source_tx);
    assert(m1.processed.contains(source_tx));
}

} // verus!
