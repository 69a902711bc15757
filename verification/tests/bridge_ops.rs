use token_bridge::burn_wrapped;
use token_bridge::lock;
use token_bridge::mint_wrapped;
use token_bridge::release;
use token_bridge::BridgeError;
use token_bridge::BridgeState;
use token_bridge::BurnWrapped;
use token_bridge::Lock;
use token_bridge::MintWrapped;
use token_bridge::Release;
use token_bridge::TokenAccount;
use token_bridge::WrappedMint;

fn lock_ctx(user_balance: u64, vault_balance: u64, nonce: u64) -> Lock {
    Lock {
        user: [1u8; 32],
        user_token_account: TokenAccount {
            balance: user_balance,
        },
        vault: TokenAccount {
            balance: vault_balance,
        },
        token_mint: [2u8; 32],
        bridge_state: BridgeState {
            nonce,
            processed: Vec::new(),
        },
        slot: 900,
    }
}

fn mint_ctx(recipient_balance: u64, supply: u64) -> MintWrapped {
    MintWrapped {
        user: [4u8; 32],
        user_token_account: TokenAccount {
            balance: recipient_balance,
        },
        wrapped_mint: WrappedMint {
            key: [5u8; 32],
            supply,
        },
        bridge_state: BridgeState {
            nonce: 0,
            processed: Vec::new(),
        },
    }
}

#[test]
fn lock_zero_amount_rejected_without_mutation() {
    let mut ctx = lock_ctx(100, 7, 3);
    let r = lock(&mut ctx, 0, [9u8; 32], vec![1, 2, 3]);
    assert_eq!(r.unwrap_err(), BridgeError::InvalidAmount);
    assert_eq!(ctx.user_token_account.balance, 100);
    assert_eq!(ctx.vault.balance, 7);
    assert_eq!(ctx.bridge_state.nonce, 3);
    assert!(ctx.bridge_state.processed.is_empty());
}

#[test]
fn burn_zero_amount_rejected_without_mutation() {
    let mut ctx = BurnWrapped {
        user: [4u8; 32],
        user_token_account: TokenAccount { balance: 80 },
        wrapped_mint: WrappedMint {
            key: [5u8; 32],
            supply: 500,
        },
        bridge_state: BridgeState {
            nonce: 11,
            processed: vec![[8u8; 32]],
        },
    };
    let r = burn_wrapped(&mut ctx, 0, [9u8; 32], vec![1]);
    assert_eq!(r.unwrap_err(), BridgeError::InvalidAmount);
    assert_eq!(ctx.user_token_account.balance, 80);
    assert_eq!(ctx.wrapped_mint.supply, 500);
    assert_eq!(ctx.bridge_state.nonce, 11);
    assert_eq!(ctx.bridge_state.processed.len(), 1);
}

#[test]
fn lock_oversized_target_address_rejected() {
    let mut ctx = lock_ctx(100, 0, 0);
    let r = lock(&mut ctx, 5, [9u8; 32], vec![0u8; 65]);
    assert_eq!(r.unwrap_err(), BridgeError::InvalidTargetAddress);
    assert_eq!(ctx.bridge_state.nonce, 0);
    assert_eq!(ctx.vault.balance, 0);
}

#[test]
fn lock_address_at_bound_accepted() {
    let mut ctx = lock_ctx(100, 0, 0);
    let r = lock(&mut ctx, 5, [9u8; 32], vec![0u8; 64]);
    assert!(r.is_ok());
    assert_eq!(ctx.vault.balance, 5);
}

#[test]
fn lock_insufficient_caller_funds_is_adapter_failure() {
    let mut ctx = lock_ctx(4, 0, 0);
    let r = lock(&mut ctx, 5, [9u8; 32], Vec::new());
    assert_eq!(r.unwrap_err(), BridgeError::AdapterFailure);
    assert_eq!(ctx.user_token_account.balance, 4);
    assert_eq!(ctx.bridge_state.nonce, 0);
}

#[test]
fn lock_vault_overflow_is_adapter_failure() {
    let mut ctx = lock_ctx(100, u64::MAX - 2, 0);
    let r = lock(&mut ctx, 3, [9u8; 32], Vec::new());
    assert_eq!(r.unwrap_err(), BridgeError::AdapterFailure);
    assert_eq!(ctx.vault.balance, u64::MAX - 2);
}

#[test]
fn lock_emits_full_event() {
    let mut ctx = lock_ctx(100, 7, 41);
    let ev = lock(&mut ctx, 25, [9u8; 32], vec![0xab, 0xcd]).unwrap();
    assert_eq!(ev.source, [1u8; 32]);
    assert_eq!(ev.token, [2u8; 32]);
    assert_eq!(ev.amount, 25);
    assert_eq!(ev.target_chain, [9u8; 32]);
    assert_eq!(ev.target_addr, vec![0xab, 0xcd]);
    assert_eq!(ev.nonce, 42);
    assert_eq!(ev.slot, 900);
    assert_eq!(ctx.user_token_account.balance, 75);
    assert_eq!(ctx.vault.balance, 32);
    assert_eq!(ctx.bridge_state.nonce, 42);
}

#[test]
fn round_trip_lock_release_then_replay_rejected() {
    let mut ctx = lock_ctx(1000, 0, 0);
    let chain_b = [9u8; 32];
    let addr_x = vec![7u8; 20];
    let locked = lock(&mut ctx, 100, chain_b, addr_x).unwrap();
    assert_eq!(locked.amount, 100);
    assert_eq!(locked.nonce, 1);

    let tx_t = [0x11u8; 32];
    let mut rctx = Release {
        user: [3u8; 32],
        user_token_account: TokenAccount { balance: 0 },
        vault: ctx.vault,
        bridge_state: ctx.bridge_state,
    };
    let released = release(&mut rctx, 100, tx_t).unwrap();
    assert_eq!(released.recipient, [3u8; 32]);
    assert_eq!(released.amount, 100);
    assert_eq!(released.source_tx, tx_t);
    assert_eq!(rctx.vault.balance, 0);
    assert_eq!(rctx.user_token_account.balance, 100);
    assert_eq!(rctx.bridge_state.nonce, 1);

    let replay = release(&mut rctx, 100, tx_t);
    assert_eq!(replay.unwrap_err(), BridgeError::AlreadyProcessed);
    assert_eq!(rctx.user_token_account.balance, 100);
    assert_eq!(rctx.bridge_state.processed.len(), 1);
}

#[test]
fn mint_twice_same_source_tx_one_success_one_rejection() {
    let mut ctx = mint_ctx(0, 0);
    let tx = [0x22u8; 32];
    let first = mint_wrapped(&mut ctx, 50, tx, [6u8; 32]);
    assert!(first.is_ok());
    let second = mint_wrapped(&mut ctx, 50, tx, [6u8; 32]);
    assert_eq!(second.unwrap_err(), BridgeError::AlreadyProcessed);
    assert_eq!(ctx.wrapped_mint.supply, 50);
    assert_eq!(ctx.user_token_account.balance, 50);
    assert_eq!(ctx.bridge_state.processed.len(), 1);
}

#[test]
fn release_after_mint_same_source_tx_rejected() {
    let mut ctx = mint_ctx(0, 0);
    let tx = [0x33u8; 32];
    mint_wrapped(&mut ctx, 10, tx, [6u8; 32]).unwrap();
    let mut rctx = Release {
        user: [3u8; 32],
        user_token_account: TokenAccount { balance: 0 },
        vault: TokenAccount { balance: 1000 },
        bridge_state: ctx.bridge_state,
    };
    let r = release(&mut rctx, 10, tx);
    assert_eq!(r.unwrap_err(), BridgeError::AlreadyProcessed);
    assert_eq!(rctx.vault.balance, 1000);
}

#[test]
fn nonce_counts_outbound_only() {
    let mut ctx = lock_ctx(1000, 0, 0);
    lock(&mut ctx, 10, [9u8; 32], Vec::new()).unwrap();
    lock(&mut ctx, 10, [9u8; 32], Vec::new()).unwrap();
    assert_eq!(ctx.bridge_state.nonce, 2);

    let mut bctx = BurnWrapped {
        user: [4u8; 32],
        user_token_account: TokenAccount { balance: 100 },
        wrapped_mint: WrappedMint {
            key: [5u8; 32],
            supply: 100,
        },
        bridge_state: ctx.bridge_state,
    };
    burn_wrapped(&mut bctx, 30, [9u8; 32], Vec::new()).unwrap();
    assert_eq!(bctx.bridge_state.nonce, 3);

    let mut mctx = MintWrapped {
        user: [4u8; 32],
        user_token_account: TokenAccount { balance: 0 },
        wrapped_mint: bctx.wrapped_mint,
        bridge_state: bctx.bridge_state,
    };
    mint_wrapped(&mut mctx, 5, [0x44u8; 32], [6u8; 32]).unwrap();
    assert_eq!(mctx.bridge_state.nonce, 3);

    let mut rctx = Release {
        user: [3u8; 32],
        user_token_account: TokenAccount { balance: 0 },
        vault: TokenAccount { balance: 20 },
        bridge_state: mctx.bridge_state,
    };
    release(&mut rctx, 20, [0x55u8; 32]).unwrap();
    assert_eq!(rctx.bridge_state.nonce, 3);

    // A rejected outbound operation does not move the nonce either.
    let mut ctx2 = lock_ctx(0, 0, 3);
    assert!(lock(&mut ctx2, 10, [9u8; 32], Vec::new()).is_err());
    assert_eq!(ctx2.bridge_state.nonce, 3);
}

#[test]
fn vault_balance_is_locks_minus_releases() {
    let mut ctx = lock_ctx(1000, 0, 0);
    lock(&mut ctx, 300, [9u8; 32], Vec::new()).unwrap();
    lock(&mut ctx, 200, [9u8; 32], Vec::new()).unwrap();
    assert_eq!(ctx.vault.balance, 500);

    let mut rctx = Release {
        user: [3u8; 32],
        user_token_account: TokenAccount { balance: 0 },
        vault: ctx.vault,
        bridge_state: ctx.bridge_state,
    };
    release(&mut rctx, 120, [0x61u8; 32]).unwrap();
    release(&mut rctx, 80, [0x62u8; 32]).unwrap();
    assert_eq!(rctx.vault.balance, 300);
}

#[test]
fn release_exceeding_vault_fails_with_adapter_failure_and_no_change() {
    let mut rctx = Release {
        user: [3u8; 32],
        user_token_account: TokenAccount { balance: 5 },
        vault: TokenAccount { balance: 99 },
        bridge_state: BridgeState {
            nonce: 2,
            processed: Vec::new(),
        },
    };
    let r = release(&mut rctx, 100, [0x71u8; 32]);
    assert_eq!(r.unwrap_err(), BridgeError::AdapterFailure);
    assert_eq!(rctx.vault.balance, 99);
    assert_eq!(rctx.user_token_account.balance, 5);
    assert!(rctx.bridge_state.processed.is_empty());
    // The source transaction was not consumed: a funded retry succeeds.
    let retry = release(&mut rctx, 99, [0x71u8; 32]);
    assert!(retry.is_ok());
}

#[test]
fn mint_supply_overflow_is_adapter_failure() {
    let mut ctx = mint_ctx(0, u64::MAX - 1);
    let r = mint_wrapped(&mut ctx, 2, [0x81u8; 32], [6u8; 32]);
    assert_eq!(r.unwrap_err(), BridgeError::AdapterFailure);
    assert_eq!(ctx.wrapped_mint.supply, u64::MAX - 1);
    assert!(ctx.bridge_state.processed.is_empty());
}

#[test]
fn burn_exceeding_balance_is_adapter_failure() {
    let mut ctx = BurnWrapped {
        user: [4u8; 32],
        user_token_account: TokenAccount { balance: 10 },
        wrapped_mint: WrappedMint {
            key: [5u8; 32],
            supply: 100,
        },
        bridge_state: BridgeState {
            nonce: 0,
            processed: Vec::new(),
        },
    };
    let r = burn_wrapped(&mut ctx, 11, [9u8; 32], Vec::new());
    assert_eq!(r.unwrap_err(), BridgeError::AdapterFailure);
    assert_eq!(ctx.user_token_account.balance, 10);
    assert_eq!(ctx.wrapped_mint.supply, 100);
}

#[test]
fn mint_then_burn_leaves_supply_unchanged_and_tx_consumed() {
    let tx_t2 = [0x92u8; 32];
    let chain_c = [6u8; 32];
    let mut mctx = mint_ctx(0, 1000);
    let minted = mint_wrapped(&mut mctx, 50, tx_t2, chain_c).unwrap();
    assert_eq!(minted.amount, 50);
    assert_eq!(minted.wrapped_mint, [5u8; 32]);
    assert_eq!(minted.source_tx, tx_t2);
    assert_eq!(minted.source_chain, chain_c);
    assert_eq!(mctx.wrapped_mint.supply, 1050);

    let mut bctx = BurnWrapped {
        user: [4u8; 32],
        user_token_account: mctx.user_token_account,
        wrapped_mint: mctx.wrapped_mint,
        bridge_state: mctx.bridge_state,
    };
    let burned = burn_wrapped(&mut bctx, 50, chain_c, vec![0x59u8; 4]).unwrap();
    assert_eq!(burned.amount, 50);
    assert_eq!(burned.nonce, 1);
    assert_eq!(bctx.wrapped_mint.supply, 1000);
    assert_eq!(bctx.user_token_account.balance, 0);

    // The consumed id stays consumed: a replayed mint is still rejected.
    let mut mctx2 = MintWrapped {
        user: [4u8; 32],
        user_token_account: bctx.user_token_account,
        wrapped_mint: bctx.wrapped_mint,
        bridge_state: bctx.bridge_state,
    };
    let replay = mint_wrapped(&mut mctx2, 50, tx_t2, chain_c);
    assert_eq!(replay.unwrap_err(), BridgeError::AlreadyProcessed);
}

#[test]
fn contains_tx_finds_only_present_ids() {
    let mut one = [0u8; 32];
    one[31] = 1;
    let mut almost_one = one;
    almost_one[0] = 0xff;
    let list = vec![[7u8; 32], one];
    assert!(token_bridge::contains_tx(&list, &one));
    assert!(token_bridge::contains_tx(&list, &[7u8; 32]));
    assert!(!token_bridge::contains_tx(&list, &almost_one));
    assert!(!token_bridge::contains_tx(&Vec::new(), &one));
}
