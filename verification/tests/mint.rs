use bridge::{
    close, initialize, mint_asset, receive_asset, set_paused, withdraw_fees, AssetMintedEvent,
    Authorization, BridgeError, BridgeLedger, BridgeStatus, Close, GlobalConfig, Initialize,
    MintAsset, MintAssetEffects, MintTo, Pubkey, ReceiveAsset, TokenAccount, UpdateConfig,
    WithdrawFees,
};

const MNT_MINT: u8 = 1;
const MNT_OWNER: u8 = 2;
const MNT_FEE_RECIPIENT: u8 = 3;
const MNT_PROCESSOR: u8 = 4;
const MNT_CONFIG_ADDRESS: u8 = 5;
const MNT_CUSTODY: u8 = 6;
const MNT_FEE_ACCOUNT: u8 = 7;
const MNT_USER: u8 = 10;
const MNT_USER_ACCOUNT: u8 = 11;
const MNT_OTHER: u8 = 20;
const MNT_CONFIG_BUMP: u8 = 252;

fn mnt_key(n: u8) -> Pubkey {
    Pubkey::new_from_array([n; 32])
}

fn mnt_config() -> GlobalConfig {
    GlobalConfig {
        token_mint: mnt_key(MNT_MINT),
        authority: mnt_key(MNT_OWNER),
        fee_recipient: mnt_key(MNT_FEE_RECIPIENT),
        transfer_fee_basis_points: 50,
        operation_fee: 1_000,
        offchain_processor: mnt_key(MNT_PROCESSOR),
        paused: false,
        bump: MNT_CONFIG_BUMP,
    }
}

fn mnt_deposit_context(config: Option<GlobalConfig>, ledger: BridgeLedger) -> ReceiveAsset {
    ReceiveAsset {
        global_config: config,
        global_config_address: mnt_key(MNT_CONFIG_ADDRESS),
        bridge_states: ledger,
        bridge_state_bump: 250,
        token_mint: mnt_key(MNT_MINT),
        user_token_account: TokenAccount {
            key: mnt_key(MNT_USER_ACCOUNT),
            mint: mnt_key(MNT_MINT),
            owner: mnt_key(MNT_USER),
            amount: 5_000_000,
        },
        bridge_token_account: TokenAccount {
            key: mnt_key(MNT_CUSTODY),
            mint: mnt_key(MNT_MINT),
            owner: mnt_key(MNT_CONFIG_ADDRESS),
            amount: 0,
        },
        user: mnt_key(MNT_USER),
    }
}

fn mnt_ledger_with_a_deposit() -> BridgeLedger {
    let mut ctx = mnt_deposit_context(Some(mnt_config()), BridgeLedger::new());
    let deposited = receive_asset(&mut ctx, 1_000_000, "ethereum".to_string(), "0xabc".to_string());
    assert!(deposited.is_ok());
    ctx.bridge_states
}

fn mnt_context(caller: u8, ledger: BridgeLedger) -> MintAsset {
    MintAsset {
        global_config: Some(mnt_config()),
        global_config_address: mnt_key(MNT_CONFIG_ADDRESS),
        bridge_states: ledger,
        token_mint: mnt_key(MNT_MINT),
        recipient_token_account: TokenAccount {
            key: mnt_key(MNT_USER_ACCOUNT),
            mint: mnt_key(MNT_MINT),
            owner: mnt_key(MNT_USER),
            amount: 0,
        },
        recipient: mnt_key(MNT_USER),
        offchain_processor: mnt_key(caller),
    }
}

fn mnt_mint(ctx: &MintAsset, amount: u64) -> Result<MintAssetEffects, BridgeError> {
    mint_asset(ctx, amount, "ethereum".to_string(), "0xabc".to_string())
}

fn mnt_expected(amount: u64) -> MintAssetEffects {
    MintAssetEffects {
        mint_to: MintTo {
            mint: mnt_key(MNT_MINT),
            to: mnt_key(MNT_USER_ACCOUNT),
            authority: mnt_key(MNT_CONFIG_ADDRESS),
            authorization: Authorization::ConfigAuthority { bump: MNT_CONFIG_BUMP },
            amount,
        },
        event: AssetMintedEvent { recipient: mnt_key(MNT_USER), amount },
    }
}

#[test]
fn mint_for_a_stored_request() {
    let ctx = mnt_context(MNT_PROCESSOR, mnt_ledger_with_a_deposit());
    assert_eq!(mnt_mint(&ctx, 994_000), Ok(mnt_expected(994_000)));
}

#[test]
fn mint_while_paused_is_rejected_whoever_calls() {
    for caller in [MNT_PROCESSOR, MNT_OWNER, MNT_USER, MNT_OTHER] {
        let mut ctx = mnt_context(caller, mnt_ledger_with_a_deposit());
        ctx.global_config = Some(GlobalConfig { paused: true, ..mnt_config() });
        assert_eq!(mnt_mint(&ctx, 994_000), Err(BridgeError::BridgePaused));
    }
    // Also where nothing else is in order.
    let mut ctx = mnt_context(MNT_OTHER, BridgeLedger::new());
    ctx.global_config = Some(GlobalConfig { paused: true, ..mnt_config() });
    ctx.token_mint = mnt_key(MNT_OTHER);
    assert_eq!(mnt_mint(&ctx, 0), Err(BridgeError::BridgePaused));
}

#[test]
fn mint_by_anyone_but_the_processor_is_rejected() {
    for caller in [MNT_OWNER, MNT_USER, MNT_FEE_RECIPIENT, MNT_OTHER] {
        let ctx = mnt_context(caller, mnt_ledger_with_a_deposit());
        assert_eq!(mnt_mint(&ctx, 994_000), Err(BridgeError::OnlyOffchainProcessor));
    }
    // With no request stored, the caller is still the first thing wrong.
    let ctx = mnt_context(MNT_OTHER, BridgeLedger::new());
    assert_eq!(mnt_mint(&ctx, 994_000), Err(BridgeError::OnlyOffchainProcessor));
}

#[test]
fn mint_follows_a_change_of_processor() {
    let mut update = UpdateConfig { global_config: Some(mnt_config()), authority: mnt_key(MNT_OWNER) };
    assert_eq!(bridge::change_offchain_processor(&mut update, mnt_key(MNT_OTHER)), Ok(()));
    let mut by_old = mnt_context(MNT_PROCESSOR, mnt_ledger_with_a_deposit());
    by_old.global_config = update.global_config;
    assert_eq!(mnt_mint(&by_old, 1), Err(BridgeError::OnlyOffchainProcessor));
    let mut by_new = mnt_context(MNT_OTHER, mnt_ledger_with_a_deposit());
    by_new.global_config = update.global_config;
    assert!(mnt_mint(&by_new, 1).is_ok());
}

#[test]
fn mint_checks_the_asset() {
    let mut wrong_mint = mnt_context(MNT_PROCESSOR, mnt_ledger_with_a_deposit());
    wrong_mint.token_mint = mnt_key(MNT_OTHER);
    assert_eq!(mnt_mint(&wrong_mint, 994_000), Err(BridgeError::InvalidMint));
    let mut wrong_account = mnt_context(MNT_PROCESSOR, mnt_ledger_with_a_deposit());
    wrong_account.recipient_token_account.mint = mnt_key(MNT_OTHER);
    assert_eq!(mnt_mint(&wrong_account, 994_000), Err(BridgeError::InvalidMint));
}

#[test]
fn mint_needs_a_request() {
    let ctx = mnt_context(MNT_PROCESSOR, BridgeLedger::new());
    assert_eq!(mnt_mint(&ctx, 994_000), Err(BridgeError::RequestNotFound));
}

#[test]
fn mint_needs_the_request_of_this_recipient_and_destination() {
    let ctx = mnt_context(MNT_PROCESSOR, mnt_ledger_with_a_deposit());
    assert_eq!(
        mint_asset(&ctx, 994_000, "polygon".to_string(), "0xabc".to_string()),
        Err(BridgeError::RequestNotFound)
    );
    assert_eq!(
        mint_asset(&ctx, 994_000, "ethereum".to_string(), "0xabd".to_string()),
        Err(BridgeError::RequestNotFound)
    );
    let mut other_recipient = mnt_context(MNT_PROCESSOR, mnt_ledger_with_a_deposit());
    other_recipient.recipient = mnt_key(MNT_OTHER);
    assert_eq!(mnt_mint(&other_recipient, 994_000), Err(BridgeError::RequestNotFound));
}

#[test]
fn mint_takes_the_amount_as_given() {
    // The request holds 1,000,000; the amount to mint is not held against it.
    let ctx = mnt_context(MNT_PROCESSOR, mnt_ledger_with_a_deposit());
    for amount in [0u64, 1, 994_000, 1_000_000, 7_000_000, u64::MAX] {
        assert_eq!(mnt_mint(&ctx, amount), Ok(mnt_expected(amount)));
    }
}

#[test]
fn mint_leaves_the_request_pending_and_may_be_repeated() {
    let ctx = mnt_context(MNT_PROCESSOR, mnt_ledger_with_a_deposit());
    assert_eq!(mnt_mint(&ctx, 994_000), Ok(mnt_expected(994_000)));
    let stored = ctx.bridge_states.get(&mnt_key(MNT_USER), &"ethereum".to_string(), &"0xabc".to_string());
    assert_eq!(stored.map(|request| request.status), Some(BridgeStatus::Pending));
    assert_eq!(stored.map(|request| request.amount), Some(1_000_000));
    assert_eq!(ctx.bridge_states.len(), 1);
    // A second mint against the same request is authorized like the first.
    assert_eq!(mnt_mint(&ctx, 994_000), Ok(mnt_expected(994_000)));
}

#[test]
fn mint_signs_with_the_nonce_of_the_configuration() {
    let mut ctx = mnt_context(MNT_PROCESSOR, mnt_ledger_with_a_deposit());
    ctx.global_config = Some(GlobalConfig { bump: 253, ..mnt_config() });
    let effects = mnt_mint(&ctx, 5).unwrap();
    assert_eq!(effects.mint_to.authorization, Authorization::ConfigAuthority { bump: 253 });
}

#[test]
fn mint_needs_a_configuration() {
    let mut ctx = mnt_context(MNT_PROCESSOR, mnt_ledger_with_a_deposit());
    ctx.global_config = None;
    assert_eq!(mnt_mint(&ctx, 994_000), Err(BridgeError::NotInitialized));
}

#[test]
fn a_bridge_from_set_up_to_close() {
    // Set up.
    let mut setup = Initialize {
        global_config: None,
        bump: MNT_CONFIG_BUMP,
        token_mint: mnt_key(MNT_MINT),
        authority: mnt_key(MNT_OWNER),
        fee_recipient: mnt_key(MNT_FEE_RECIPIENT),
        offchain_processor: mnt_key(MNT_PROCESSOR),
    };
    assert_eq!(initialize(&mut setup, 50, 1_000), Ok(()));
    let config = setup.global_config;
    assert_eq!(config, Some(mnt_config()));

    // Deposit.
    let mut deposit = mnt_deposit_context(config, BridgeLedger::new());
    let effects = receive_asset(&mut deposit, 1_000_000, "ethereum".to_string(), "0xabc".to_string()).unwrap();
    let mut custody = deposit.bridge_token_account;
    custody.amount = custody.amount + effects.transfer.amount - effects.burn.amount;
    assert_eq!(custody.amount, 6_000);

    // Pause: deposits and mints stop.
    let mut update = UpdateConfig { global_config: config, authority: mnt_key(MNT_OWNER) };
    assert_eq!(set_paused(&mut update, true), Ok(()));
    deposit.global_config = update.global_config;
    assert_eq!(
        receive_asset(&mut deposit, 1_000_000, "polygon".to_string(), "0xabc".to_string()),
        Err(BridgeError::BridgePaused)
    );
    let mut mint = mnt_context(MNT_PROCESSOR, deposit.bridge_states);
    mint.global_config = update.global_config;
    assert_eq!(mnt_mint(&mint, 994_000), Err(BridgeError::BridgePaused));

    // Resume and mint.
    assert_eq!(set_paused(&mut update, false), Ok(()));
    mint.global_config = update.global_config;
    assert_eq!(mnt_mint(&mint, 994_000), Ok(mnt_expected(994_000)));

    // Sweep the fees: custody is left empty.
    let withdraw = WithdrawFees {
        global_config: update.global_config,
        global_config_address: mnt_key(MNT_CONFIG_ADDRESS),
        bridge_token_account: custody,
        fee_recipient_token_account: TokenAccount {
            key: mnt_key(MNT_FEE_ACCOUNT),
            mint: mnt_key(MNT_MINT),
            owner: mnt_key(MNT_FEE_RECIPIENT),
            amount: 0,
        },
        authority: mnt_key(MNT_OWNER),
    };
    let sweep = withdraw_fees(&withdraw).unwrap();
    assert_eq!(sweep.amount, 6_000);
    assert_eq!(custody.amount - sweep.amount, 0);

    // Close: nothing works any more.
    let mut closing = Close { global_config: update.global_config, authority: mnt_key(MNT_OWNER) };
    assert_eq!(close(&mut closing), Ok(()));
    mint.global_config = closing.global_config;
    assert_eq!(mnt_mint(&mint, 994_000), Err(BridgeError::NotInitialized));
}
