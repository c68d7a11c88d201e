//! The operations of the bridge.
//!
//! Each operation first passes the access control guard, then decides. It
//! changes the records it was given only when it succeeds, and returns the
//! token instructions and the announcement that are due. A rejected
//! operation leaves everything as it was.

use vstd::prelude::*;
use crate::accounts::{Close, Initialize, MintAsset, ReceiveAsset, UpdateConfig, WithdrawFees};
use crate::error::BridgeError;
use crate::events::{AssetMintedEvent, BridgeStartedEvent, BridgeStartedEventView};
use crate::fee::{calculate_fee, calculate_fee_spec, fee_spec, MAX_TRANSFER_FEE_BASIS_POINTS};
use crate::guard::{
    check_mint, check_not_paused, check_owner, check_processor, check_token_owner,
};
use crate::ledger::request_key;
use crate::pubkey::Pubkey;
use crate::state::{
    byte_len, spec_byte_len, BridgeState, BridgeStateView, BridgeStatus, GlobalConfig,
};
use crate::token::{Authorization, Burn, MintTo, Transfer};

verus! {

/// What an accepted deposit asks of the token ledger, and what it announces.
#[derive(Clone, Debug, PartialEq, Eq)]
pub struct ReceiveAssetEffects {
    /// Moves the whole deposit from the depositor into custody.
    pub transfer: Transfer,
    /// Destroys the deposit less the fee; the fee stays in custody.
    pub burn: Burn,
    pub event: BridgeStartedEvent,
}

/// The first reason for which a deposit is rejected, if there is one.
///
/// In this order: the configuration must exist; the bridge must not be
/// paused; the mint and both token accounts must be of the bridged asset;
/// custody must be controlled by the configuration record; both
/// destination texts must fit a request record; the fee must be less than
/// the amount; and no request may exist under the same key.
pub open spec fn receive_asset_rejection(
    ctx: ReceiveAsset,
    amount: u64,
    destination_chain: Seq<char>,
    destination_address: Seq<char>,
) -> Option<BridgeError> {
    if ctx.global_config is None {
        Some(BridgeError::NotInitialized)
    } else {
        let config = ctx.global_config->0;
        if config.paused {
            Some(BridgeError::BridgePaused)
        } else if ctx.token_mint != config.token_mint {
            Some(BridgeError::InvalidMint)
        } else if ctx.user_token_account.mint != config.token_mint {
            Some(BridgeError::InvalidMint)
        } else if ctx.bridge_token_account.mint != config.token_mint {
            Some(BridgeError::InvalidMint)
        } else if ctx.bridge_token_account.owner != ctx.global_config_address {
            Some(BridgeError::InvalidOwner)
        } else if spec_byte_len(destination_chain) > BridgeState::MAX_DESTINATION_LEN {
            Some(BridgeError::InvalidDestination)
        } else if spec_byte_len(destination_address) > BridgeState::MAX_ADDRESS_LEN {
            Some(BridgeError::InvalidDestination)
        } else if calculate_fee_spec(
            amount,
            config.transfer_fee_basis_points,
            config.operation_fee,
        ) is Err {
            Some(BridgeError::ArithmeticOverflow)
        } else if fee_spec(
            amount as nat,
            config.transfer_fee_basis_points as nat,
            config.operation_fee as nat,
        ) >= amount {
            Some(BridgeError::FeeExceedsAmount)
        } else if ctx.bridge_states@.contains_key(
            request_key(ctx.user, destination_chain, destination_address),
        ) {
            Some(BridgeError::RequestAlreadyExists)
        } else {
            None
        }
    }
}

/// The fee that a deposit of `amount` pays under the configuration in `ctx`.
pub open spec fn receive_asset_fee(ctx: ReceiveAsset, amount: u64) -> nat {
    fee_spec(
        amount as nat,
        ctx.global_config->0.transfer_fee_basis_points as nat,
        ctx.global_config->0.operation_fee as nat,
    )
}

/// The record that an accepted deposit stores: pending, under the caller
/// and the two destination texts, with the nonce that fixes its address.
pub open spec fn receive_asset_record(
    ctx: ReceiveAsset,
    amount: u64,
    destination_chain: Seq<char>,
    destination_address: Seq<char>,
) -> BridgeStateView {
    BridgeStateView {
        user: ctx.user,
        amount,
        destination_chain,
        destination_address,
        status: BridgeStatus::Pending,
        bump: ctx.bridge_state_bump,
    }
}

/// The transfer that an accepted deposit asks for: the whole amount, from
/// the depositor into custody, on the depositor's signature.
pub open spec fn receive_asset_transfer(ctx: ReceiveAsset, amount: u64) -> Transfer {
    Transfer {
        from: ctx.user_token_account.key,
        to: ctx.bridge_token_account.key,
        authority: ctx.user,
        authorization: Authorization::CallerSignature,
        amount,
    }
}

/// The burn that an accepted deposit asks for: the amount less the fee,
/// out of custody, on the authority of the configuration record.
pub open spec fn receive_asset_burn(ctx: ReceiveAsset, amount: u64) -> Burn {
    Burn {
        mint: ctx.token_mint,
        from: ctx.bridge_token_account.key,
        authority: ctx.global_config_address,
        authorization: Authorization::ConfigAuthority { bump: ctx.global_config->0.bump },
        amount: (amount - receive_asset_fee(ctx, amount)) as u64,
    }
}

/// What an accepted deposit announces.
pub open spec fn receive_asset_event(
    ctx: ReceiveAsset,
    amount: u64,
    destination_chain: Seq<char>,
    destination_address: Seq<char>,
) -> BridgeStartedEventView {
    BridgeStartedEventView {
        user: ctx.user,
        amount,
        amount_after_fee: (amount - receive_asset_fee(ctx, amount)) as u64,
        destination_chain,
        destination_address,
    }
}

/// Accepts a deposit of `amount` from the caller, to be minted at
/// `destination_address` on `destination_chain`.
///
/// On success a pending request is stored under the caller and the two
/// destination texts, and nothing else changes. The effects ask the token
/// ledger to move `amount` into custody and to destroy all of it but the
/// fee.
pub fn receive_asset(
    ctx: &mut ReceiveAsset,
    amount: u64,
    destination_chain: String,
    destination_address: String,
) -> (r: Result<ReceiveAssetEffects, BridgeError>)
    ensures
        match receive_asset_rejection(*old(ctx), amount, destination_chain@, destination_address@) {
            Some(error) => r == Err::<ReceiveAssetEffects, BridgeError>(error) && *final(ctx)
                == *old(ctx),
            None => {
                &&& r is Ok
                &&& r->Ok_0.transfer == receive_asset_transfer(*old(ctx), amount)
                &&& r->Ok_0.burn == receive_asset_burn(*old(ctx), amount)
                &&& r->Ok_0.event@ == receive_asset_event(
                    *old(ctx),
                    amount,
                    destination_chain@,
                    destination_address@,
                )
                &&& final(ctx).bridge_states@ == old(ctx).bridge_states@.insert(
                    request_key(old(ctx).user, destination_chain@, destination_address@),
                    receive_asset_record(
                        *old(ctx),
                        amount,
                        destination_chain@,
                        destination_address@,
                    ),
                )
                &&& receive_asset_record(
                    *old(ctx),
                    amount,
                    destination_chain@,
                    destination_address@,
                ).wf()
                &&& final(ctx).global_config == old(ctx).global_config
                &&& final(ctx).global_config_address == old(ctx).global_config_address
                &&& final(ctx).bridge_state_bump == old(ctx).bridge_state_bump
                &&& final(ctx).token_mint == old(ctx).token_mint
                &&& final(ctx).user_token_account == old(ctx).user_token_account
                &&& final(ctx).bridge_token_account == old(ctx).bridge_token_account
                &&& final(ctx).user == old(ctx).user
            },
        },
{
    let config = match ctx.global_config {
        Some(config) => config,
        None => {
            return Err(BridgeError::NotInitialized);
        },
    };
    check_not_paused(&config)?;
    check_mint(&config, &ctx.token_mint)?;
    check_mint(&config, &ctx.user_token_account.mint)?;
    check_mint(&config, &ctx.bridge_token_account.mint)?;
    check_token_owner(&ctx.bridge_token_account.owner, &ctx.global_config_address)?;
    if byte_len(&destination_chain) > BridgeState::MAX_DESTINATION_LEN {
        return Err(BridgeError::InvalidDestination);
    }
    if byte_len(&destination_address) > BridgeState::MAX_ADDRESS_LEN {
        return Err(BridgeError::InvalidDestination);
    }
    let fee_amount = calculate_fee(amount, config.transfer_fee_basis_points, config.operation_fee)?;
    if fee_amount >= amount as u128 {
        return Err(BridgeError::FeeExceedsAmount);
    }
    let amount_after_fee: u64 = amount - (fee_amount as u64);
    let record = BridgeState {
        user: ctx.user,
        amount,
        destination_chain: destination_chain.clone(),
        destination_address: destination_address.clone(),
        status: BridgeStatus::Pending,
        bump: ctx.bridge_state_bump,
    };
    ctx.bridge_states.insert(record)?;
    let transfer = Transfer {
        from: ctx.user_token_account.key,
        to: ctx.bridge_token_account.key,
        authority: ctx.user,
        authorization: Authorization::CallerSignature,
        amount,
    };
    let burn = Burn {
        mint: ctx.token_mint,
        from: ctx.bridge_token_account.key,
        authority: ctx.global_config_address,
        authorization: Authorization::ConfigAuthority { bump: config.bump },
        amount: amount_after_fee,
    };
    let event = BridgeStartedEvent {
        user: ctx.user,
        amount,
        amount_after_fee,
        destination_chain,
        destination_address,
    };
    Ok(ReceiveAssetEffects { transfer, burn, event })
}

/// What an authorized mint asks of the token ledger, and what it announces.
#[derive(Clone, Copy, Debug, PartialEq, Eq)]
pub struct MintAssetEffects {
    /// Creates the amount in the recipient's token account.
    pub mint_to: MintTo,
    pub event: AssetMintedEvent,
}

/// The first reason for which a mint is rejected, if there is one.
///
/// In this order: the configuration must exist; the bridge must not be
/// paused; the caller must be the off-chain processor; the mint and the
/// recipient's token account must be of the bridged asset; and a request
/// must exist under the recipient and the two destination texts.
pub open spec fn mint_asset_rejection(
    ctx: MintAsset,
    destination_chain: Seq<char>,
    destination_address: Seq<char>,
) -> Option<BridgeError> {
    if ctx.global_config is None {
        Some(BridgeError::NotInitialized)
    } else {
        let config = ctx.global_config->0;
        if config.paused {
            Some(BridgeError::BridgePaused)
        } else if ctx.offchain_processor != config.offchain_processor {
            Some(BridgeError::OnlyOffchainProcessor)
        } else if ctx.token_mint != config.token_mint {
            Some(BridgeError::InvalidMint)
        } else if ctx.recipient_token_account.mint != config.token_mint {
            Some(BridgeError::InvalidMint)
        } else if !ctx.bridge_states@.contains_key(
            request_key(ctx.recipient, destination_chain, destination_address),
        ) {
            Some(BridgeError::RequestNotFound)
        } else {
            None
        }
    }
}

/// What an authorized mint of `amount` asks for and announces: `amount`
/// new units for the recipient's token account, on the authority of the
/// configuration record.
pub open spec fn mint_asset_effects(ctx: MintAsset, amount: u64) -> MintAssetEffects {
    MintAssetEffects {
        mint_to: MintTo {
            mint: ctx.token_mint,
            to: ctx.recipient_token_account.key,
            authority: ctx.global_config_address,
            authorization: Authorization::ConfigAuthority { bump: ctx.global_config->0.bump },
            amount,
        },
        event: AssetMintedEvent { recipient: ctx.recipient, amount },
    }
}

/// Authorizes the minting of `amount` for the recipient of a request.
///
/// The destination texts serve to find the request; the amount is taken
/// as the processor gives it, whatever the request holds. No record is
/// changed: a request stays pending after a mint.
pub fn mint_asset(
    ctx: &MintAsset,
    amount: u64,
    destination_chain: String,
    destination_address: String,
) -> (r: Result<MintAssetEffects, BridgeError>)
    ensures
        r == match mint_asset_rejection(*ctx, destination_chain@, destination_address@) {
            Some(error) => Err::<MintAssetEffects, BridgeError>(error),
            None => Ok::<MintAssetEffects, BridgeError>(mint_asset_effects(*ctx, amount)),
        },
{
    let config = match ctx.global_config {
        Some(config) => config,
        None => {
            return Err(BridgeError::NotInitialized);
        },
    };
    check_not_paused(&config)?;
    check_processor(&config, &ctx.offchain_processor)?;
    check_mint(&config, &ctx.token_mint)?;
    check_mint(&config, &ctx.recipient_token_account.mint)?;
    if !ctx.bridge_states.contains(&ctx.recipient, &destination_chain, &destination_address) {
        return Err(BridgeError::RequestNotFound);
    }
    let mint_to = MintTo {
        mint: ctx.token_mint,
        to: ctx.recipient_token_account.key,
        authority: ctx.global_config_address,
        authorization: Authorization::ConfigAuthority { bump: config.bump },
        amount,
    };
    let event = AssetMintedEvent { recipient: ctx.recipient, amount };
    Ok(MintAssetEffects { mint_to, event })
}

/// The first reason for which a withdrawal of the fees is rejected, if
/// there is one.
///
/// In this order: the configuration must exist; the caller must be the
/// authority; custody must be of the bridged asset and controlled by the
/// configuration record; the receiving account must be of the bridged
/// asset and controlled by the fee recipient.
pub open spec fn withdraw_fees_rejection(ctx: WithdrawFees) -> Option<BridgeError> {
    if ctx.global_config is None {
        Some(BridgeError::NotInitialized)
    } else {
        let config = ctx.global_config->0;
        if ctx.authority != config.authority {
            Some(BridgeError::OnlyOwner)
        } else if ctx.bridge_token_account.mint != config.token_mint {
            Some(BridgeError::InvalidMint)
        } else if ctx.bridge_token_account.owner != ctx.global_config_address {
            Some(BridgeError::InvalidOwner)
        } else if ctx.fee_recipient_token_account.mint != config.token_mint {
            Some(BridgeError::InvalidMint)
        } else if ctx.fee_recipient_token_account.owner != config.fee_recipient {
            Some(BridgeError::InvalidOwner)
        } else {
            None
        }
    }
}

/// The transfer that a withdrawal asks for: all that custody holds, to the
/// fee recipient's token account, on the authority of the configuration
/// record.
pub open spec fn withdraw_fees_transfer(ctx: WithdrawFees) -> Transfer {
    Transfer {
        from: ctx.bridge_token_account.key,
        to: ctx.fee_recipient_token_account.key,
        authority: ctx.global_config_address,
        authorization: Authorization::ConfigAuthority { bump: ctx.global_config->0.bump },
        amount: ctx.bridge_token_account.amount,
    }
}

/// Sweeps custody: asks the token ledger to move the whole balance of the
/// custody account to the fee recipient. There is no partial withdrawal.
pub fn withdraw_fees(ctx: &WithdrawFees) -> (r: Result<Transfer, BridgeError>)
    ensures
        r == match withdraw_fees_rejection(*ctx) {
            Some(error) => Err::<Transfer, BridgeError>(error),
            None => Ok::<Transfer, BridgeError>(withdraw_fees_transfer(*ctx)),
        },
{
    let config = match ctx.global_config {
        Some(config) => config,
        None => {
            return Err(BridgeError::NotInitialized);
        },
    };
    check_owner(&config, &ctx.authority)?;
    check_mint(&config, &ctx.bridge_token_account.mint)?;
    check_token_owner(&ctx.bridge_token_account.owner, &ctx.global_config_address)?;
    check_mint(&config, &ctx.fee_recipient_token_account.mint)?;
    check_token_owner(&ctx.fee_recipient_token_account.owner, &config.fee_recipient)?;
    let bridge_token_balance = ctx.bridge_token_account.amount;
    Ok(
        Transfer {
            from: ctx.bridge_token_account.key,
            to: ctx.fee_recipient_token_account.key,
            authority: ctx.global_config_address,
            authorization: Authorization::ConfigAuthority { bump: config.bump },
            amount: bridge_token_balance,
        },
    )
}

/// The first reason for which the bridge cannot be set up, if there is
/// one: a configuration exists already, or the rate is above the maximum.
pub open spec fn initialize_rejection(ctx: Initialize, transfer_fee_basis_points: u16) -> Option<
    BridgeError,
> {
    if ctx.global_config is Some {
        Some(BridgeError::AlreadyInitialized)
    } else if transfer_fee_basis_points > MAX_TRANSFER_FEE_BASIS_POINTS {
        Some(BridgeError::FeeTooHigh)
    } else {
        None
    }
}

/// The configuration that setting up the bridge creates: running, with
/// the caller as authority, and with the nonce that fixes its address.
pub open spec fn initialize_config(
    ctx: Initialize,
    transfer_fee_basis_points: u16,
    operation_fee: u64,
) -> GlobalConfig {
    GlobalConfig {
        token_mint: ctx.token_mint,
        authority: ctx.authority,
        fee_recipient: ctx.fee_recipient,
        transfer_fee_basis_points,
        operation_fee,
        offchain_processor: ctx.offchain_processor,
        paused: false,
        bump: ctx.bump,
    }
}

/// Sets up the bridge: creates its configuration record, which keeps the
/// nonce of its address. Custody and the mint are later controlled on the
/// authority of that record, proved with the nonce stored here.
pub fn initialize(ctx: &mut Initialize, transfer_fee_basis_points: u16, operation_fee: u64) -> (r:
    Result<(), BridgeError>)
    ensures
        match initialize_rejection(*old(ctx), transfer_fee_basis_points) {
            Some(error) => r == Err::<(), BridgeError>(error) && *final(ctx) == *old(ctx),
            None => {
                &&& r == Ok::<(), BridgeError>(())
                &&& *final(ctx) == (Initialize {
                    global_config: Some(
                        initialize_config(*old(ctx), transfer_fee_basis_points, operation_fee),
                    ),
                    ..*old(ctx)
                })
                &&& final(ctx).global_config->0.bump == old(ctx).bump
                &&& final(ctx).global_config->0.wf()
            },
        },
{
    if ctx.global_config.is_some() {
        return Err(BridgeError::AlreadyInitialized);
    }
    if transfer_fee_basis_points > MAX_TRANSFER_FEE_BASIS_POINTS {
        return Err(BridgeError::FeeTooHigh);
    }
    ctx.global_config = Some(
        GlobalConfig {
            token_mint: ctx.token_mint,
            authority: ctx.authority,
            fee_recipient: ctx.fee_recipient,
            transfer_fee_basis_points,
            operation_fee,
            offchain_processor: ctx.offchain_processor,
            paused: false,
            bump: ctx.bump,
        },
    );
    Ok(())
}

/// Why the caller may not change the configuration, if that is so: there
/// is none, or the caller is not its authority.
pub open spec fn update_config_rejection(ctx: UpdateConfig) -> Option<BridgeError> {
    if ctx.global_config is None {
        Some(BridgeError::NotInitialized)
    } else if ctx.authority != ctx.global_config->0.authority {
        Some(BridgeError::OnlyOwner)
    } else {
        None
    }
}

/// Passes the guard of an operation that changes the configuration, and
/// hands out the configuration as it stands.
fn authorized_config(ctx: &UpdateConfig) -> (r: Result<GlobalConfig, BridgeError>)
    ensures
        r == match update_config_rejection(*ctx) {
            Some(error) => Err::<GlobalConfig, BridgeError>(error),
            None => Ok::<GlobalConfig, BridgeError>(ctx.global_config->0),
        },
{
    let config = match ctx.global_config {
        Some(config) => config,
        None => {
            return Err(BridgeError::NotInitialized);
        },
    };
    check_owner(&config, &ctx.authority)?;
    Ok(config)
}

/// The first reason for which a new rate is rejected, if there is one:
/// the caller may not change the configuration, or the rate is above the
/// maximum.
pub open spec fn update_transfer_fee_rejection(ctx: UpdateConfig, new_fee: u16) -> Option<
    BridgeError,
> {
    if update_config_rejection(ctx) is Some {
        update_config_rejection(ctx)
    } else if new_fee > MAX_TRANSFER_FEE_BASIS_POINTS {
        Some(BridgeError::FeeTooHigh)
    } else {
        None
    }
}

/// Sets the proportional fee to `new_fee` basis points.
pub fn update_transfer_fee(ctx: &mut UpdateConfig, new_fee: u16) -> (r: Result<(), BridgeError>)
    ensures
        match update_transfer_fee_rejection(*old(ctx), new_fee) {
            Some(error) => r == Err::<(), BridgeError>(error) && *final(ctx) == *old(ctx),
            None => {
                &&& r == Ok::<(), BridgeError>(())
                &&& *final(ctx) == (UpdateConfig {
                    global_config: Some(
                        GlobalConfig {
                            transfer_fee_basis_points: new_fee,
                            ..old(ctx).global_config->0
                        },
                    ),
                    ..*old(ctx)
                })
                &&& final(ctx).global_config->0.wf()
            },
        },
{
    let config = authorized_config(ctx)?;
    if new_fee > MAX_TRANSFER_FEE_BASIS_POINTS {
        return Err(BridgeError::FeeTooHigh);
    }
    ctx.global_config = Some(GlobalConfig { transfer_fee_basis_points: new_fee, ..config });
    Ok(())
}

/// Sets the flat fee to `new_fee`. Any value is accepted.
pub fn update_operation_fee(ctx: &mut UpdateConfig, new_fee: u64) -> (r: Result<(), BridgeError>)
    ensures
        match update_config_rejection(*old(ctx)) {
            Some(error) => r == Err::<(), BridgeError>(error) && *final(ctx) == *old(ctx),
            None => {
                &&& r == Ok::<(), BridgeError>(())
                &&& *final(ctx) == (UpdateConfig {
                    global_config: Some(
                        GlobalConfig { operation_fee: new_fee, ..old(ctx).global_config->0 },
                    ),
                    ..*old(ctx)
                })
                &&& old(ctx).global_config->0.wf() ==> final(ctx).global_config->0.wf()
            },
        },
{
    let config = authorized_config(ctx)?;
    ctx.global_config = Some(GlobalConfig { operation_fee: new_fee, ..config });
    Ok(())
}

/// The first reason for which a new processor is rejected, if there is
/// one: the caller may not change the configuration, or the new processor
/// is the null identity.
pub open spec fn change_offchain_processor_rejection(
    ctx: UpdateConfig,
    new_processor: Pubkey,
) -> Option<BridgeError> {
    if update_config_rejection(ctx) is Some {
        update_config_rejection(ctx)
    } else if new_processor.is_null() {
        Some(BridgeError::InvalidAddress)
    } else {
        None
    }
}

/// Hands the right to trigger minting to `new_processor`.
pub fn change_offchain_processor(ctx: &mut UpdateConfig, new_processor: Pubkey) -> (r: Result<
    (),
    BridgeError,
>)
    ensures
        match change_offchain_processor_rejection(*old(ctx), new_processor) {
            Some(error) => r == Err::<(), BridgeError>(error) && *final(ctx) == *old(ctx),
            None => {
                &&& r == Ok::<(), BridgeError>(())
                &&& *final(ctx) == (UpdateConfig {
                    global_config: Some(
                        GlobalConfig {
                            offchain_processor: new_processor,
                            ..old(ctx).global_config->0
                        },
                    ),
                    ..*old(ctx)
                })
                &&& old(ctx).global_config->0.wf() ==> final(ctx).global_config->0.wf()
            },
        },
{
    let config = authorized_config(ctx)?;
    if new_processor.is_default() {
        return Err(BridgeError::InvalidAddress);
    }
    ctx.global_config = Some(GlobalConfig { offchain_processor: new_processor, ..config });
    Ok(())
}

/// Suspends deposits and mints, or resumes them.
pub fn set_paused(ctx: &mut UpdateConfig, paused: bool) -> (r: Result<(), BridgeError>)
    ensures
        match update_config_rejection(*old(ctx)) {
            Some(error) => r == Err::<(), BridgeError>(error) && *final(ctx) == *old(ctx),
            None => {
                &&& r == Ok::<(), BridgeError>(())
                &&& *final(ctx) == (UpdateConfig {
                    global_config: Some(GlobalConfig { paused, ..old(ctx).global_config->0 }),
                    ..*old(ctx)
                })
                &&& old(ctx).global_config->0.wf() ==> final(ctx).global_config->0.wf()
            },
        },
{
    let config = authorized_config(ctx)?;
    ctx.global_config = Some(GlobalConfig { paused, ..config });
    Ok(())
}

/// Why the caller may not close the bridge, if that is so: there is no
/// configuration, or the caller is not its authority.
pub open spec fn close_rejection(ctx: Close) -> Option<BridgeError> {
    if ctx.global_config is None {
        Some(BridgeError::NotInitialized)
    } else if ctx.authority != ctx.global_config->0.authority {
        Some(BridgeError::OnlyOwner)
    } else {
        None
    }
}

/// Closes the bridge for good: destroys its configuration record.
pub fn close(ctx: &mut Close) -> (r: Result<(), BridgeError>)
    ensures
        match close_rejection(*old(ctx)) {
            Some(error) => r == Err::<(), BridgeError>(error) && *final(ctx) == *old(ctx),
            None => {
                &&& r == Ok::<(), BridgeError>(())
                &&& *final(ctx) == (Close { global_config: None, ..*old(ctx) })
            },
        },
{
    let config = match ctx.global_config {
        Some(config) => config,
        None => {
            return Err(BridgeError::NotInitialized);
        },
    };
    check_owner(&config, &ctx.authority)?;
    ctx.global_config = None;
    Ok(())
}

} // verus!
