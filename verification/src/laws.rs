//! What holds of the bridge whatever it is given: laws that relate its
//! operations, stated over their specifications and proved.

use vstd::prelude::*;
use crate::accounts::{Close, Initialize, MintAsset, ReceiveAsset, UpdateConfig, WithdrawFees};
use crate::error::BridgeError;
use crate::fee::{calculate_fee_spec, lemma_fee_bounds};
use crate::instructions::{
    change_offchain_processor_rejection, close_rejection, initialize_config,
    initialize_rejection, mint_asset_effects, mint_asset_rejection, receive_asset_burn, receive_asset_fee,
    receive_asset_record, receive_asset_rejection, receive_asset_transfer,
    update_config_rejection, update_transfer_fee_rejection, withdraw_fees_rejection,
    withdraw_fees_transfer,
};
use crate::ledger::request_key;
use crate::pubkey::Pubkey;
use crate::state::{spec_byte_len, BridgeState, RequestKey};
use crate::token::Authorization;

verus! {

/// The fee is `floor(amount * basis_points / 10000) + operation_fee` for
/// every amount, rate and flat fee: the 128-bit arithmetic never overflows.
pub proof fn law_fee_formula(amount: u64, basis_points: u16, operation_fee: u64)
    ensures
        calculate_fee_spec(amount, basis_points, operation_fee) == Ok::<u128, BridgeError>(
            (amount * basis_points / 10000 + operation_fee) as u128,
        ),
        amount * basis_points / 10000 + operation_fee <= u128::MAX,
{
    lemma_fee_bounds(amount, basis_points, operation_fee);
}

/// The fee depends on the amount, the rate and the flat fee alone: equal
/// inputs give equal fees.
pub proof fn law_fee_is_a_function(
    amount: u64,
    basis_points: u16,
    operation_fee: u64,
    same_amount: u64,
    same_basis_points: u16,
    same_operation_fee: u64,
)
    requires
        amount == same_amount,
        basis_points == same_basis_points,
        operation_fee == same_operation_fee,
    ensures
        calculate_fee_spec(amount, basis_points, operation_fee) == calculate_fee_spec(
            same_amount,
            same_basis_points,
            same_operation_fee,
        ),
{
}

/// Where the bridge is not yet set up, and where the caller is its
/// authority, a rate of at most 1000 basis points is accepted and a higher
/// one is rejected as too high: both when the bridge is set up and when
/// the rate is changed.
pub proof fn law_rate_is_bounded(init: Initialize, update: UpdateConfig, basis_points: u16)
    requires
        init.global_config is None,
        update_config_rejection(update) is None,
    ensures
        basis_points <= 1000 ==> initialize_rejection(init, basis_points) is None
            && update_transfer_fee_rejection(update, basis_points) is None,
        basis_points > 1000 ==> initialize_rejection(init, basis_points) == Some(
            BridgeError::FeeTooHigh,
        ) && update_transfer_fee_rejection(update, basis_points) == Some(BridgeError::FeeTooHigh),
{
}

/// The configuration keeps the nonce that it was set up with, and every
/// instruction that the bridge issues on the authority of its
/// configuration record proves that authority with this nonce: the burn
/// of a deposit, a mint, and the sweep of the fees.
pub proof fn law_authority_proof_carries_the_nonce(
    init: Initialize,
    transfer_fee_basis_points: u16,
    operation_fee: u64,
    receive: ReceiveAsset,
    mint: MintAsset,
    withdraw: WithdrawFees,
    amount: u64,
)
    requires
        initialize_rejection(init, transfer_fee_basis_points) is None,
        receive.global_config == Some(
            initialize_config(init, transfer_fee_basis_points, operation_fee),
        ),
        mint.global_config == receive.global_config,
        withdraw.global_config == receive.global_config,
    ensures
        initialize_config(init, transfer_fee_basis_points, operation_fee).bump == init.bump,
        receive_asset_burn(receive, amount).authorization == (Authorization::ConfigAuthority {
            bump: init.bump,
        }),
        mint_asset_effects(mint, amount).mint_to.authorization == (
        Authorization::ConfigAuthority { bump: init.bump }),
        withdraw_fees_transfer(withdraw).authorization == (Authorization::ConfigAuthority {
            bump: init.bump,
        }),
{
}

/// Whether nothing but the fee can stand in the way of a deposit: the
/// bridge is set up and running, the mint and the token accounts are of
/// the bridged asset, custody is controlled by the configuration record,
/// the destination fits, and no request exists under the same key.
pub open spec fn deposit_is_admissible(
    ctx: ReceiveAsset,
    destination_chain: Seq<char>,
    destination_address: Seq<char>,
) -> bool {
    &&& ctx.global_config is Some
    &&& !ctx.global_config->0.paused
    &&& ctx.token_mint == ctx.global_config->0.token_mint
    &&& ctx.user_token_account.mint == ctx.global_config->0.token_mint
    &&& ctx.bridge_token_account.mint == ctx.global_config->0.token_mint
    &&& ctx.bridge_token_account.owner == ctx.global_config_address
    &&& spec_byte_len(destination_chain) <= BridgeState::MAX_DESTINATION_LEN
    &&& spec_byte_len(destination_address) <= BridgeState::MAX_ADDRESS_LEN
    &&& !ctx.bridge_states@.contains_key(
        request_key(ctx.user, destination_chain, destination_address),
    )
}

/// An admissible deposit succeeds if and only if its fee is less than its
/// amount; otherwise it is rejected because the fee exceeds the amount.
/// No deposit at all succeeds with a fee that is not less than its amount.
pub proof fn law_deposit_succeeds_iff_fee_below_amount(
    ctx: ReceiveAsset,
    amount: u64,
    destination_chain: Seq<char>,
    destination_address: Seq<char>,
)
    ensures
        deposit_is_admissible(ctx, destination_chain, destination_address) ==> (
        receive_asset_rejection(ctx, amount, destination_chain, destination_address) is None
            <==> receive_asset_fee(ctx, amount) < amount),
        deposit_is_admissible(ctx, destination_chain, destination_address) && receive_asset_fee(
            ctx,
            amount,
        ) >= amount ==> receive_asset_rejection(
            ctx,
            amount,
            destination_chain,
            destination_address,
        ) == Some(BridgeError::FeeExceedsAmount),
        receive_asset_rejection(ctx, amount, destination_chain, destination_address) is None
            ==> deposit_is_admissible(ctx, destination_chain, destination_address)
            && receive_asset_fee(ctx, amount) < amount,
{
    if ctx.global_config is Some {
        lemma_fee_bounds(
            amount,
            ctx.global_config->0.transfer_fee_basis_points,
            ctx.global_config->0.operation_fee,
        );
    }
}

/// An accepted deposit moves the whole amount into custody and destroys
/// all of it but the fee: custody ends up holding what it held before,
/// and the fee.
pub proof fn law_deposit_keeps_the_fee_in_custody(
    ctx: ReceiveAsset,
    amount: u64,
    destination_chain: Seq<char>,
    destination_address: Seq<char>,
    custody: int,
)
    requires
        receive_asset_rejection(ctx, amount, destination_chain, destination_address) is None,
        0 <= custody,
    ensures
        receive_asset_transfer(ctx, amount).amount == amount,
        receive_asset_burn(ctx, amount).amount == amount - receive_asset_fee(ctx, amount),
        receive_asset_burn(ctx, amount).covered_by(
            receive_asset_transfer(ctx, amount).destination_after(custody),
        ),
        receive_asset_burn(ctx, amount).source_after(
            receive_asset_transfer(ctx, amount).destination_after(custody),
        ) == custody + receive_asset_fee(ctx, amount),
{
}

/// After an accepted deposit, every further deposit by the same depositor
/// to the same destination is rejected, whatever its amount; one whose
/// fee is less than its amount, because the request exists already. The
/// request of the first deposit stays as it was stored.
pub proof fn law_second_deposit_is_rejected(
    before: ReceiveAsset,
    after: ReceiveAsset,
    amount: u64,
    second_amount: u64,
    destination_chain: Seq<char>,
    destination_address: Seq<char>,
)
    requires
        receive_asset_rejection(before, amount, destination_chain, destination_address) is None,
        after.bridge_states@ == before.bridge_states@.insert(
            request_key(before.user, destination_chain, destination_address),
            receive_asset_record(before, amount, destination_chain, destination_address),
        ),
        after.global_config == before.global_config,
        after.global_config_address == before.global_config_address,
        after.bridge_state_bump == before.bridge_state_bump,
        after.token_mint == before.token_mint,
        after.user_token_account == before.user_token_account,
        after.bridge_token_account == before.bridge_token_account,
        after.user == before.user,
    ensures
        receive_asset_rejection(after, second_amount, destination_chain, destination_address)
            is Some,
        receive_asset_fee(after, second_amount) < second_amount ==> receive_asset_rejection(
            after,
            second_amount,
            destination_chain,
            destination_address,
        ) == Some(BridgeError::RequestAlreadyExists),
        receive_asset_rejection(after, amount, destination_chain, destination_address) == Some(
            BridgeError::RequestAlreadyExists,
        ),
        after.bridge_states@[request_key(after.user, destination_chain, destination_address)]
            == receive_asset_record(before, amount, destination_chain, destination_address),
{
    lemma_fee_bounds(
        amount,
        before.global_config->0.transfer_fee_basis_points,
        before.global_config->0.operation_fee,
    );
    lemma_fee_bounds(
        second_amount,
        before.global_config->0.transfer_fee_basis_points,
        before.global_config->0.operation_fee,
    );
}

/// Deposits to different destinations, or by different depositors, do not
/// stand in each other's way: an accepted deposit leaves every other key
/// of the ledger as it was.
pub proof fn law_deposits_are_independent(
    before: ReceiveAsset,
    after: ReceiveAsset,
    amount: u64,
    destination_chain: Seq<char>,
    destination_address: Seq<char>,
    other: RequestKey,
)
    requires
        after.bridge_states@ == before.bridge_states@.insert(
            request_key(before.user, destination_chain, destination_address),
            receive_asset_record(before, amount, destination_chain, destination_address),
        ),
        other != request_key(before.user, destination_chain, destination_address),
    ensures
        after.bridge_states@.contains_key(other) == before.bridge_states@.contains_key(other),
        before.bridge_states@.contains_key(other) ==> after.bridge_states@[other]
            == before.bridge_states@[other],
{
}

/// While the bridge is paused, a mint is rejected as paused, whoever calls
/// and whatever else holds.
pub proof fn law_paused_bridge_rejects_mint(
    ctx: MintAsset,
    destination_chain: Seq<char>,
    destination_address: Seq<char>,
)
    requires
        ctx.global_config is Some,
        ctx.global_config->0.paused,
    ensures
        mint_asset_rejection(ctx, destination_chain, destination_address) == Some(
            BridgeError::BridgePaused,
        ),
{
}

/// While the bridge is paused, a deposit is rejected as paused.
pub proof fn law_paused_bridge_rejects_deposit(
    ctx: ReceiveAsset,
    amount: u64,
    destination_chain: Seq<char>,
    destination_address: Seq<char>,
)
    requires
        ctx.global_config is Some,
        ctx.global_config->0.paused,
    ensures
        receive_asset_rejection(ctx, amount, destination_chain, destination_address) == Some(
            BridgeError::BridgePaused,
        ),
{
}

/// On a running bridge, a mint by anyone but the configured processor is
/// rejected for that reason, whether or not a request exists.
pub proof fn law_mint_is_for_the_processor_only(
    ctx: MintAsset,
    destination_chain: Seq<char>,
    destination_address: Seq<char>,
)
    requires
        ctx.global_config is Some,
        !ctx.global_config->0.paused,
        ctx.offchain_processor != ctx.global_config->0.offchain_processor,
    ensures
        mint_asset_rejection(ctx, destination_chain, destination_address) == Some(
            BridgeError::OnlyOffchainProcessor,
        ),
{
}

/// A mint reads of the ledger only whether the request exists: neither the
/// amount nor the status that the request holds bears on whether the mint
/// is authorized or on what is minted.
pub proof fn law_mint_reads_only_that_the_request_exists(
    ctx: MintAsset,
    other: MintAsset,
    amount: u64,
    destination_chain: Seq<char>,
    destination_address: Seq<char>,
)
    requires
        other.global_config == ctx.global_config,
        other.global_config_address == ctx.global_config_address,
        other.token_mint == ctx.token_mint,
        other.recipient_token_account == ctx.recipient_token_account,
        other.recipient == ctx.recipient,
        other.offchain_processor == ctx.offchain_processor,
        other.bridge_states@.contains_key(
            request_key(ctx.recipient, destination_chain, destination_address),
        ) == ctx.bridge_states@.contains_key(
            request_key(ctx.recipient, destination_chain, destination_address),
        ),
    ensures
        mint_asset_rejection(other, destination_chain, destination_address)
            == mint_asset_rejection(ctx, destination_chain, destination_address),
        mint_asset_effects(other, amount) == mint_asset_effects(ctx, amount),
{
}

/// An authorized withdrawal asks for all that custody holds, from custody
/// to the fee recipient's token account: custody is empty afterwards, and
/// the recipient has gained what custody held.
pub proof fn law_withdrawal_empties_custody(ctx: WithdrawFees, recipient: int)
    requires
        withdraw_fees_rejection(ctx) is None,
    ensures
        withdraw_fees_transfer(ctx).from == ctx.bridge_token_account.key,
        withdraw_fees_transfer(ctx).to == ctx.fee_recipient_token_account.key,
        withdraw_fees_transfer(ctx).covered_by(ctx.bridge_token_account.amount as int),
        withdraw_fees_transfer(ctx).source_after(ctx.bridge_token_account.amount as int) == 0,
        withdraw_fees_transfer(ctx).destination_after(recipient) == recipient
            + ctx.bridge_token_account.amount,
{
}

/// Only the authority changes the configuration, withdraws the fees or
/// closes the bridge: from any other caller each of these is rejected as
/// owner-only.
pub proof fn law_administration_is_for_the_owner_only(
    update: UpdateConfig,
    withdraw: WithdrawFees,
    close: Close,
    new_fee: u16,
    new_processor: Pubkey,
)
    ensures
        update.global_config is Some && update.authority != update.global_config->0.authority ==> {
            &&& update_config_rejection(update) == Some(BridgeError::OnlyOwner)
            &&& update_transfer_fee_rejection(update, new_fee) == Some(BridgeError::OnlyOwner)
            &&& change_offchain_processor_rejection(update, new_processor) == Some(
                BridgeError::OnlyOwner,
            )
        },
        withdraw.global_config is Some && withdraw.authority
            != withdraw.global_config->0.authority ==> withdraw_fees_rejection(withdraw) == Some(
            BridgeError::OnlyOwner,
        ),
        close.global_config is Some && close.authority != close.global_config->0.authority
            ==> close_rejection(close) == Some(BridgeError::OnlyOwner),
{
}

/// Once the configuration record is gone, the bridge has halted: deposits,
/// mints, withdrawals and changes of the configuration are all rejected.
pub proof fn law_closed_bridge_has_halted(
    receive: ReceiveAsset,
    mint: MintAsset,
    withdraw: WithdrawFees,
    update: UpdateConfig,
    close: Close,
    amount: u64,
    new_fee: u16,
    new_processor: Pubkey,
    destination_chain: Seq<char>,
    destination_address: Seq<char>,
)
    requires
        receive.global_config is None,
        mint.global_config is None,
        withdraw.global_config is None,
        update.global_config is None,
        close.global_config is None,
    ensures
        receive_asset_rejection(receive, amount, destination_chain, destination_address) == Some(
            BridgeError::NotInitialized,
        ),
        mint_asset_rejection(mint, destination_chain, destination_address) == Some(
            BridgeError::NotInitialized,
        ),
        withdraw_fees_rejection(withdraw) == Some(BridgeError::NotInitialized),
        update_config_rejection(update) == Some(BridgeError::NotInitialized),
        update_transfer_fee_rejection(update, new_fee) == Some(BridgeError::NotInitialized),
        change_offchain_processor_rejection(update, new_processor) == Some(
            BridgeError::NotInitialized,
        ),
        close_rejection(close) == Some(BridgeError::NotInitialized),
{
}

} // verus!
