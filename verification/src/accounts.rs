//! What each operation of the bridge works on: the records and token
//! accounts it touches, and the identity of its caller.

use vstd::prelude::*;
use crate::ledger::BridgeLedger;
use crate::pubkey::Pubkey;
use crate::state::GlobalConfig;
use crate::token::TokenAccount;

verus! {

/// For `initialize`.
#[derive(Clone, Copy, Debug, PartialEq, Eq)]
pub struct Initialize {
    /// The place of the configuration record: empty before, filled after.
    pub global_config: Option<GlobalConfig>,
    /// The nonce that fixes the address of the configuration record.
    pub bump: u8,
    /// The asset that the bridge is to manage.
    pub token_mint: Pubkey,
    /// The caller, who becomes the bridge's authority.
    pub authority: Pubkey,
    pub fee_recipient: Pubkey,
    pub offchain_processor: Pubkey,
}

/// For `receive_asset`.
#[derive(Debug)]
pub struct ReceiveAsset {
    /// The place of the configuration record.
    pub global_config: Option<GlobalConfig>,
    /// The address of the configuration record, which controls custody.
    pub global_config_address: Pubkey,
    /// The request ledger.
    pub bridge_states: BridgeLedger,
    /// The nonce that fixes the address of the request to be stored.
    pub bridge_state_bump: u8,
    pub token_mint: Pubkey,
    /// The depositor's token account.
    pub user_token_account: TokenAccount,
    /// The bridge's custody account.
    pub bridge_token_account: TokenAccount,
    /// The caller: the depositor.
    pub user: Pubkey,
}

/// For `mint_asset`.
#[derive(Debug)]
pub struct MintAsset {
    /// The place of the configuration record.
    pub global_config: Option<GlobalConfig>,
    /// The address of the configuration record, which controls the mint.
    pub global_config_address: Pubkey,
    /// The request ledger.
    pub bridge_states: BridgeLedger,
    pub token_mint: Pubkey,
    /// The token account that is to receive the minted amount.
    pub recipient_token_account: TokenAccount,
    /// Whose deposit is being honoured.
    pub recipient: Pubkey,
    /// The caller.
    pub offchain_processor: Pubkey,
}

/// For the operations that change the configuration.
#[derive(Clone, Copy, Debug, PartialEq, Eq)]
pub struct UpdateConfig {
    /// The place of the configuration record.
    pub global_config: Option<GlobalConfig>,
    /// The caller.
    pub authority: Pubkey,
}

/// For `withdraw_fees`.
#[derive(Clone, Copy, Debug, PartialEq, Eq)]
pub struct WithdrawFees {
    /// The place of the configuration record.
    pub global_config: Option<GlobalConfig>,
    /// The address of the configuration record, which controls custody.
    pub global_config_address: Pubkey,
    /// The bridge's custody account.
    pub bridge_token_account: TokenAccount,
    /// The token account that is to receive the fees.
    pub fee_recipient_token_account: TokenAccount,
    /// The caller.
    pub authority: Pubkey,
}

/// For `close`.
#[derive(Clone, Copy, Debug, PartialEq, Eq)]
pub struct Close {
    /// The place of the configuration record: filled before, empty after.
    pub global_config: Option<GlobalConfig>,
    /// The caller.
    pub authority: Pubkey,
}

} // verus!
