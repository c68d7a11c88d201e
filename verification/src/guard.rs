//! The access control guard: the predicates that an operation must pass
//! before it changes anything.

use vstd::prelude::*;
use crate::error::BridgeError;
use crate::pubkey::Pubkey;
use crate::state::GlobalConfig;

verus! {

/// Owner-only: the caller must be the bridge's authority.
pub open spec fn spec_check_owner(config: GlobalConfig, caller: Pubkey) -> Result<(), BridgeError> {
    if caller == config.authority {
        Ok(())
    } else {
        Err(BridgeError::OnlyOwner)
    }
}

/// Processor-only: the caller must be the configured off-chain processor.
pub open spec fn spec_check_processor(config: GlobalConfig, caller: Pubkey) -> Result<
    (),
    BridgeError,
> {
    if caller == config.offchain_processor {
        Ok(())
    } else {
        Err(BridgeError::OnlyOffchainProcessor)
    }
}

/// Not-paused: the bridge must be running.
pub open spec fn spec_check_not_paused(config: GlobalConfig) -> Result<(), BridgeError> {
    if config.paused {
        Err(BridgeError::BridgePaused)
    } else {
        Ok(())
    }
}

/// Asset-identity match: `mint` must be the asset that the bridge manages.
pub open spec fn spec_check_mint(config: GlobalConfig, mint: Pubkey) -> Result<(), BridgeError> {
    if mint == config.token_mint {
        Ok(())
    } else {
        Err(BridgeError::InvalidMint)
    }
}

/// Ownership match: a token account must be controlled by `expected`.
pub open spec fn spec_check_token_owner(owner: Pubkey, expected: Pubkey) -> Result<
    (),
    BridgeError,
> {
    if owner == expected {
        Ok(())
    } else {
        Err(BridgeError::InvalidOwner)
    }
}

/// Owner-only: passes exactly when `caller` is the bridge's authority.
pub fn check_owner(config: &GlobalConfig, caller: &Pubkey) -> (r: Result<(), BridgeError>)
    ensures
        r == spec_check_owner(*config, *caller),
{
    if *caller == config.authority {
        Ok(())
    } else {
        Err(BridgeError::OnlyOwner)
    }
}

/// Processor-only: passes exactly when `caller` is the configured
/// off-chain processor.
pub fn check_processor(config: &GlobalConfig, caller: &Pubkey) -> (r: Result<(), BridgeError>)
    ensures
        r == spec_check_processor(*config, *caller),
{
    if *caller == config.offchain_processor {
        Ok(())
    } else {
        Err(BridgeError::OnlyOffchainProcessor)
    }
}

/// Not-paused: passes exactly when the pause flag is clear.
pub fn check_not_paused(config: &GlobalConfig) -> (r: Result<(), BridgeError>)
    ensures
        r == spec_check_not_paused(*config),
{
    if config.paused {
        Err(BridgeError::BridgePaused)
    } else {
        Ok(())
    }
}

/// Asset-identity match: passes exactly when `mint` is the configured asset.
pub fn check_mint(config: &GlobalConfig, mint: &Pubkey) -> (r: Result<(), BridgeError>)
    ensures
        r == spec_check_mint(*config, *mint),
{
    if *mint == config.token_mint {
        Ok(())
    } else {
        Err(BridgeError::InvalidMint)
    }
}

/// Ownership match: passes exactly when `owner` is `expected`.
pub fn check_token_owner(owner: &Pubkey, expected: &Pubkey) -> (r: Result<(), BridgeError>)
    ensures
        r == spec_check_token_owner(*owner, *expected),
{
    if *owner == *expected {
        Ok(())
    } else {
        Err(BridgeError::InvalidOwner)
    }
}

} // verus!
