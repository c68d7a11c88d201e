//! The ways in which an operation on the bridge is turned down.

use vstd::prelude::*;

verus! {

/// Why an operation was rejected. A rejected operation changes nothing.
#[derive(Clone, Copy, Debug, PartialEq, Eq, Structural)]
pub enum BridgeError {
    /// Deposits and mints are suspended.
    BridgePaused,
    /// The caller is not the bridge's authority.
    OnlyOwner,
    /// The caller is not the configured off-chain processor.
    OnlyOffchainProcessor,
    /// The transfer fee would exceed the maximum rate.
    FeeTooHigh,
    /// The fee would consume the whole deposit.
    FeeExceedsAmount,
    /// A token account or mint is not of the bridged asset.
    InvalidMint,
    /// A token account is not owned by whom it must be.
    InvalidOwner,
    /// The null identity was given where a real one is needed.
    InvalidAddress,
    /// A destination does not fit the bounds of a request record.
    InvalidDestination,
    /// The fee does not fit the wide integer it is computed in.
    ArithmeticOverflow,
    /// The configuration record exists already.
    AlreadyInitialized,
    /// The configuration record does not exist.
    NotInitialized,
    /// A request with the same depositor and destination exists already.
    RequestAlreadyExists,
    /// No request with this depositor and destination exists.
    RequestNotFound,
}

impl BridgeError {
    /// The text that describes this error to a user.
    pub open spec fn spec_message(self) -> Seq<char> {
        match self {
            BridgeError::BridgePaused => "The bridge is paused"@,
            BridgeError::OnlyOwner => "Only the owner can perform this action"@,
            BridgeError::OnlyOffchainProcessor =>
                "Only the offchain processor can perform this action"@,
            BridgeError::FeeTooHigh => "Fee is too high"@,
            BridgeError::FeeExceedsAmount => "Fee exceeds amount"@,
            BridgeError::InvalidMint => "Invalid token mint"@,
            BridgeError::InvalidOwner => "Invalid token account owner"@,
            BridgeError::InvalidAddress => "Invalid address"@,
            BridgeError::InvalidDestination => "Invalid destination"@,
            BridgeError::ArithmeticOverflow => "Arithmetic overflow"@,
            BridgeError::AlreadyInitialized => "The bridge is already initialized"@,
            BridgeError::NotInitialized => "The bridge is not initialized"@,
            BridgeError::RequestAlreadyExists => "The bridge request already exists"@,
            BridgeError::RequestNotFound => "The bridge request does not exist"@,
        }
    }

    /// The text that describes this error to a user.
    pub fn message(&self) -> (text: &'static str)
        ensures
            text@ == self.spec_message(),
    {
        match self {
            BridgeError::BridgePaused => "The bridge is paused",
            BridgeError::OnlyOwner => "Only the owner can perform this action",
            BridgeError::OnlyOffchainProcessor =>
                "Only the offchain processor can perform this action",
            BridgeError::FeeTooHigh => "Fee is too high",
            BridgeError::FeeExceedsAmount => "Fee exceeds amount",
            BridgeError::InvalidMint => "Invalid token mint",
            BridgeError::InvalidOwner => "Invalid token account owner",
            BridgeError::InvalidAddress => "Invalid address",
            BridgeError::InvalidDestination => "Invalid destination",
            BridgeError::ArithmeticOverflow => "Arithmetic overflow",
            BridgeError::AlreadyInitialized => "The bridge is already initialized",
            BridgeError::NotInitialized => "The bridge is not initialized",
            BridgeError::RequestAlreadyExists => "The bridge request already exists",
            BridgeError::RequestNotFound => "The bridge request does not exist",
        }
    }
}

} // verus!
