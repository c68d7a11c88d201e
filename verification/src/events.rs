//! What the bridge announces when an operation has gone through.

use vstd::prelude::*;
use crate::pubkey::Pubkey;

verus! {

/// A deposit was accepted.
#[derive(Clone, Debug, PartialEq, Eq)]
pub struct BridgeStartedEvent {
    /// The depositor.
    pub user: Pubkey,
    /// The amount deposited.
    pub amount: u64,
    /// The amount that was destroyed: the deposit less the fee.
    pub amount_after_fee: u64,
    pub destination_chain: String,
    pub destination_address: String,
}

/// A deposit announcement as a mathematical value.
pub struct BridgeStartedEventView {
    pub user: Pubkey,
    pub amount: u64,
    pub amount_after_fee: u64,
    pub destination_chain: Seq<char>,
    pub destination_address: Seq<char>,
}

impl View for BridgeStartedEvent {
    type V = BridgeStartedEventView;

    open spec fn view(&self) -> BridgeStartedEventView {
        BridgeStartedEventView {
            user: self.user,
            amount: self.amount,
            amount_after_fee: self.amount_after_fee,
            destination_chain: self.destination_chain@,
            destination_address: self.destination_address@,
        }
    }
}

/// Tokens were minted for a recipient.
#[derive(Clone, Copy, Debug, PartialEq, Eq)]
pub struct AssetMintedEvent {
    pub recipient: Pubkey,
    pub amount: u64,
}

} // verus!
