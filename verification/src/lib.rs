//! A custodial lock-and-mint bridge ledger.
//!
//! A depositor hands the bridge an amount of the bridged asset. The bridge
//! keeps a fee, has the rest destroyed, and stores a request under the
//! depositor and the destination. An authorized off-chain processor later
//! has the equivalent minted on the destination chain.
//!
//! The bridge decides and keeps its records; it does not move tokens.
//! Every operation returns the instructions for the token ledger that are
//! due, and whoever runs the bridge carries them out together with the
//! change of the records, all or nothing.

pub mod accounts;
pub mod error;
pub mod events;
pub mod fee;
pub mod guard;
pub mod instructions;
pub mod laws;
pub mod ledger;
pub mod pubkey;
pub mod state;
pub mod token;

pub use accounts::{Close, Initialize, MintAsset, ReceiveAsset, UpdateConfig, WithdrawFees};
pub use error::BridgeError;
pub use events::{AssetMintedEvent, BridgeStartedEvent};
pub use fee::calculate_fee;
pub use instructions::{
    change_offchain_processor, close, initialize, mint_asset, receive_asset, set_paused,
    update_operation_fee, update_transfer_fee, withdraw_fees, MintAssetEffects,
    ReceiveAssetEffects,
};
pub use ledger::BridgeLedger;
pub use pubkey::Pubkey;
pub use state::{BridgeState, BridgeStatus, GlobalConfig};
pub use token::{Authorization, Burn, MintTo, TokenAccount, Transfer};
