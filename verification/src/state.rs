//! The records that the bridge keeps: its configuration and its requests.

use vstd::prelude::*;
use crate::pubkey::Pubkey;

verus! {

/// The number of bytes that a text takes when stored: the length of its
/// UTF-8 encoding.
pub open spec fn spec_byte_len(text: Seq<char>) -> nat {
    vstd::utf8::encode_utf8(text).len()
}

/// The number of bytes that `text` takes when stored.
pub fn byte_len(text: &String) -> (n: usize)
    ensures
        n == spec_byte_len(text@),
{
    text.as_str().as_bytes().len()
}

/// The bridge-wide parameters and the holders of its capabilities.
/// One such record exists per deployment.
#[derive(Clone, Copy, Debug, PartialEq, Eq)]
pub struct GlobalConfig {
    /// The asset that the bridge manages.
    pub token_mint: Pubkey,
    /// The holder of the owner capability.
    pub authority: Pubkey,
    /// Who is entitled to the fees that were kept.
    pub fee_recipient: Pubkey,
    /// The proportional fee, in basis points.
    pub transfer_fee_basis_points: u16,
    /// The flat fee on every request, in the asset's smallest unit.
    pub operation_fee: u64,
    /// Who may trigger minting.
    pub offchain_processor: Pubkey,
    /// While set, deposits and mints are rejected.
    pub paused: bool,
    /// The nonce that fixes the address of this record.
    pub bump: u8,
}

impl GlobalConfig {
    /// Bytes of a stored configuration: an 8-byte tag, four identities, the
    /// rate, the flat fee, the pause flag and the nonce.
    pub const LEN: usize = 8 + 32 + 32 + 32 + 2 + 8 + 32 + 1 + 1;

    /// The invariant of a configuration: its rate is at most ten percent.
    pub open spec fn wf(&self) -> bool {
        self.transfer_fee_basis_points <= 1000
    }
}

/// How far a request has come.
#[derive(Clone, Copy, Debug, PartialEq, Eq, Structural)]
pub enum BridgeStatus {
    Pending,
    Completed,
    Failed,
}

/// One accepted deposit, waiting to be minted on the destination chain.
#[derive(Clone, Debug, PartialEq, Eq)]
pub struct BridgeState {
    /// Who made the deposit.
    pub user: Pubkey,
    /// The amount deposited, before the fee.
    pub amount: u64,
    /// The chain on which the asset is to be minted.
    pub destination_chain: String,
    /// The address on that chain that is to receive it.
    pub destination_address: String,
    pub status: BridgeStatus,
    /// The nonce that fixes the address of this record.
    pub bump: u8,
}

/// What identifies a request: the depositor and where the asset is to go.
pub struct RequestKey {
    pub user: Pubkey,
    pub destination_chain: Seq<char>,
    pub destination_address: Seq<char>,
}

/// A request as a mathematical value.
pub struct BridgeStateView {
    pub user: Pubkey,
    pub amount: u64,
    pub destination_chain: Seq<char>,
    pub destination_address: Seq<char>,
    pub status: BridgeStatus,
    pub bump: u8,
}

impl BridgeStateView {
    /// The key under which the ledger holds this request.
    pub open spec fn key(self) -> RequestKey {
        RequestKey {
            user: self.user,
            destination_chain: self.destination_chain,
            destination_address: self.destination_address,
        }
    }

    /// The invariant of a request: both destination texts fit the space
    /// that a stored request has for them.
    pub open spec fn wf(self) -> bool {
        &&& spec_byte_len(self.destination_chain) <= BridgeState::MAX_DESTINATION_LEN
        &&& spec_byte_len(self.destination_address) <= BridgeState::MAX_ADDRESS_LEN
    }

    /// Bytes that this request takes when stored: the tag, the depositor,
    /// the amount, each text behind its 4-byte length, status and nonce.
    pub open spec fn stored_len(self) -> nat {
        8 + 32 + 8 + (4 + spec_byte_len(self.destination_chain)) + (4 + spec_byte_len(
            self.destination_address,
        )) + 1 + 1
    }
}

impl View for BridgeState {
    type V = BridgeStateView;

    open spec fn view(&self) -> BridgeStateView {
        BridgeStateView {
            user: self.user,
            amount: self.amount,
            destination_chain: self.destination_chain@,
            destination_address: self.destination_address@,
            status: self.status,
            bump: self.bump,
        }
    }
}

impl BridgeState {
    /// The most bytes that a destination chain may take.
    pub const MAX_DESTINATION_LEN: usize = 64;

    /// The most bytes that a destination address may take.
    pub const MAX_ADDRESS_LEN: usize = 42;

    /// Bytes set aside for a stored request.
    pub const LEN: usize = 8 + 32 + 8 + (4 + 64) + (4 + 42) + 1 + 1;

    /// Tells whether both destination texts fit the space that a stored
    /// request has for them.
    pub fn fits(&self) -> (r: bool)
        ensures
            r == self@.wf(),
    {
        byte_len(&self.destination_chain) <= BridgeState::MAX_DESTINATION_LEN && byte_len(
            &self.destination_address,
        ) <= BridgeState::MAX_ADDRESS_LEN
    }

    /// A request whose texts fit takes no more bytes than are set aside for it.
    pub proof fn lemma_stored_len_is_bounded(request: BridgeStateView)
        requires
            request.wf(),
        ensures
            request.stored_len() <= BridgeState::LEN,
    {
    }
}

} // verus!
