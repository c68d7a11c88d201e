//! The token ledger as the bridge sees it: the accounts it reads, and the
//! instructions it hands to the ledger.
//!
//! The ledger's transfer, burn and mint are not carried out here. An
//! operation of the bridge decides which of them are due and returns them;
//! whoever runs the bridge executes them, all or none.

use vstd::prelude::*;
use crate::pubkey::Pubkey;

verus! {

/// What the bridge reads of a token account.
#[derive(Clone, Copy, Debug, PartialEq, Eq)]
pub struct TokenAccount {
    /// The address of the account.
    pub key: Pubkey,
    /// The asset that the account holds.
    pub mint: Pubkey,
    /// Who controls the account.
    pub owner: Pubkey,
    /// The balance, in the asset's smallest unit.
    pub amount: u64,
}

/// What entitles an instruction to move tokens.
#[derive(Clone, Copy, Debug, PartialEq, Eq, Structural)]
pub enum Authorization {
    /// The caller of the operation has signed.
    CallerSignature,
    /// The bridge signs for its configuration record, whose address the
    /// nonce fixes.
    ConfigAuthority { bump: u8 },
}

/// Moves `amount` from one token account to another.
#[derive(Clone, Copy, Debug, PartialEq, Eq)]
pub struct Transfer {
    pub from: Pubkey,
    pub to: Pubkey,
    pub authority: Pubkey,
    pub authorization: Authorization,
    pub amount: u64,
}

/// Destroys `amount` held by a token account.
#[derive(Clone, Copy, Debug, PartialEq, Eq)]
pub struct Burn {
    pub mint: Pubkey,
    pub from: Pubkey,
    pub authority: Pubkey,
    pub authorization: Authorization,
    pub amount: u64,
}

/// Creates `amount` in a token account.
#[derive(Clone, Copy, Debug, PartialEq, Eq)]
pub struct MintTo {
    pub mint: Pubkey,
    pub to: Pubkey,
    pub authority: Pubkey,
    pub authorization: Authorization,
    pub amount: u64,
}

impl Transfer {
    /// Whether the ledger can carry this out on a source that holds `source`.
    pub open spec fn covered_by(self, source: int) -> bool {
        self.amount <= source
    }

    /// The balance of the source afterwards.
    pub open spec fn source_after(self, source: int) -> int
        recommends
            self.covered_by(source),
    {
        source - self.amount
    }

    /// The balance of the destination afterwards.
    pub open spec fn destination_after(self, destination: int) -> int {
        destination + self.amount
    }
}

impl Burn {
    /// Whether the ledger can carry this out on a source that holds `source`.
    pub open spec fn covered_by(self, source: int) -> bool {
        self.amount <= source
    }

    /// The balance of the source afterwards.
    pub open spec fn source_after(self, source: int) -> int
        recommends
            self.covered_by(source),
    {
        source - self.amount
    }
}

impl MintTo {
    /// The balance of the destination afterwards.
    pub open spec fn destination_after(self, destination: int) -> int {
        destination + self.amount
    }
}

} // verus!
