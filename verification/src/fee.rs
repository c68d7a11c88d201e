//! The fee that the bridge keeps from a deposit.

use vstd::prelude::*;
use crate::error::BridgeError;

verus! {

/// One hundred percent, in basis points.
pub const BASIS_POINTS_DENOMINATOR: u128 = 10000;

/// The highest transfer fee rate that a configuration may hold: ten percent.
pub const MAX_TRANSFER_FEE_BASIS_POINTS: u16 = 1000;

/// The fee on `amount` at a rate of `basis_points`, with the flat
/// `operation_fee` added: `floor(amount * basis_points / 10000) + operation_fee`.
pub open spec fn fee_spec(amount: nat, basis_points: nat, operation_fee: nat) -> nat {
    amount * basis_points / 10000 + operation_fee
}

/// What `calculate_fee` returns: the fee, unless the product or the sum
/// leaves the range of the 128-bit integer that they are computed in.
pub open spec fn calculate_fee_spec(amount: u64, basis_points: u16, operation_fee: u64) -> Result<
    u128,
    BridgeError,
> {
    if amount * basis_points > u128::MAX {
        Err(BridgeError::ArithmeticOverflow)
    } else if fee_spec(amount as nat, basis_points as nat, operation_fee as nat) > u128::MAX {
        Err(BridgeError::ArithmeticOverflow)
    } else {
        Ok(fee_spec(amount as nat, basis_points as nat, operation_fee as nat) as u128)
    }
}

/// A 64-bit amount times a 16-bit rate stays below `2^80`, and so does the
/// fee with a 64-bit flat part below `2^81`.
pub proof fn lemma_fee_bounds(amount: u64, basis_points: u16, operation_fee: u64)
    ensures
        amount * basis_points <= 0xffff_ffff_ffff_ffff * 0xffff,
        fee_spec(amount as nat, basis_points as nat, operation_fee as nat) <= 0xffff_ffff_ffff_ffff
            * 0xffff + 0xffff_ffff_ffff_ffff,
{
    assert(amount * basis_points <= 0xffff_ffff_ffff_ffff * 0xffff) by (nonlinear_arith)
        requires
            0 <= amount <= 0xffff_ffff_ffff_ffff,
            0 <= basis_points <= 0xffff,
    ;
    assert(0 <= amount * basis_points) by (nonlinear_arith)
        requires
            0 <= amount,
            0 <= basis_points,
    ;
    let product = amount * basis_points;
    assert(product / 10000 <= product);
}

/// Computes the fee that a deposit of `amount` pays.
///
/// The product and the sum are formed in 128 bits and each is checked.
pub fn calculate_fee(amount: u64, basis_points: u16, operation_fee: u64) -> (r: Result<
    u128,
    BridgeError,
>)
    ensures
        r == calculate_fee_spec(amount, basis_points, operation_fee),
{
    proof {
        lemma_fee_bounds(amount, basis_points, operation_fee);
    }
    let product = match (amount as u128).checked_mul(basis_points as u128) {
        Some(product) => product,
        None => {
            return Err(BridgeError::ArithmeticOverflow);
        },
    };
    let proportional = product / BASIS_POINTS_DENOMINATOR;
    match proportional.checked_add(operation_fee as u128) {
        Some(fee) => Ok(fee),
        None => Err(BridgeError::ArithmeticOverflow),
    }
}

} // verus!
