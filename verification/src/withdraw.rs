use vstd::prelude::*;

use crate::error::VaultErrorCode;
use crate::exchange::opposite_direction;
use crate::exchange::spec_opposite_direction;
use crate::exchange::ExchangeOrder;
use crate::state::Position;
use crate::state::VaultState;

verus! {

/// Outcome of pricing a redemption: the pro-rata refund
/// `floor(burn * collateral / total_shares)` when it is positive and
/// representable, `WithdrawAmountTooSmall` when it floors to zero, and
/// `MathError` when the arithmetic cannot be carried out exactly.
pub open spec fn spec_refund_outcome(burn: int, collateral: int, total_shares: int) -> Result<
    u64,
    VaultErrorCode,
> {
    if burn * collateral > u128::MAX {
        Err(VaultErrorCode::MathError)
    } else if total_shares == 0 {
        Err(VaultErrorCode::MathError)
    } else {
        let refund = (burn * collateral) / total_shares;
        if refund > u64::MAX {
            Err(VaultErrorCode::MathError)
        } else if refund == 0 {
            Err(VaultErrorCode::WithdrawAmountTooSmall)
        } else {
            Ok(refund as u64)
        }
    }
}

/// Prices a redemption: the depositor burning `burn_amount` of
/// `total_shares` outstanding shares is owed the same fraction of the
/// vault's current collateral, rounded down. A zero refund is rejected with
/// `WithdrawAmountTooSmall`; any overflow, a share count of zero, or a refund
/// beyond the token scalar aborts with `MathError`.
pub fn compute_refund(burn_amount: u128, collateral_amount: u128, total_shares: u64) -> (r: Result<
    u64,
    VaultErrorCode,
>)
    ensures
        r == spec_refund_outcome(burn_amount as int, collateral_amount as int, total_shares as int),
        burn_amount * collateral_amount < total_shares ==> r == Err::<u64, VaultErrorCode>(
            VaultErrorCode::WithdrawAmountTooSmall,
        ),
        r matches Ok(refund) ==> refund == (burn_amount * collateral_amount) / (
        total_shares as int) && refund > 0,
{
    let product = match burn_amount.checked_mul(collateral_amount) {
        Some(p) => p,
        None => {
            return Err(VaultErrorCode::MathError);
        },
    };
    if total_shares == 0 {
        return Err(VaultErrorCode::MathError);
    }
    proof {
        if product < total_shares {
            vstd::arithmetic::div_mod::lemma_basic_div(product as int, total_shares as int);
        }
    }
    let refund = product / (total_shares as u128);
    if refund > u64::MAX as u128 {
        Err(VaultErrorCode::MathError)
    } else if refund == 0 {
        Err(VaultErrorCode::WithdrawAmountTooSmall)
    } else {
        Ok(refund as u64)
    }
}

/// How a withdrawal proceeds once priced: pay the refund directly when the
/// vault holds no position, or first offset part of the open exposure so the
/// vault stays near its 1:1 target after the refund leaves.
#[derive(Clone, Copy, Debug, PartialEq, Eq, Structural)]
pub enum WithdrawPlan {
    Direct { refund_amount: u64 },
    ReduceFirst { order: ExchangeOrder, provisional_refund: u64 },
}

pub open spec fn spec_plan_withdraw(
    burn: int,
    share_balance: int,
    collateral: int,
    liabilities: int,
    total_shares: int,
    current_position: Position,
    market_index: u64,
) -> Result<WithdrawPlan, VaultErrorCode> {
    if share_balance < burn {
        Err(VaultErrorCode::NotEnoughFunds)
    } else {
        match spec_refund_outcome(burn, collateral, total_shares) {
            Err(e) => Err(e),
            Ok(refund) => {
                if current_position == Position::Flat {
                    Ok(WithdrawPlan::Direct { refund_amount: refund })
                } else if collateral < refund {
                    Err(VaultErrorCode::MathError)
                } else if liabilities < collateral - refund {
                    Err(VaultErrorCode::MathError)
                } else {
                    Ok(
                        WithdrawPlan::ReduceFirst {
                            order: ExchangeOrder {
                                direction: spec_opposite_direction(current_position),
                                size: (liabilities - (collateral - refund)) as u128,
                                limit_price: 0,
                                market_index,
                            },
                            provisional_refund: refund,
                        },
                    )
                }
            },
        }
    }
}

/// First phase of a withdrawal, up to the venue call it may need.
///
/// The depositor must hold the shares being burned (`NotEnoughFunds` exactly
/// otherwise), and the priced refund must be positive. With no open position
/// the refund is final. With one, the plan carries an unconditional order in
/// the opposite direction for `liabilities - (collateral - refund)`, the
/// partial offset that keeps the vault near 1:1 once the refund leaves; the
/// refund itself stays provisional, to be re-priced from post-trade
/// collateral. Underflow in the offset arithmetic aborts with `MathError`.
pub fn plan_withdraw(
    burn_amount: u128,
    share_balance: u128,
    collateral_amount: u128,
    liabilities_amount: u128,
    total_shares: u64,
    current_position: Position,
    market_index: u64,
) -> (r: Result<WithdrawPlan, VaultErrorCode>)
    ensures
        r == spec_plan_withdraw(
            burn_amount as int,
            share_balance as int,
            collateral_amount as int,
            liabilities_amount as int,
            total_shares as int,
            current_position,
            market_index,
        ),
        r == Err::<WithdrawPlan, VaultErrorCode>(VaultErrorCode::NotEnoughFunds) <==> share_balance
            < burn_amount,
        share_balance >= burn_amount && burn_amount * collateral_amount < total_shares ==> r
            == Err::<WithdrawPlan, VaultErrorCode>(VaultErrorCode::WithdrawAmountTooSmall),
{
    if share_balance < burn_amount {
        return Err(VaultErrorCode::NotEnoughFunds);
    }
    let refund_amount = match compute_refund(burn_amount, collateral_amount, total_shares) {
        Ok(refund) => refund,
        Err(e) => {
            return Err(e);
        },
    };
    if current_position == Position::Flat {
        return Ok(WithdrawPlan::Direct { refund_amount });
    }
    let new_collateral_amount = match collateral_amount.checked_sub(refund_amount as u128) {
        Some(c) => c,
        None => {
            return Err(VaultErrorCode::MathError);
        },
    };
    let amount_to_reduce = match liabilities_amount.checked_sub(new_collateral_amount) {
        Some(a) => a,
        None => {
            return Err(VaultErrorCode::MathError);
        },
    };
    Ok(
        WithdrawPlan::ReduceFirst {
            order: ExchangeOrder {
                direction: opposite_direction(current_position),
                size: amount_to_reduce,
                limit_price: 0,
                market_index,
            },
            provisional_refund: refund_amount,
        },
    )
}

/// Sanity check after the venue pays out: the vault's collateral balance must
/// have grown by exactly the requested refund. A short payment (or any other
/// mismatch) aborts the withdrawal rather than be corrected.
pub fn verify_collateral_received(balance_before: u64, balance_after: u64, refund_amount: u64) -> (r:
    Result<(), VaultErrorCode>)
    ensures
        r is Ok <==> balance_after == balance_before + refund_amount,
        r is Err ==> r == Err::<(), VaultErrorCode>(VaultErrorCode::WithdrawAmountTooSmall),
{
    match balance_before.checked_add(refund_amount) {
        Some(expected) => {
            if balance_after == expected {
                Ok(())
            } else {
                Err(VaultErrorCode::WithdrawAmountTooSmall)
            }
        },
        None => Err(VaultErrorCode::WithdrawAmountTooSmall),
    }
}

/// Final ledger step of a withdrawal: retire the burned shares. The ledger
/// shrinks by exactly `burn_amount`; a burn beyond the ledger's scalar or its
/// current total aborts with `MathError` and leaves the ledger unchanged.
pub fn commit_withdraw(vault_state: &mut VaultState, burn_amount: u128) -> (r: Result<
    u64,
    VaultErrorCode,
>)
    ensures
        burn_amount <= u64::MAX && burn_amount <= old(vault_state).total_amount_minted ==> {
            &&& r == Ok::<u64, VaultErrorCode>(burn_amount as u64)
            &&& final(vault_state).total_amount_minted == old(vault_state).total_amount_minted
                - burn_amount
        },
        !(burn_amount <= u64::MAX && burn_amount <= old(vault_state).total_amount_minted) ==> {
            &&& r == Err::<u64, VaultErrorCode>(VaultErrorCode::MathError)
            &&& final(vault_state).total_amount_minted == old(vault_state).total_amount_minted
        },
{
    if burn_amount > u64::MAX as u128 {
        return Err(VaultErrorCode::MathError);
    }
    let burned = burn_amount as u64;
    match vault_state.total_amount_minted.checked_sub(burned) {
        Some(total) => {
            vault_state.total_amount_minted = total;
            Ok(burned)
        },
        None => Err(VaultErrorCode::MathError),
    }
}

} // verus!
