use vstd::prelude::*;

use crate::error::VaultErrorCode;
use crate::exchange::spec_amount_to_trade;
use crate::exchange::ExchangeOrder;
use crate::state::Position;

verus! {

/// Funding signal of one market: time-weighted mark price minus time-weighted
/// oracle price. Negative means shorts are paying longs (the strategy should
/// go long); positive means longs are paying shorts (go short); zero means no
/// action. Fails with `MathError` exactly when the difference cannot be
/// represented as a signed scalar.
pub fn compute_funding_signal(mark_price_twap: u128, oracle_price_twap: i128) -> (r: Result<
    i128,
    VaultErrorCode,
>)
    ensures
        r is Ok <==> mark_price_twap <= i128::MAX && i128::MIN <= mark_price_twap
            - oracle_price_twap <= i128::MAX,
        r matches Ok(f) ==> f == mark_price_twap - oracle_price_twap,
        r matches Ok(f) ==> ((f == 0) <==> mark_price_twap == oracle_price_twap),
        r is Err ==> r == Err::<i128, VaultErrorCode>(VaultErrorCode::MathError),
{
    if mark_price_twap > i128::MAX as u128 {
        return Err(VaultErrorCode::MathError);
    }
    let mark = mark_price_twap as i128;
    match mark.checked_sub(oracle_price_twap) {
        Some(f) => Ok(f),
        None => Err(VaultErrorCode::MathError),
    }
}

/// The direction the funding signal calls for: long when shorts pay longs
/// (negative signal), short when longs pay shorts (positive), flat when the
/// signal is zero.
pub open spec fn spec_funding_direction(funding: int) -> Position {
    if funding == 0 {
        Position::Flat
    } else if funding < 0 {
        Position::Long
    } else {
        Position::Short
    }
}

pub fn funding_direction(funding: i128) -> (d: Position)
    ensures
        d == spec_funding_direction(funding as int),
{
    if funding == 0 {
        Position::Flat
    } else if funding < 0 {
        Position::Long
    } else {
        Position::Short
    }
}

/// What one position update does before any sizing: nothing at all on a zero
/// funding signal, otherwise trade toward `direction`, closing the current
/// position first when it points the other way.
#[derive(Clone, Copy, Debug, PartialEq, Eq, Structural)]
pub enum UpdatePlan {
    NoOp,
    Rebalance { direction: Position, close_first: bool },
}

/// Whether an update under this funding signal issues a close call: only when
/// there is a signal and an open position that does not match it.
pub open spec fn spec_update_issues_close(funding: int, current_position: Position) -> bool {
    funding != 0 && current_position != Position::Flat && current_position
        != spec_funding_direction(funding)
}

pub open spec fn spec_plan_update(funding: int, current_position: Position) -> UpdatePlan {
    if funding == 0 {
        UpdatePlan::NoOp
    } else {
        UpdatePlan::Rebalance {
            direction: spec_funding_direction(funding),
            close_first: spec_update_issues_close(funding, current_position),
        }
    }
}

/// First step of a position update. A zero funding signal is an explicit
/// no-op: the plan is `NoOp` exactly then, and no venue call follows.
pub fn plan_update(funding: i128, current_position: Position) -> (p: UpdatePlan)
    ensures
        p == spec_plan_update(funding as int, current_position),
        p is NoOp <==> funding == 0,
        p matches UpdatePlan::Rebalance { direction, close_first } ==> {
            &&& direction == spec_funding_direction(funding as int)
            &&& direction != Position::Flat
            &&& close_first == spec_update_issues_close(funding as int, current_position)
        },
{
    if funding == 0 {
        UpdatePlan::NoOp
    } else {
        let direction = funding_direction(funding);
        let close_first = current_position != Position::Flat && current_position != direction;
        UpdatePlan::Rebalance { direction, close_first }
    }
}

/// Sizing step of a position update, run on the state read after the
/// (optional) close has settled: an unconditional order in `direction` for
/// the full trade size, or no order at all when the vault is fully allocated.
pub fn open_order(direction: Position, amount_to_trade: u128, market_index: u64) -> (r: Option<
    ExchangeOrder,
>)
    requires
        direction != Position::Flat,
    ensures
        r is Some <==> amount_to_trade > 0,
        r matches Some(order) ==> order == (ExchangeOrder {
            direction,
            size: amount_to_trade,
            limit_price: 0,
            market_index,
        }),
{
    if amount_to_trade > 0 {
        Some(ExchangeOrder { direction, size: amount_to_trade, limit_price: 0, market_index })
    } else {
        None
    }
}

/// Whether an update under this funding signal and this post-close state
/// issues an open call.
pub open spec fn spec_update_issues_open(funding: int, collateral: int, liabilities: int) -> bool {
    funding != 0 && spec_amount_to_trade(collateral, liabilities) > 0
}

/// An update that issues neither a close nor an open touches no state at all.
pub open spec fn spec_update_is_noop(
    funding: int,
    current_position: Position,
    collateral: int,
    liabilities: int,
) -> bool {
    !spec_update_issues_close(funding, current_position) && !spec_update_issues_open(
        funding,
        collateral,
        liabilities,
    )
}

/// Law: once the vault is fully allocated — the trade size at the current
/// collateral and liabilities is zero — and its position already matches the
/// funding direction (or there is none, or no signal), an update issues no
/// venue call. Venue state is then unchanged, so a second update under the
/// same funding signal sees the same arguments and is a no-op in turn.
pub proof fn lemma_update_position_idempotent(
    funding: i128,
    current_position: Position,
    collateral: u128,
    liabilities: u128,
)
    requires
        funding == 0 || current_position == spec_funding_direction(funding as int)
            || current_position == Position::Flat,
        spec_amount_to_trade(collateral as int, liabilities as int) == 0,
    ensures
        spec_update_is_noop(funding as int, current_position, collateral as int, liabilities as int),
        spec_plan_update(funding as int, current_position) matches UpdatePlan::Rebalance {
            close_first,
            ..
        } ==> !close_first,
{
}

} // verus!
