use vstd::prelude::*;

use crate::error::VaultErrorCode;
use crate::state::Position;

verus! {

/// Per-market price state read from the venue: the current mark price used
/// for mark-to-market valuation, and the two time-weighted averages the
/// funding signal is derived from.
#[derive(Clone, Copy, Debug, PartialEq, Eq, Structural)]
pub struct Market {
    pub price: u128,
    pub mark_price_twap: u128,
    pub oracle_price_twap: i128,
}

/// One of the vault's open positions as the venue reports it: the market it
/// is in and the signed base-asset amount (positive long, negative short).
#[derive(Clone, Copy, Debug, PartialEq, Eq, Structural)]
pub struct MarketPosition {
    pub market_index: u64,
    pub base_asset_amount: i128,
}

/// A sized market order for the venue. A `limit_price` of zero tells the
/// venue the order is unconditional.
#[derive(Clone, Copy, Debug, PartialEq, Eq, Structural)]
pub struct ExchangeOrder {
    pub direction: Position,
    pub size: u128,
    pub limit_price: u128,
    pub market_index: u64,
}

/// Snapshot of the vault's venue-side accounting: its deposited collateral,
/// the notional value of its open exposure, and the trade size that would
/// bring the two back to the 1:1 target.
#[derive(Clone, Copy, Debug, PartialEq, Eq, Structural)]
pub struct PositionState {
    pub collateral_amount: u128,
    pub liabilities_amount: u128,
    pub amount_to_trade: u128,
}

/// Absolute value of a mathematical integer.
pub open spec fn magnitude(x: int) -> int {
    if x < 0 {
        -x
    } else {
        x
    }
}

/// The direction a signed base-asset amount stands for.
pub open spec fn position_of_base(base: int) -> Position {
    if base > 0 {
        Position::Long
    } else if base < 0 {
        Position::Short
    } else {
        Position::Flat
    }
}

impl MarketPosition {
    /// Whether this record is an open position in the given market.
    pub open spec fn spec_is_for(self, market_index: u64) -> bool {
        self.market_index == market_index && self.base_asset_amount != 0
    }

    pub fn is_for(&self, market_index: u64) -> (r: bool)
        ensures
            r == self.spec_is_for(market_index),
    {
        self.market_index == market_index && self.base_asset_amount != 0
    }
}

/// The vault's current direction in one market: the direction of the first
/// open position recorded for it, or `Flat` when none is.
pub open spec fn spec_current_position(positions: Seq<MarketPosition>, market_index: u64) -> Position
    decreases positions.len(),
{
    if positions.len() == 0 {
        Position::Flat
    } else if positions[0].spec_is_for(market_index) {
        position_of_base(positions[0].base_asset_amount as int)
    } else {
        spec_current_position(positions.drop_first(), market_index)
    }
}

/// Derives the vault's current position in `market_index` from the venue's
/// position records. Pure read: the result is never cached.
pub fn get_current_position(positions: &Vec<MarketPosition>, market_index: u64) -> (p: Position)
    ensures
        p == spec_current_position(positions@, market_index),
{
    let n = positions.len();
    let mut i: usize = 0;
    proof {
        assert(positions@.skip(0) =~= positions@);
    }
    while i < n
        invariant
            i <= n,
            n == positions@.len(),
            spec_current_position(positions@, market_index) == spec_current_position(
                positions@.skip(i as int),
                market_index,
            ),
        decreases n - i,
    {
        let p = positions[i];
        proof {
            assert(positions@.skip(i as int)[0] == positions@[i as int]);
            assert(positions@.skip(i as int).drop_first() =~= positions@.skip(i as int + 1));
        }
        if p.is_for(market_index) {
            if p.base_asset_amount > 0 {
                return Position::Long;
            } else {
                return Position::Short;
            }
        }
        i += 1;
    }
    proof {
        assert(positions@.skip(n as int) =~= Seq::<MarketPosition>::empty());
    }
    Position::Flat
}

/// Notional value of one position at the current price of its market: the
/// base-asset magnitude times that price, and zero for a zero amount.
pub open spec fn spec_position_notional(p: MarketPosition, markets: Seq<Market>) -> int {
    if p.base_asset_amount == 0 {
        0
    } else {
        magnitude(p.base_asset_amount as int) * markets[p.market_index as int].price
    }
}

/// Sum of the notional values of all open positions: the vault's liabilities.
pub open spec fn spec_total_liabilities(positions: Seq<MarketPosition>, markets: Seq<Market>) -> int
    decreases positions.len(),
{
    if positions.len() == 0 {
        0int
    } else {
        spec_position_notional(positions[0], markets) + spec_total_liabilities(
            positions.drop_first(),
            markets,
        )
    }
}

pub proof fn lemma_total_liabilities_nonneg(positions: Seq<MarketPosition>, markets: Seq<Market>)
    ensures
        spec_total_liabilities(positions, markets) >= 0,
    decreases positions.len(),
{
    if positions.len() > 0 {
        lemma_total_liabilities_nonneg(positions.drop_first(), markets);
        assert(spec_position_notional(positions[0], markets) >= 0) by {
            if positions[0].base_asset_amount != 0 {
                let m = magnitude(positions[0].base_asset_amount as int);
                let pr = markets[positions[0].market_index as int].price as int;
                assert(m * pr >= 0) by (nonlinear_arith)
                    requires
                        m >= 0,
                        pr >= 0,
                ;
            }
        }
    }
}

/// The base-asset magnitude as an unsigned value.
pub fn base_magnitude(base: i128) -> (r: u128)
    ensures
        r == magnitude(base as int),
{
    if base >= 0 {
        base as u128
    } else if base == i128::MIN {
        (i128::MAX as u128) + 1
    } else {
        (-base) as u128
    }
}

/// Values the vault's outstanding exposure: the sum, over every position with
/// a nonzero base-asset amount, of that amount's magnitude times the current
/// price of its market. Positions with a zero amount contribute nothing.
///
/// Returns the exact sum when it fits the collateral scalar, and
/// `MathError` exactly when it does not.
pub fn compute_total_liabilities(
    positions: &Vec<MarketPosition>,
    markets: &Vec<Market>,
) -> (r: Result<u128, VaultErrorCode>)
    requires
        forall|i: int|
            0 <= i < positions@.len() && positions@[i].base_asset_amount != 0
                ==> positions@[i].market_index < markets@.len(),
    ensures
        r matches Ok(total) ==> total == spec_total_liabilities(positions@, markets@),
        r is Ok <==> spec_total_liabilities(positions@, markets@) <= u128::MAX,
        r is Err ==> r == Err::<u128, VaultErrorCode>(VaultErrorCode::MathError),
{
    let n = positions.len();
    let n_markets = markets.len();
    let mut liabilities_amount: u128 = 0;
    let mut i: usize = 0;
    proof {
        assert(positions@.skip(0) =~= positions@);
    }
    while i < n
        invariant
            i <= n,
            n == positions@.len(),
            n_markets == markets@.len(),
            forall|k: int|
                0 <= k < positions@.len() && positions@[k].base_asset_amount != 0
                    ==> positions@[k].market_index < markets@.len(),
            spec_total_liabilities(positions@, markets@) == liabilities_amount
                + spec_total_liabilities(positions@.skip(i as int), markets@),
        decreases n - i,
    {
        let p = positions[i];
        let ghost notional = spec_position_notional(positions@[i as int], markets@);
        let ghost tail = spec_total_liabilities(positions@.skip(i as int + 1), markets@);
        proof {
            assert(positions@.skip(i as int)[0] == positions@[i as int]);
            assert(positions@.skip(i as int).drop_first() =~= positions@.skip(i as int + 1));
            lemma_total_liabilities_nonneg(positions@.skip(i as int + 1), markets@);
            assert(spec_total_liabilities(positions@, markets@) == liabilities_amount + notional
                + tail);
        }
        if p.base_asset_amount != 0 {
            proof {
                assert(p.market_index < markets@.len());
            }
            let market_index = p.market_index as usize;
            proof {
                assert(p.market_index as int <= usize::MAX as int);
                assert(market_index as int == p.market_index as int);
            }
            let market = &markets[market_index];
            let mag = base_magnitude(p.base_asset_amount);
            proof {
                assert(notional == mag * market.price);
            }
            let value = match mag.checked_mul(market.price) {
                Some(v) => v,
                Option::None => {
                    return Err(VaultErrorCode::MathError);
                },
            };
            liabilities_amount = match liabilities_amount.checked_add(value) {
                Some(v) => v,
                Option::None => {
                    return Err(VaultErrorCode::MathError);
                },
            };
        }
        i += 1;
    }
    proof {
        assert(positions@.skip(n as int) =~= Seq::<MarketPosition>::empty());
    }
    Ok(liabilities_amount)
}

/// Trade size that re-approaches the 1:1 collateral:liability target: the
/// shortfall of liabilities under collateral, and zero when the vault is
/// already at or beyond the target.
pub open spec fn spec_amount_to_trade(collateral: int, liabilities: int) -> int {
    if liabilities > collateral {
        0int
    } else {
        collateral - liabilities
    }
}

pub fn calculate_amount_to_trade(collateral_amount: u128, liabilities_amount: u128) -> (r: u128)
    ensures
        r == spec_amount_to_trade(collateral_amount as int, liabilities_amount as int),
{
    if liabilities_amount > collateral_amount {
        0
    } else {
        collateral_amount - liabilities_amount
    }
}

/// Law: for a fixed liability, the trade size is non-decreasing in the
/// collateral, and is exactly zero whenever collateral does not exceed
/// liabilities.
pub proof fn lemma_amount_to_trade_monotonic(liabilities: int, c1: int, c2: int)
    requires
        c1 <= c2,
    ensures
        spec_amount_to_trade(c1, liabilities) <= spec_amount_to_trade(c2, liabilities),
        c1 <= liabilities ==> spec_amount_to_trade(c1, liabilities) == 0,
{
}

/// Reads the vault's venue-side state in one pass: collateral as given,
/// liabilities from the open positions, and the trade size toward the 1:1
/// target. Fails with `MathError` exactly when the liability sum overflows.
pub fn get_position_state(
    collateral_amount: u128,
    positions: &Vec<MarketPosition>,
    markets: &Vec<Market>,
) -> (r: Result<PositionState, VaultErrorCode>)
    requires
        forall|i: int|
            0 <= i < positions@.len() && positions@[i].base_asset_amount != 0
                ==> positions@[i].market_index < markets@.len(),
    ensures
        r matches Ok(ps) ==> {
            &&& ps.collateral_amount == collateral_amount
            &&& ps.liabilities_amount == spec_total_liabilities(positions@, markets@)
            &&& ps.amount_to_trade == spec_amount_to_trade(
                collateral_amount as int,
                ps.liabilities_amount as int,
            )
        },
        r is Ok <==> spec_total_liabilities(positions@, markets@) <= u128::MAX,
        r is Err ==> r == Err::<PositionState, VaultErrorCode>(VaultErrorCode::MathError),
{
    let liabilities_amount = match compute_total_liabilities(positions, markets) {
        Ok(v) => v,
        Err(e) => {
            return Err(e);
        },
    };
    let amount_to_trade = calculate_amount_to_trade(collateral_amount, liabilities_amount);
    Ok(PositionState { collateral_amount, liabilities_amount, amount_to_trade })
}

/// The direction that offsets an open position. `Flat` has no opposite and is
/// handed back unchanged.
pub open spec fn spec_opposite_direction(p: Position) -> Position {
    match p {
        Position::Long => Position::Short,
        Position::Short => Position::Long,
        Position::Flat => Position::Flat,
    }
}

pub fn opposite_direction(p: Position) -> (r: Position)
    ensures
        r == spec_opposite_direction(p),
{
    match p {
        Position::Long => Position::Short,
        Position::Short => Position::Long,
        Position::Flat => Position::Flat,
    }
}

} // verus!
