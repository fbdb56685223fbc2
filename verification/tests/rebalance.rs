use drift_vault::error::VaultErrorCode;
use drift_vault::exchange::base_magnitude;
use drift_vault::exchange::calculate_amount_to_trade;
use drift_vault::exchange::compute_total_liabilities;
use drift_vault::exchange::get_current_position;
use drift_vault::exchange::get_position_state;
use drift_vault::exchange::opposite_direction;
use drift_vault::exchange::ExchangeOrder;
use drift_vault::exchange::Market;
use drift_vault::exchange::MarketPosition;
use drift_vault::state::Position;
use drift_vault::update_position::compute_funding_signal;
use drift_vault::update_position::funding_direction;
use drift_vault::update_position::open_order;
use drift_vault::update_position::plan_update;
use drift_vault::update_position::UpdatePlan;

fn market(price: u128, mark_twap: u128, oracle_twap: i128) -> Market {
    Market {
        price,
        mark_price_twap: mark_twap,
        oracle_price_twap: oracle_twap,
    }
}

#[test]
fn funding_signal_is_mark_minus_oracle() {
    assert_eq!(compute_funding_signal(105, 100), Ok(5));
    assert_eq!(compute_funding_signal(95, 100), Ok(-5));
    assert_eq!(compute_funding_signal(100, 100), Ok(0));
}

#[test]
fn funding_signal_overflow_is_fatal() {
    assert_eq!(
        compute_funding_signal(u128::MAX, 0),
        Err(VaultErrorCode::MathError)
    );
    assert_eq!(
        compute_funding_signal(i128::MAX as u128, -1),
        Err(VaultErrorCode::MathError)
    );
}

#[test]
fn funding_direction_follows_who_pays() {
    // Negative: shorts pay longs, so go long.
    assert_eq!(funding_direction(-3), Position::Long);
    // Positive: longs pay shorts, so go short.
    assert_eq!(funding_direction(3), Position::Short);
    assert_eq!(funding_direction(0), Position::Flat);
}

#[test]
fn zero_signal_plans_nothing() {
    // Equal time-weighted averages give a zero signal, an explicit no-op.
    let signal = compute_funding_signal(100, 100).unwrap();
    assert_eq!(signal, 0);
    assert_eq!(plan_update(signal, Position::Long), UpdatePlan::NoOp);
    assert_eq!(plan_update(signal, Position::Flat), UpdatePlan::NoOp);
}

#[test]
fn update_closes_only_an_opposing_position() {
    assert_eq!(
        plan_update(-5, Position::Short),
        UpdatePlan::Rebalance {
            direction: Position::Long,
            close_first: true,
        }
    );
    assert_eq!(
        plan_update(-5, Position::Long),
        UpdatePlan::Rebalance {
            direction: Position::Long,
            close_first: false,
        }
    );
    assert_eq!(
        plan_update(5, Position::Flat),
        UpdatePlan::Rebalance {
            direction: Position::Short,
            close_first: false,
        }
    );
}

#[test]
fn fully_allocated_vault_opens_nothing_twice() {
    // The vault is long with the signal and fully allocated: collateral does
    // not exceed liabilities, so the trade size is zero.
    let plan = plan_update(-5, Position::Long);
    assert_eq!(
        plan,
        UpdatePlan::Rebalance {
            direction: Position::Long,
            close_first: false,
        }
    );
    let amount = calculate_amount_to_trade(1000, 1000);
    assert_eq!(amount, 0);
    assert_eq!(open_order(Position::Long, amount, 0), None);
    // No venue call was issued, so a second pass sees the same state and
    // reaches the same end.
    let again = plan_update(-5, Position::Long);
    assert_eq!(again, plan);
    assert_eq!(open_order(Position::Long, calculate_amount_to_trade(1000, 1000), 0), None);
}

#[test]
fn open_order_is_unconditional_and_full_size() {
    assert_eq!(
        open_order(Position::Short, 750, 2),
        Some(ExchangeOrder {
            direction: Position::Short,
            size: 750,
            limit_price: 0,
            market_index: 2,
        })
    );
    assert_eq!(open_order(Position::Short, 0, 2), None);
}

#[test]
fn amount_to_trade_is_the_collateral_surplus() {
    assert_eq!(calculate_amount_to_trade(1000, 400), 600);
    assert_eq!(calculate_amount_to_trade(400, 1000), 0);
    assert_eq!(calculate_amount_to_trade(1000, 1000), 0);
}

#[test]
fn amount_to_trade_is_monotone_in_collateral() {
    let liabilities = 500;
    let mut last = 0;
    for collateral in [0u128, 100, 499, 500, 501, 1000, 5000] {
        let a = calculate_amount_to_trade(collateral, liabilities);
        assert!(a >= last);
        if collateral <= liabilities {
            assert_eq!(a, 0);
        }
        last = a;
    }
}

#[test]
fn current_position_reads_the_first_open_record() {
    let positions = vec![
        MarketPosition {
            market_index: 0,
            base_asset_amount: 0,
        },
        MarketPosition {
            market_index: 1,
            base_asset_amount: 40,
        },
        MarketPosition {
            market_index: 2,
            base_asset_amount: -7,
        },
    ];
    assert_eq!(get_current_position(&positions, 1), Position::Long);
    assert_eq!(get_current_position(&positions, 2), Position::Short);
    // A zero base-asset amount is no position.
    assert_eq!(get_current_position(&positions, 0), Position::Flat);
    assert_eq!(get_current_position(&positions, 9), Position::Flat);
}

#[test]
fn liabilities_sum_open_positions_at_market_price() {
    let markets = vec![market(10, 10, 10), market(3, 3, 3)];
    let positions = vec![
        MarketPosition {
            market_index: 0,
            base_asset_amount: 5,
        },
        MarketPosition {
            market_index: 1,
            base_asset_amount: -4,
        },
        // Zero amount: skipped, even though its market is never read.
        MarketPosition {
            market_index: 0,
            base_asset_amount: 0,
        },
    ];
    // 5 * 10 + 4 * 3 = 62.
    assert_eq!(compute_total_liabilities(&positions, &markets), Ok(62));
}

#[test]
fn liabilities_of_no_positions_are_zero() {
    let markets = vec![market(10, 10, 10)];
    assert_eq!(compute_total_liabilities(&[].to_vec(), &markets), Ok(0));
}

#[test]
fn liabilities_overflow_is_fatal() {
    let markets = vec![market(u128::MAX, 0, 0)];
    let positions = vec![MarketPosition {
        market_index: 0,
        base_asset_amount: 2,
    }];
    assert_eq!(
        compute_total_liabilities(&positions, &markets),
        Err(VaultErrorCode::MathError)
    );
}

#[test]
fn base_magnitude_handles_the_extremes() {
    assert_eq!(base_magnitude(0), 0);
    assert_eq!(base_magnitude(17), 17);
    assert_eq!(base_magnitude(-17), 17);
    assert_eq!(base_magnitude(i128::MIN), 1u128 << 127);
}

#[test]
fn position_state_combines_the_three_readings() {
    let markets = vec![market(10, 10, 10)];
    let positions = vec![MarketPosition {
        market_index: 0,
        base_asset_amount: 30,
    }];
    let ps = get_position_state(1000, &positions, &markets).unwrap();
    assert_eq!(ps.collateral_amount, 1000);
    assert_eq!(ps.liabilities_amount, 300);
    assert_eq!(ps.amount_to_trade, 700);
}

#[test]
fn opposite_direction_offsets() {
    assert_eq!(opposite_direction(Position::Long), Position::Short);
    assert_eq!(opposite_direction(Position::Short), Position::Long);
    assert_eq!(opposite_direction(Position::Flat), Position::Flat);
}
