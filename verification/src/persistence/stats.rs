//! Aggregates over the trade log, computed in decimal arithmetic.

use crate::decimal::{decimal_difference, decimal_product, decimal_quotient, decimal_sum, Decimal};
use crate::risk::protection::trade_views;
use crate::types::{DashboardStats, Trade, TradeView};
use vstd::prelude::*;

verus! {

/// The balance from which the dashboard counts profits: ten thousand units
/// of the quote asset.
pub open spec fn starting_balance() -> Decimal {
    Decimal::spec_new(10000, 0)
}

/// How many of the trades have a profit ratio above zero.
pub open spec fn winning_count(trades: Seq<TradeView>) -> nat
    decreases trades.len(),
{
    if trades.len() == 0 {
        0
    } else {
        winning_count(trades.drop_last()) + if (trades.last().profit_ratio matches Some(r)
            && r.units() > 0) {
            1nat
        } else {
            0nat
        }
    }
}

/// How many of the trades are open.
pub open spec fn open_count(trades: Seq<TradeView>) -> nat
    decreases trades.len(),
{
    if trades.len() == 0 {
        0
    } else {
        open_count(trades.drop_last()) + if trades.last().is_open {
            1nat
        } else {
            0nat
        }
    }
}

/// `total + amount`, or `total` where the sum cannot be held or there is
/// nothing to add.
pub open spec fn add_or_keep(total: Decimal, amount: Option<Decimal>) -> Decimal {
    match amount {
        Some(a) => match decimal_sum(total, a) {
            Some(s) => s,
            None => total,
        },
        None => total,
    }
}

/// The sum of the absolute profits of the trades.
pub open spec fn total_profit(trades: Seq<TradeView>) -> Decimal
    decreases trades.len(),
{
    if trades.len() == 0 {
        Decimal::spec_zero()
    } else {
        add_or_keep(total_profit(trades.drop_last()), trades.last().profit_abs)
    }
}

/// The share of winning trades in percent: `wins / total * 100`; zero where
/// there is no trade or the share cannot be computed.
pub open spec fn win_rate_percent(wins: nat, total: nat) -> Decimal {
    if total == 0 {
        Decimal::spec_zero()
    } else {
        match decimal_quotient(Decimal::spec_new(wins as int, 0), Decimal::spec_new(total as int, 0)) {
            Some(share) => match decimal_product(share, Decimal::spec_new(100, 0)) {
                Some(percent) => percent,
                None => Decimal::spec_zero(),
            },
            None => Decimal::spec_zero(),
        }
    }
}

/// The running balance, its highest value so far, and the largest fall from
/// a peak so far, in percent.
#[derive(Debug, Clone, Copy, PartialEq)]
pub struct BalanceState {
    pub balance: Decimal,
    pub peak: Decimal,
    pub max_drawdown: Decimal,
}

/// The fall of the balance below the peak in percent:
/// `(peak - balance) / peak * 100`; zero where it cannot be computed.
pub open spec fn fall_percent(peak: Decimal, balance: Decimal) -> Decimal {
    match decimal_difference(peak, balance) {
        Some(fall) => match decimal_quotient(fall, peak) {
            Some(share) => match decimal_product(share, Decimal::spec_new(100, 0)) {
                Some(percent) => percent,
                None => Decimal::spec_zero(),
            },
            None => Decimal::spec_zero(),
        },
        None => Decimal::spec_zero(),
    }
}

/// The state after one more trade: its profit is added to the balance, the
/// peak follows the balance upward, and the largest fall is kept.
pub open spec fn balance_step(state: BalanceState, profit: Option<Decimal>) -> BalanceState {
    let balance = add_or_keep(state.balance, profit);
    let peak = if balance.units() > state.peak.units() {
        balance
    } else {
        state.peak
    };
    let fall = fall_percent(peak, balance);
    let max_drawdown = if fall.units() > state.max_drawdown.units() {
        fall
    } else {
        state.max_drawdown
    };
    BalanceState { balance, peak, max_drawdown }
}

/// The state after all the trades, in the order given, from the starting
/// balance.
pub open spec fn balance_walk(trades: Seq<TradeView>) -> BalanceState
    decreases trades.len(),
{
    if trades.len() == 0 {
        BalanceState {
            balance: starting_balance(),
            peak: starting_balance(),
            max_drawdown: Decimal::spec_zero(),
        }
    } else {
        balance_step(balance_walk(trades.drop_last()), trades.last().profit_abs)
    }
}

fn add_or_keep_exec(total: Decimal, amount: Option<Decimal>) -> (r: Decimal)
    ensures
        r == add_or_keep(total, amount),
{
    match amount {
        Some(a) => match total.checked_add(a) {
            Some(s) => s,
            None => total,
        },
        None => total,
    }
}

fn percent_of(part: Decimal, whole: Decimal) -> (r: Decimal)
    ensures
        r == match decimal_quotient(part, whole) {
            Some(share) => match decimal_product(share, Decimal::spec_new(100, 0)) {
                Some(percent) => percent,
                None => Decimal::spec_zero(),
            },
            None => Decimal::spec_zero(),
        },
{
    match part.checked_div(whole) {
        Some(share) => match share.checked_mul(Decimal::from_i64(100)) {
            Some(percent) => percent,
            None => Decimal::zero(),
        },
        None => Decimal::zero(),
    }
}

/// The dashboard figures of a trade log: the total profit, the share of
/// winning trades in percent, the number of open trades, the largest fall of
/// the balance from a peak in percent, and the balance, counted from ten
/// thousand in the order of the trades.
pub fn dashboard_stats(trades: &Vec<Trade>) -> (r: DashboardStats)
    ensures
        r.total_profit == total_profit(trade_views(trades@)),
        r.win_rate == win_rate_percent(winning_count(trade_views(trades@)), trades@.len()),
        r.open_trades == open_count(trade_views(trades@)),
        r.max_drawdown == balance_walk(trade_views(trades@)).max_drawdown,
        r.total_balance == balance_walk(trade_views(trades@)).balance,
{
    let ghost views = trade_views(trades@);
    let start = Decimal::from_i64(10000);
    let mut wins: usize = 0;
    let mut open: usize = 0;
    let mut profit = Decimal::zero();
    let mut state = BalanceState { balance: start, peak: start, max_drawdown: Decimal::zero() };
    let mut i: usize = 0;
    while i < trades.len()
        invariant
            i <= trades.len(),
            views == trade_views(trades@),
            wins == winning_count(views.take(i as int)),
            wins <= i,
            open == open_count(views.take(i as int)),
            open <= i,
            profit == total_profit(views.take(i as int)),
            state == balance_walk(views.take(i as int)),
        decreases trades.len() - i,
    {
        let t = &trades[i];
        proof {
            assert(views.take(i + 1).drop_last() =~= views.take(i as int));
        }
        let won: bool = match t.profit_ratio {
            Some(r) => r.is_positive(),
            None => false,
        };
        if won {
            wins = wins + 1;
        }
        if t.is_open {
            open = open + 1;
        }
        profit = add_or_keep_exec(profit, t.profit_abs);
        let balance = add_or_keep_exec(state.balance, t.profit_abs);
        let peak = if balance.gt(&state.peak) {
            balance
        } else {
            state.peak
        };
        let fall = match peak.checked_sub(balance) {
            Some(f) => percent_of(f, peak),
            None => Decimal::zero(),
        };
        let max_drawdown = if fall.gt(&state.max_drawdown) {
            fall
        } else {
            state.max_drawdown
        };
        state = BalanceState { balance, peak, max_drawdown };
        i = i + 1;
    }
    proof {
        assert(views.take(i as int) =~= views);
    }
    let win_rate = if trades.len() == 0 {
        Decimal::zero()
    } else {
        let wins_decimal = Decimal::new(wins as i128, 0).unwrap();
        let total_decimal = Decimal::new(trades.len() as i128, 0).unwrap();
        percent_of(wins_decimal, total_decimal)
    };
    DashboardStats {
        total_profit: profit,
        win_rate,
        open_trades: open,
        max_drawdown: state.max_drawdown,
        total_balance: state.balance,
    }
}

} // verus!
