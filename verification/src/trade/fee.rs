//! Fees and slippage, in decimal arithmetic.

use crate::decimal::{decimal_difference, decimal_product, decimal_quotient, decimal_sum, Decimal};
use crate::error::AppError;
use crate::text::same_text;
use vstd::prelude::*;
use vstd::string::*;

verus! {

/// The fee rates of a venue; `0.001` is 0.1 %.
#[derive(Debug, Clone, Copy, PartialEq)]
pub struct Fee {
    /// The rate for orders that add liquidity.
    pub maker_fee: Decimal,
    /// The rate for orders that take liquidity.
    pub taker_fee: Decimal,
}

impl Default for Fee {
    fn default() -> (r: Self)
        ensures
            r.maker_fee == Decimal::spec_new(1, 3),
            r.taker_fee == Decimal::spec_new(1, 3),
    {
        Fee { maker_fee: Decimal::new(1, 3).unwrap(), taker_fee: Decimal::new(1, 3).unwrap() }
    }
}

fn fault(what: &str) -> (r: AppError)
    ensures
        r is Decimal,
{
    AppError::Decimal(String::from_str(what))
}

/// The fee of a trade: `amount * fee_rate` where it is paid in the base
/// currency, `amount * price * fee_rate` where it is paid in the quote
/// currency.
pub open spec fn fee_of(amount: Decimal, price: Decimal, fee_rate: Decimal, fee_currency: Seq<char>) -> Option<
    Decimal,
> {
    if fee_currency == "base"@ {
        decimal_product(amount, fee_rate)
    } else {
        match decimal_product(amount, price) {
            Some(value) => decimal_product(value, fee_rate),
            None => None,
        }
    }
}

/// The fee of a trade of `amount` at `price`, paid in the base currency for
/// `"base"` and in the quote currency otherwise. Fails with a `Decimal`
/// error on overflow.
pub fn calculate_fee(amount: Decimal, price: Decimal, fee_rate: Decimal, fee_currency: &str) -> (r:
    Result<Decimal, AppError>)
    ensures
        r is Ok <==> fee_of(amount, price, fee_rate, fee_currency@) is Some,
        r matches Ok(fee) ==> Some(fee) == fee_of(amount, price, fee_rate, fee_currency@),
        r matches Err(e) ==> e is Decimal,
{
    if same_text(fee_currency, "base") {
        match amount.checked_mul(fee_rate) {
            Some(fee) => Ok(fee),
            None => Err(fault("fee cannot be computed")),
        }
    } else {
        match amount.checked_mul(price) {
            Some(value) => match value.checked_mul(fee_rate) {
                Some(fee) => Ok(fee),
                None => Err(fault("fee cannot be computed")),
            },
            None => Err(fault("fee cannot be computed")),
        }
    }
}

/// The cost of a trade with its fee: `amount * price + fee`, and the fee.
pub open spec fn total_cost_of(
    amount: Decimal,
    price: Decimal,
    fee_rate: Decimal,
    fee_currency: Seq<char>,
) -> Option<(Decimal, Decimal)> {
    match (fee_of(amount, price, fee_rate, fee_currency), decimal_product(amount, price)) {
        (Some(fee), Some(value)) => match decimal_sum(value, fee) {
            Some(total) => Some((total, fee)),
            None => None,
        },
        _ => None,
    }
}

/// The cost of a trade with its fee, and the fee. Fails with a `Decimal`
/// error on overflow.
pub fn calculate_total_cost(
    amount: Decimal,
    price: Decimal,
    fee_rate: Decimal,
    fee_currency: &str,
) -> (r: Result<(Decimal, Decimal), AppError>)
    ensures
        r is Ok <==> total_cost_of(amount, price, fee_rate, fee_currency@) is Some,
        r matches Ok(pair) ==> Some(pair) == total_cost_of(amount, price, fee_rate, fee_currency@),
        r matches Err(e) ==> e is Decimal,
{
    let fee = match calculate_fee(amount, price, fee_rate, fee_currency) {
        Ok(f) => f,
        Err(e) => {
            return Err(e);
        },
    };
    match amount.checked_mul(price) {
        Some(value) => match value.checked_add(fee) {
            Some(total) => Ok((total, fee)),
            None => Err(fault("cost cannot be computed")),
        },
        None => Err(fault("cost cannot be computed")),
    }
}

/// The slippage of an execution: `|actual - expected| / expected`, and zero
/// for an expected price of zero.
pub open spec fn slippage_of(expected_price: Decimal, actual_price: Decimal) -> Option<Decimal> {
    if expected_price.units() == 0 {
        Some(Decimal::spec_zero())
    } else {
        match decimal_difference(actual_price, expected_price) {
            Some(d) => decimal_quotient(d.spec_abs(), expected_price),
            None => None,
        }
    }
}

/// The slippage of an execution as a ratio; `0.001` is 0.1 %. Fails with a
/// `Decimal` error on overflow.
pub fn calculate_slippage(expected_price: Decimal, actual_price: Decimal) -> (r: Result<
    Decimal,
    AppError,
>)
    ensures
        r is Ok <==> slippage_of(expected_price, actual_price) is Some,
        r matches Ok(s) ==> Some(s) == slippage_of(expected_price, actual_price),
        r matches Err(e) ==> e is Decimal,
{
    if expected_price.is_zero() {
        return Ok(Decimal::zero());
    }
    match actual_price.checked_sub(expected_price) {
        Some(d) => match d.abs().checked_div(expected_price) {
            Some(s) => Ok(s),
            None => Err(fault("slippage cannot be computed")),
        },
        None => Err(fault("slippage cannot be computed")),
    }
}

/// The price of a simulated execution: for a market order the base price
/// raised by twice the slippage ratio, `base * (1 + 2 * ratio)`; for any
/// other order the base price.
pub open spec fn slipped_price(base_price: Decimal, order_type: Seq<char>, slippage_ratio: Decimal) -> Option<
    Decimal,
> {
    if order_type == "market"@ {
        match decimal_product(slippage_ratio, Decimal::spec_new(2, 0)) {
            Some(worst) => match decimal_sum(Decimal::spec_new(1, 0), worst) {
                Some(factor) => decimal_product(base_price, factor),
                None => None,
            },
            None => None,
        }
    } else {
        Some(base_price)
    }
}

/// The price of a simulated execution. The amount does not enter. Fails
/// with a `Decimal` error on overflow.
pub fn simulate_slippage(
    base_price: Decimal,
    _amount: Decimal,
    order_type: &str,
    slippage_ratio: Decimal,
) -> (r: Result<Decimal, AppError>)
    ensures
        r is Ok <==> slipped_price(base_price, order_type@, slippage_ratio) is Some,
        r matches Ok(p) ==> Some(p) == slipped_price(base_price, order_type@, slippage_ratio),
        r matches Err(e) ==> e is Decimal,
{
    if same_text(order_type, "market") {
        match slippage_ratio.checked_mul(Decimal::from_i64(2)) {
            Some(worst) => match Decimal::from_i64(1).checked_add(worst) {
                Some(factor) => match base_price.checked_mul(factor) {
                    Some(p) => Ok(p),
                    None => Err(fault("price cannot be computed")),
                },
                None => Err(fault("price cannot be computed")),
            },
            None => Err(fault("price cannot be computed")),
        }
    } else {
        Ok(base_price)
    }
}

/// The spot fee rate of Binance by VIP level: 0.1 % for both at level 0;
/// 0.09 % for makers at level 1 and 0.08 % at level 2, with 0.1 % for
/// takers; from level 3 on 0.06 % for makers and 0.08 % for takers.
pub open spec fn binance_fee_rate(is_maker: bool, vip_level: u8) -> Decimal {
    if vip_level == 0 {
        Decimal::spec_new(1, 3)
    } else if vip_level == 1 {
        if is_maker {
            Decimal::spec_new(9, 4)
        } else {
            Decimal::spec_new(1, 3)
        }
    } else if vip_level == 2 {
        if is_maker {
            Decimal::spec_new(8, 4)
        } else {
            Decimal::spec_new(1, 3)
        }
    } else if is_maker {
        Decimal::spec_new(6, 4)
    } else {
        Decimal::spec_new(8, 4)
    }
}

/// The spot fee rate of Binance by VIP level and maker or taker status.
pub fn binance_fee(is_maker: bool, vip_level: u8) -> (r: Decimal)
    ensures
        r == binance_fee_rate(is_maker, vip_level),
{
    if vip_level == 0 {
        Decimal::new(1, 3).unwrap()
    } else if vip_level == 1 {
        if is_maker {
            Decimal::new(9, 4).unwrap()
        } else {
            Decimal::new(1, 3).unwrap()
        }
    } else if vip_level == 2 {
        if is_maker {
            Decimal::new(8, 4).unwrap()
        } else {
            Decimal::new(1, 3).unwrap()
        }
    } else if is_maker {
        Decimal::new(6, 4).unwrap()
    } else {
        Decimal::new(8, 4).unwrap()
    }
}

} // verus!
