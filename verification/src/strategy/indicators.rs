//! Indicators over the closes of a candle window. Each gives one entry for
//! each candle: `None` while the window is too short, then a decimal.

use crate::decimal::{decimal_difference, decimal_product, decimal_quotient, decimal_sum, Decimal};
use crate::error::AppError;
use crate::types::OHLCV;
use vstd::prelude::*;
use vstd::string::*;

verus! {

/// The sum of the closes of the candles `from..to`, added one by one from
/// zero; `None` where a sum cannot be held.
pub open spec fn closes_sum(data: Seq<OHLCV>, from: int, to: int) -> Option<Decimal>
    decreases to - from,
{
    if to <= from {
        Some(Decimal::spec_zero())
    } else {
        match closes_sum(data, from, to - 1) {
            Some(s) => decimal_sum(s, data[to - 1].close),
            None => None,
        }
    }
}

/// The simple moving average at candle `i`: the mean of the `period` closes
/// that end with candle `i`.
pub open spec fn sma_at(data: Seq<OHLCV>, period: int, i: int) -> Option<Decimal> {
    match closes_sum(data, i + 1 - period, i + 1) {
        Some(s) => decimal_quotient(s, Decimal::spec_new(period, 0)),
        None => None,
    }
}

/// The simple moving average over a number of candles.
pub struct SMA {
    period: usize,
}

impl SMA {
    /// The number of candles averaged.
    pub closed spec fn spec_period(&self) -> usize {
        self.period
    }

    /// A simple moving average over `period` candles.
    pub fn new(period: usize) -> (r: Self)
        ensures
            r.spec_period() == period,
    {
        SMA { period }
    }

    /// The number of candles averaged.
    pub fn period(&self) -> (r: usize)
        ensures
            r == self.spec_period(),
    {
        self.period
    }

    /// The simple moving average of the closes, one entry for each candle:
    /// the first `period - 1` entries are `None`, and entry `i` from then on
    /// is the mean of the closes `i - period + 1 ..= i`. Fails with
    /// `InvalidInput` for a period of zero, and with a `Decimal` error where
    /// a mean cannot be computed.
    pub fn calculate(&self, data: &Vec<OHLCV>) -> (r: Result<Vec<Option<Decimal>>, AppError>)
        ensures
            self.spec_period() == 0 ==> r matches Err(AppError::InvalidInput(_)),
            self.spec_period() > 0 ==> {
                &&& r is Ok <==> forall|i: int|
                    self.spec_period() - 1 <= i < data@.len() ==> sma_at(
                        data@,
                        self.spec_period() as int,
                        i,
                    ) is Some
                &&& r matches Ok(v) ==> {
                    &&& v@.len() == data@.len()
                    &&& forall|i: int| 0 <= i < v@.len() && i < self.spec_period() - 1 ==> v@[i] is None
                    &&& forall|i: int|
                        self.spec_period() - 1 <= i < v@.len() ==> v@[i] == sma_at(
                            data@,
                            self.spec_period() as int,
                            i,
                        )
                }
                &&& r matches Err(e) ==> e is Decimal
            },
    {
        if self.period == 0 {
            return Err(AppError::InvalidInput(String::from_str("period must be above zero")));
        }
        let period: usize = self.period;
        let divisor = Decimal::new(period as i128, 0).unwrap();
        let mut result: Vec<Option<Decimal>> = Vec::new();
        let mut i: usize = 0;
        while i < data.len()
            invariant
                i <= data.len(),
                period == self.period,
                period > 0,
                divisor == Decimal::spec_new(period as int, 0),
                result@.len() == i,
                forall|k: int| 0 <= k < i && k < period - 1 ==> result@[k] is None,
                forall|k: int| period - 1 <= k < i ==> result@[k] == sma_at(data@, period as int, k),
                forall|k: int| period - 1 <= k < i ==> sma_at(data@, period as int, k) is Some,
            decreases data.len() - i,
        {
            if i + 1 < period {
                result.push(None);
            } else {
                let start: usize = i + 1 - period;
                let mut sum = Decimal::zero();
                let mut j: usize = start;
                while j <= i
                    invariant
                        start <= j <= i + 1,
                        i < data.len(),
                        period == self.period,
                        period > 0,
                        start == i + 1 - period,
                        closes_sum(data@, start as int, j as int) == Some(sum),
                    decreases i + 1 - j,
                {
                    match sum.checked_add(data[j].close) {
                        Some(s) => {
                            sum = s;
                        },
                        None => {
                            proof {
                                lemma_closes_sum_prefix(data@, start as int, j + 1, i + 1);
                                assert(sma_at(data@, period as int, i as int) is None);
                            }
                            return Err(
                                AppError::Decimal(String::from_str("average cannot be computed")),
                            );
                        },
                    }
                    j = j + 1;
                }
                match sum.checked_div(divisor) {
                    Some(mean) => {
                        result.push(Some(mean));
                    },
                    None => {
                        assert(sma_at(data@, period as int, i as int) is None);
                        return Err(AppError::Decimal(String::from_str("average cannot be computed")));
                    },
                }
            }
            i = i + 1;
        }
        Ok(result)
    }
}

/// Where a sum of closes cannot be held, no longer sum from the same start
/// can.
pub proof fn lemma_closes_sum_prefix(data: Seq<OHLCV>, from: int, mid: int, to: int)
    requires
        from <= mid <= to,
        closes_sum(data, from, mid) is None,
    ensures
        closes_sum(data, from, to) is None,
    decreases to - mid,
{
    if mid < to {
        lemma_closes_sum_prefix(data, from, mid, to - 1);
    }
}

/// The average gain and the average loss of the closes up to some candle.
#[derive(Debug, Clone, Copy, PartialEq)]
pub struct Averages {
    pub gain: Decimal,
    pub loss: Decimal,
}

/// The rise of the close of candle `i` over that of the candle before it,
/// zero where it fell; `None` where the difference cannot be computed.
pub open spec fn gain_at(data: Seq<OHLCV>, i: int) -> Option<Decimal> {
    match decimal_difference(data[i].close, data[i - 1].close) {
        Some(change) => Some(
            if change.units() >= 0 {
                change
            } else {
                Decimal::spec_zero()
            },
        ),
        None => None,
    }
}

/// The fall of the close of candle `i` below that of the candle before it,
/// zero where it rose; `None` where the difference cannot be computed.
pub open spec fn loss_at(data: Seq<OHLCV>, i: int) -> Option<Decimal> {
    match decimal_difference(data[i].close, data[i - 1].close) {
        Some(change) => Some(
            if change.units() >= 0 {
                Decimal::spec_zero()
            } else {
                change.spec_abs()
            },
        ),
        None => None,
    }
}

/// The sums of the gains and of the losses of the candles `1..=upto`, added
/// one by one from zero.
pub open spec fn change_sums(data: Seq<OHLCV>, upto: int) -> Option<Averages>
    decreases upto,
{
    if upto <= 0 {
        Some(Averages { gain: Decimal::spec_zero(), loss: Decimal::spec_zero() })
    } else {
        match (change_sums(data, upto - 1), gain_at(data, upto), loss_at(data, upto)) {
            (Some(sums), Some(gain), Some(loss)) => match (
                decimal_sum(sums.gain, gain),
                decimal_sum(sums.loss, loss),
            ) {
                (Some(g), Some(l)) => Some(Averages { gain: g, loss: l }),
                _ => None,
            },
            _ => None,
        }
    }
}

/// The smoothed average after one more value:
/// `(average * (period - 1) + current) / period`.
pub open spec fn smoothed(average: Decimal, current: Decimal, period: int) -> Option<Decimal> {
    match decimal_product(average, Decimal::spec_new(period - 1, 0)) {
        Some(weighted) => match decimal_sum(weighted, current) {
            Some(total) => decimal_quotient(total, Decimal::spec_new(period, 0)),
            None => None,
        },
        None => None,
    }
}

/// The average gain and loss at candle `i`, for `i >= period`: at candle
/// `period` the simple means of the first `period` gains and losses, and from
/// then on each average smoothed with the gain and the loss of the candle.
pub open spec fn averages_at(data: Seq<OHLCV>, period: int, i: int) -> Option<Averages>
    decreases i - period,
{
    if i <= period {
        match change_sums(data, period) {
            Some(sums) => match (
                decimal_quotient(sums.gain, Decimal::spec_new(period, 0)),
                decimal_quotient(sums.loss, Decimal::spec_new(period, 0)),
            ) {
                (Some(g), Some(l)) => Some(Averages { gain: g, loss: l }),
                _ => None,
            },
            None => None,
        }
    } else {
        match (averages_at(data, period, i - 1), gain_at(data, i), loss_at(data, i)) {
            (Some(before), Some(gain), Some(loss)) => match (
                smoothed(before.gain, gain, period),
                smoothed(before.loss, loss, period),
            ) {
                (Some(g), Some(l)) => Some(Averages { gain: g, loss: l }),
                _ => None,
            },
            _ => None,
        }
    }
}

/// The relative strength index of an average gain and loss:
/// `100 - 100 / (1 + gain / loss)`, and 100 where the average loss is zero.
pub open spec fn rsi_of(averages: Averages) -> Option<Decimal> {
    if averages.loss.units() == 0 {
        Some(Decimal::spec_new(100, 0))
    } else {
        match decimal_quotient(averages.gain, averages.loss) {
            Some(strength) => match decimal_sum(Decimal::spec_new(1, 0), strength) {
                Some(denominator) => match decimal_quotient(
                    Decimal::spec_new(100, 0),
                    denominator,
                ) {
                    Some(share) => decimal_difference(Decimal::spec_new(100, 0), share),
                    None => None,
                },
                None => None,
            },
            None => None,
        }
    }
}

/// The relative strength index at candle `i`, for `i >= period`.
pub open spec fn rsi_at(data: Seq<OHLCV>, period: int, i: int) -> Option<Decimal> {
    match averages_at(data, period, i) {
        Some(averages) => rsi_of(averages),
        None => None,
    }
}

fn fault() -> (r: AppError)
    ensures
        r is Decimal,
{
    AppError::Decimal(String::from_str("index cannot be computed"))
}

fn changes_at(data: &Vec<OHLCV>, i: usize) -> (r: Option<(Decimal, Decimal)>)
    requires
        0 < i < data@.len(),
    ensures
        r is Some <==> gain_at(data@, i as int) is Some,
        r is Some <==> loss_at(data@, i as int) is Some,
        r matches Some(pair) ==> Some(pair.0) == gain_at(data@, i as int) && Some(pair.1)
            == loss_at(data@, i as int),
{
    match data[i].close.checked_sub(data[i - 1].close) {
        Some(change) => {
            if !change.is_negative() {
                Some((change, Decimal::zero()))
            } else {
                Some((Decimal::zero(), change.abs()))
            }
        },
        None => None,
    }
}

fn smooth(average: Decimal, current: Decimal, period: usize) -> (r: Option<Decimal>)
    requires
        period > 0,
    ensures
        r == smoothed(average, current, period as int),
{
    let weight = Decimal::new((period - 1) as i128, 0).unwrap();
    let divisor = Decimal::new(period as i128, 0).unwrap();
    match average.checked_mul(weight) {
        Some(weighted) => match weighted.checked_add(current) {
            Some(total) => total.checked_div(divisor),
            None => None,
        },
        None => None,
    }
}

fn index_of(averages: Averages) -> (r: Option<Decimal>)
    ensures
        r == rsi_of(averages),
{
    let hundred = Decimal::from_i64(100);
    if averages.loss.is_zero() {
        Some(hundred)
    } else {
        match averages.gain.checked_div(averages.loss) {
            Some(strength) => match Decimal::from_i64(1).checked_add(strength) {
                Some(denominator) => match hundred.checked_div(denominator) {
                    Some(share) => hundred.checked_sub(share),
                    None => None,
                },
                None => None,
            },
            None => None,
        }
    }
}

/// The relative strength index over a number of candles, with Wilder's
/// smoothing.
pub struct RSI {
    period: usize,
}

impl RSI {
    /// The number of candles of the first averages.
    pub closed spec fn spec_period(&self) -> usize {
        self.period
    }

    /// A relative strength index over `period` candles.
    pub fn new(period: usize) -> (r: Self)
        ensures
            r.spec_period() == period,
    {
        RSI { period }
    }

    /// The number of candles of the first averages.
    pub fn period(&self) -> (r: usize)
        ensures
            r == self.spec_period(),
    {
        self.period
    }

    /// The relative strength index of the closes, one entry for each candle.
    /// With fewer than `period + 1` candles every entry is `None`. Otherwise
    /// the first `period` entries are `None`, entry `period` is the index of
    /// the simple means of the first `period` gains and losses, and every
    /// later entry that of the averages smoothed by
    /// `(average * (period - 1) + current) / period`. Fails with
    /// `InvalidInput` for a period of zero, and with a `Decimal` error where
    /// an entry cannot be computed.
    pub fn calculate(&self, data: &Vec<OHLCV>) -> (r: Result<Vec<Option<Decimal>>, AppError>)
        ensures
            self.spec_period() == 0 ==> r matches Err(AppError::InvalidInput(_)),
            self.spec_period() > 0 && data@.len() <= self.spec_period() ==> (r matches Ok(v)
                && v@.len() == data@.len() && forall|i: int| 0 <= i < v@.len() ==> v@[i] is None),
            self.spec_period() > 0 && data@.len() > self.spec_period() ==> {
                &&& r is Ok <==> forall|i: int|
                    self.spec_period() <= i < data@.len() ==> rsi_at(
                        data@,
                        self.spec_period() as int,
                        i,
                    ) is Some
                &&& r matches Ok(v) ==> {
                    &&& v@.len() == data@.len()
                    &&& forall|i: int| 0 <= i < self.spec_period() ==> v@[i] is None
                    &&& forall|i: int|
                        self.spec_period() <= i < v@.len() ==> v@[i] == rsi_at(
                            data@,
                            self.spec_period() as int,
                            i,
                        )
                }
                &&& r matches Err(e) ==> e is Decimal
            },
    {
        if self.period == 0 {
            return Err(AppError::InvalidInput(String::from_str("period must be above zero")));
        }
        let period: usize = self.period;
        let mut result: Vec<Option<Decimal>> = Vec::new();
        if data.len() <= period {
            let mut k: usize = 0;
            while k < data.len()
                invariant
                    k <= data.len(),
                    result@.len() == k,
                    forall|i: int| 0 <= i < k ==> result@[i] is None,
                decreases data.len() - k,
            {
                result.push(None);
                k = k + 1;
            }
            return Ok(result);
        }
        let divisor = Decimal::new(period as i128, 0).unwrap();
        let mut k: usize = 0;
        while k < period
            invariant
                k <= period,
                result@.len() == k,
                forall|i: int| 0 <= i < k ==> result@[i] is None,
            decreases period - k,
        {
            result.push(None);
            k = k + 1;
        }
        let mut gains = Decimal::zero();
        let mut losses = Decimal::zero();
        let mut i: usize = 1;
        while i <= period
            invariant
                1 <= i <= period + 1,
                period < data.len(),
                period == self.period,
                change_sums(data@, i - 1) == Some(Averages { gain: gains, loss: losses }),
            decreases period + 1 - i,
        {
            let sums = match changes_at(data, i) {
                Some(pair) => match (gains.checked_add(pair.0), losses.checked_add(pair.1)) {
                    (Some(g), Some(l)) => Some((g, l)),
                    _ => None,
                },
                None => None,
            };
            match sums {
                Some(pair) => {
                    gains = pair.0;
                    losses = pair.1;
                },
                None => {
                    proof {
                        lemma_change_sums_prefix(data@, i as int, period as int);
                        assert(rsi_at(data@, period as int, period as int) is None);
                    }
                    return Err(fault());
                },
            }
            i = i + 1;
        }
        let mut averages = match (gains.checked_div(divisor), losses.checked_div(divisor)) {
            (Some(g), Some(l)) => Averages { gain: g, loss: l },
            _ => {
                return Err(fault());
            },
        };
        match index_of(averages) {
            Some(value) => {
                result.push(Some(value));
            },
            None => {
                assert(rsi_at(data@, period as int, period as int) is None);
                return Err(fault());
            },
        }
        let mut at: usize = period + 1;
        while at < data.len()
            invariant
                period < at <= data.len(),
                period == self.period,
                period > 0,
                result@.len() == at,
                forall|k: int| 0 <= k < period ==> result@[k] is None,
                forall|k: int| period <= k < at ==> result@[k] == rsi_at(data@, period as int, k),
                forall|k: int| period <= k < at ==> rsi_at(data@, period as int, k) is Some,
                averages_at(data@, period as int, at - 1) == Some(averages),
            decreases data.len() - at,
        {
            let next = match changes_at(data, at) {
                Some(pair) => match (
                    smooth(averages.gain, pair.0, period),
                    smooth(averages.loss, pair.1, period),
                ) {
                    (Some(g), Some(l)) => Some(Averages { gain: g, loss: l }),
                    _ => None,
                },
                None => None,
            };
            match next {
                Some(a) => {
                    averages = a;
                },
                None => {
                    return Err(fault());
                },
            }
            match index_of(averages) {
                Some(value) => {
                    result.push(Some(value));
                },
                None => {
                    assert(rsi_at(data@, period as int, at as int) is None);
                    return Err(fault());
                },
            }
            at = at + 1;
        }
        Ok(result)
    }
}

/// Where the sums of the changes cannot be held up to some candle, they
/// cannot be held up to a later one.
pub proof fn lemma_change_sums_prefix(data: Seq<OHLCV>, mid: int, to: int)
    requires
        mid <= to,
        change_sums(data, mid) is None,
    ensures
        change_sums(data, to) is None,
    decreases to - mid,
{
    if mid < to {
        lemma_change_sums_prefix(data, mid, to - 1);
    }
}

} // verus!
