//! How a batch of candles is saved: as rows, in chunks of at most a hundred,
//! all within one transaction.

use super::klines::{is_valid_candle, valid_candle};
use super::rows::{candle_storable, kline_to_row, write_kline, KlineRow};
use crate::error::AppError;
use crate::text::join2;
use crate::types::{Timeframe, OHLCV};
use vstd::prelude::*;
use vstd::string::*;

verus! {

/// The largest number of rows written by one statement.
pub const BATCH_ROWS: usize = 100;

/// The width of a candle of the given tag in milliseconds. Fails with
/// `InvalidInput` for a text that is none of the fifteen tags: without the
/// width the close time of a candle cannot be derived.
pub fn parse_timeframe_to_duration(timeframe: &str) -> (r: Result<i64, AppError>)
    ensures
        r is Ok <==> Timeframe::spec_parse(timeframe@) is Some,
        r matches Ok(millis) ==> millis == Timeframe::spec_parse(timeframe@)->0.spec_millis(),
        r matches Err(e) ==> (e matches AppError::InvalidInput(m) && m@ == "Invalid timeframe: "@
            + timeframe@),
{
    match Timeframe::parse(timeframe) {
        Some(tf) => Ok(tf.millis()),
        None => Err(AppError::InvalidInput(join2("Invalid timeframe: ", timeframe))),
    }
}

/// Whether the chunks hold exactly the rows of the candles, in order: every
/// chunk but the last has a hundred rows, the last has between one and a
/// hundred, and row `m` of chunk `k` is the row of candle `100 k + m`.
pub open spec fn chunks_hold(
    chunks: Seq<Vec<KlineRow>>,
    pair: Seq<char>,
    timeframe: Timeframe,
    klines: Seq<OHLCV>,
) -> bool {
    &&& klines.len() == 0 ==> chunks.len() == 0
    &&& klines.len() > 0 ==> chunks.len() > 0 && 1 <= chunks.last()@.len() <= BATCH_ROWS
        && BATCH_ROWS * (chunks.len() - 1) + chunks.last()@.len() == klines.len()
    &&& forall|k: int| 0 <= k < chunks.len() - 1 ==> (#[trigger] chunks[k])@.len() == BATCH_ROWS
    &&& forall|k: int, m: int|
        0 <= k < chunks.len() && 0 <= m < chunks[k]@.len() ==> BATCH_ROWS * k + m < klines.len()
            && (#[trigger] chunks[k]@[m])@ == write_kline(
            pair,
            timeframe,
            klines[BATCH_ROWS * k + m],
        )
}

/// Plans the saving of a batch of candles of one pair and timeframe: the
/// rows to upsert, in chunks of at most a hundred, for one transaction. An
/// empty batch needs nothing, whatever the timeframe. Otherwise the plan
/// fails with `InvalidInput`, and nothing is to be written, where the
/// timeframe is none of the fifteen tags, where a candle does not open on a
/// boundary of the timeframe or has a low or a high that does not enclose its
/// open and close, or where a candle's open or close time cannot be written.
pub fn plan_kline_batches(pair: &str, timeframe: &str, klines: &Vec<OHLCV>) -> (r: Result<
    Vec<Vec<KlineRow>>,
    AppError,
>)
    ensures
        klines@.len() == 0 ==> (r matches Ok(chunks) && chunks@.len() == 0),
        klines@.len() > 0 ==> match Timeframe::spec_parse(timeframe@) {
            None => r matches Err(AppError::InvalidInput(_)),
            Some(tf) => {
                &&& r is Ok <==> forall|i: int|
                    0 <= i < klines@.len() ==> valid_candle(tf, #[trigger] klines@[i])
                        && candle_storable(tf, klines@[i])
                &&& r matches Ok(chunks) ==> chunks_hold(chunks@, pair@, tf, klines@)
                &&& r matches Err(e) ==> e is InvalidInput
            },
        },
{
    let mut chunks: Vec<Vec<KlineRow>> = Vec::new();
    if klines.len() == 0 {
        return Ok(chunks);
    }
    let tf = match Timeframe::parse(timeframe) {
        Some(tf) => tf,
        None => {
            return Err(AppError::InvalidInput(join2("Invalid timeframe: ", timeframe)));
        },
    };
    let mut current: Vec<KlineRow> = Vec::new();
    let mut i: usize = 0;
    while i < klines.len()
        invariant
            i <= klines.len(),
            Timeframe::spec_parse(timeframe@) == Some(tf),
            BATCH_ROWS * chunks@.len() + current@.len() == i,
            current@.len() <= BATCH_ROWS,
            i > 0 ==> current@.len() >= 1,
            forall|k: int| 0 <= k < chunks@.len() ==> (#[trigger] chunks@[k])@.len() == BATCH_ROWS,
            forall|k: int, m: int|
                0 <= k < chunks@.len() && 0 <= m < chunks@[k]@.len() ==> (#[trigger] chunks@[k]@[m])@
                    == write_kline(pair@, tf, klines@[BATCH_ROWS * k + m]),
            forall|m: int|
                0 <= m < current@.len() ==> (#[trigger] current@[m])@ == write_kline(
                    pair@,
                    tf,
                    klines@[BATCH_ROWS * chunks@.len() + m],
                ),
            forall|j: int|
                0 <= j < i ==> valid_candle(tf, #[trigger] klines@[j]) && candle_storable(
                    tf,
                    klines@[j],
                ),
        decreases klines.len() - i,
    {
        if !is_valid_candle(tf, &klines[i]) {
            return Err(
                AppError::InvalidInput(String::from_str("candle is not valid for the timeframe")),
            );
        }
        let row = match kline_to_row(pair, tf, &klines[i]) {
            Ok(row) => row,
            Err(e) => {
                return Err(e);
            },
        };
        if current.len() == BATCH_ROWS {
            chunks.push(current);
            current = Vec::new();
        }
        current.push(row);
        i = i + 1;
    }
    chunks.push(current);
    Ok(chunks)
}

} // verus!
