//! Trades and candles as rows of text: decimals as decimal strings, instants
//! as RFC 3339 strings, enums as lowercase tags. A row that does not read
//! back is an error, never a default.

use crate::decimal::{decimal_parse, decimal_text, Decimal};
use crate::error::AppError;
use crate::text::join2;
use crate::time::{rfc3339_text, Timestamp};
use crate::types::{ExitType, Timeframe, Trade, TradeView, OHLCV};
use vstd::prelude::*;
use vstd::string::*;

verus! {

/// The hyphenated lowercase text that the `uuid` crate prints for an
/// identifier.
pub uninterp spec fn uuid_text(id: u128) -> Seq<char>;

/// The identifier that the `uuid` crate reads from a text, `None` where it
/// reads none.
pub uninterp spec fn uuid_parse(text: Seq<char>) -> Option<u128>;

/// The `Display` of `uuid::Uuid`. The contract names the text and claims
/// that `parse_str` reads it back as the same identifier, as the crate's
/// documentation promises of every format it prints.
#[verifier::external_body]
fn outside_uuid_text(id: u128) -> (r: String)
    ensures
        r@ == uuid_text(id),
        uuid_parse(r@) == Some(id),
{
    uuid::Uuid::from_u128(id).to_string()
}

/// `uuid::Uuid::parse_str`. The contract names the result and claims nothing
/// of its value.
#[verifier::external_body]
fn outside_uuid_parse(text: &str) -> (r: Option<u128>)
    ensures
        r == uuid_parse(text@),
{
    match uuid::Uuid::parse_str(text) {
        Ok(id) => Some(id.as_u128()),
        Err(_) => None,
    }
}

/// The text of a trade identifier.
pub fn format_trade_id(id: u128) -> (r: String)
    ensures
        r@ == uuid_text(id),
        uuid_parse(r@) == Some(id),
{
    outside_uuid_text(id)
}

/// The trade identifier a text stands for, `None` where it stands for none.
pub fn parse_trade_id(text: &str) -> (r: Option<u128>)
    ensures
        r == uuid_parse(text@),
{
    outside_uuid_parse(text)
}

/// A trade as the store holds it.
#[derive(Debug, Clone, PartialEq, Eq)]
pub struct TradeRow {
    pub id: String,
    pub pair: String,
    /// `1` for an open trade, `0` for a closed one.
    pub is_open: i32,
    pub exchange: String,
    pub open_rate: String,
    pub open_date: String,
    pub close_rate: Option<String>,
    pub close_date: Option<String>,
    pub amount: String,
    pub stake_amount: String,
    pub strategy: String,
    pub timeframe: String,
    pub stop_loss: Option<String>,
    pub take_profit: Option<String>,
    pub exit_reason: Option<String>,
    pub profit_abs: Option<String>,
    pub profit_ratio: Option<String>,
}

/// What a [`TradeRow`] holds, as plain values.
pub struct TradeRowView {
    pub id: Seq<char>,
    pub pair: Seq<char>,
    pub is_open: i32,
    pub exchange: Seq<char>,
    pub open_rate: Seq<char>,
    pub open_date: Seq<char>,
    pub close_rate: Option<Seq<char>>,
    pub close_date: Option<Seq<char>>,
    pub amount: Seq<char>,
    pub stake_amount: Seq<char>,
    pub strategy: Seq<char>,
    pub timeframe: Seq<char>,
    pub stop_loss: Option<Seq<char>>,
    pub take_profit: Option<Seq<char>>,
    pub exit_reason: Option<Seq<char>>,
    pub profit_abs: Option<Seq<char>>,
    pub profit_ratio: Option<Seq<char>>,
}

/// The characters of an optional text.
pub open spec fn text_of(value: Option<String>) -> Option<Seq<char>> {
    match value {
        Some(s) => Some(s@),
        None => None,
    }
}

impl View for TradeRow {
    type V = TradeRowView;

    open spec fn view(&self) -> TradeRowView {
        TradeRowView {
            id: self.id@,
            pair: self.pair@,
            is_open: self.is_open,
            exchange: self.exchange@,
            open_rate: self.open_rate@,
            open_date: self.open_date@,
            close_rate: text_of(self.close_rate),
            close_date: text_of(self.close_date),
            amount: self.amount@,
            stake_amount: self.stake_amount@,
            strategy: self.strategy@,
            timeframe: self.timeframe@,
            stop_loss: text_of(self.stop_loss),
            take_profit: text_of(self.take_profit),
            exit_reason: text_of(self.exit_reason),
            profit_abs: text_of(self.profit_abs),
            profit_ratio: text_of(self.profit_ratio),
        }
    }
}

/// What an optional decimal column stands for: nothing for an absent text,
/// the decimal for a text that reads as one. `None` for a text that does
/// not.
pub open spec fn read_optional_decimal(column: Option<Seq<char>>) -> Option<Option<Decimal>> {
    match column {
        None => Some(None),
        Some(text) => match decimal_parse(text) {
            Some(d) => Some(Some(d)),
            None => None,
        },
    }
}

/// What an optional instant column stands for; `None` for a text that does
/// not read as an instant.
pub open spec fn read_optional_instant(column: Option<Seq<char>>) -> Option<Option<Timestamp>> {
    match column {
        None => Some(None),
        Some(text) => match Timestamp::spec_parse_rfc3339(text) {
            Some(t) => Some(Some(t)),
            None => None,
        },
    }
}

/// What an optional exit-reason column stands for; `None` for a text that is
/// no tag of an exit reason.
pub open spec fn read_optional_exit(column: Option<Seq<char>>) -> Option<Option<ExitType>> {
    match column {
        None => Some(None),
        Some(text) => match ExitType::spec_parse(text) {
            Some(e) => Some(Some(e)),
            None => None,
        },
    }
}

/// The trade a row stands for; `None` where a column does not read back:
/// the identifier, a decimal, an instant or a tag.
pub open spec fn read_trade(row: TradeRowView) -> Option<TradeView> {
    match (
        uuid_parse(row.id),
        decimal_parse(row.open_rate),
        Timestamp::spec_parse_rfc3339(row.open_date),
        read_optional_decimal(row.close_rate),
        read_optional_instant(row.close_date),
        decimal_parse(row.amount),
        decimal_parse(row.stake_amount),
        Timeframe::spec_parse(row.timeframe),
    ) {
        (
            Some(id),
            Some(open_rate),
            Some(open_date),
            Some(close_rate),
            Some(close_date),
            Some(amount),
            Some(stake_amount),
            Some(timeframe),
        ) => match (
            read_optional_decimal(row.stop_loss),
            read_optional_decimal(row.take_profit),
            read_optional_exit(row.exit_reason),
            read_optional_decimal(row.profit_abs),
            read_optional_decimal(row.profit_ratio),
        ) {
            (
                Some(stop_loss),
                Some(take_profit),
                Some(exit_reason),
                Some(profit_abs),
                Some(profit_ratio),
            ) => Some(
                TradeView {
                    id,
                    pair: row.pair,
                    is_open: row.is_open != 0,
                    exchange: row.exchange,
                    open_rate,
                    open_date,
                    close_rate,
                    close_date,
                    amount,
                    stake_amount,
                    strategy: row.strategy,
                    timeframe,
                    stop_loss,
                    take_profit,
                    exit_reason,
                    profit_abs,
                    profit_ratio,
                },
            ),
            _ => None,
        },
        _ => None,
    }
}

/// Whether the open date and the close date of a trade can be written as
/// RFC 3339 texts with a four-digit year.
pub open spec fn dates_storable(t: TradeView) -> bool {
    t.open_date.storable() && (t.close_date matches Some(d) ==> d.storable())
}

/// The text of an optional decimal.
pub open spec fn write_optional_decimal(value: Option<Decimal>) -> Option<Seq<char>> {
    match value {
        Some(d) => Some(decimal_text(d)),
        None => None,
    }
}

/// The row that stands for a trade whose dates are storable.
pub open spec fn write_trade(t: TradeView) -> TradeRowView {
    TradeRowView {
        id: uuid_text(t.id),
        pair: t.pair,
        is_open: if t.is_open {
            1
        } else {
            0
        },
        exchange: t.exchange,
        open_rate: decimal_text(t.open_rate),
        open_date: rfc3339_text(t.open_date.millis)->0,
        close_rate: write_optional_decimal(t.close_rate),
        close_date: match t.close_date {
            Some(d) => rfc3339_text(d.millis),
            None => None,
        },
        amount: decimal_text(t.amount),
        stake_amount: decimal_text(t.stake_amount),
        strategy: t.strategy,
        timeframe: t.timeframe.spec_tag(),
        stop_loss: write_optional_decimal(t.stop_loss),
        take_profit: write_optional_decimal(t.take_profit),
        exit_reason: match t.exit_reason {
            Some(e) => Some(e.spec_tag()),
            None => None,
        },
        profit_abs: write_optional_decimal(t.profit_abs),
        profit_ratio: write_optional_decimal(t.profit_ratio),
    }
}

fn optional_decimal_text(value: Option<Decimal>) -> (r: Option<String>)
    ensures
        text_of(r) == write_optional_decimal(value),
        read_optional_decimal(text_of(r)) == Some(value),
{
    match value {
        Some(d) => Some(d.to_text()),
        None => None,
    }
}

fn instant_text(t: Timestamp) -> (r: Result<String, AppError>)
    ensures
        r is Ok <==> t.storable(),
        r matches Ok(s) ==> rfc3339_text(t.millis) == Some(s@) && Timestamp::spec_parse_rfc3339(s@)
            == Some(t),
        r matches Err(e) ==> e is InvalidInput,
{
    if crate::time::FIRST_STORABLE_MILLIS <= t.millis && t.millis
        <= crate::time::LAST_STORABLE_MILLIS {
        match t.to_rfc3339() {
            Some(s) => Ok(s),
            None => Err(AppError::InvalidInput(String::from_str("Instant out of range"))),
        }
    } else {
        Err(AppError::InvalidInput(String::from_str("Instant out of range")))
    }
}

/// Writes a trade as a row. Fails with `InvalidInput` exactly where a date
/// of the trade lies outside the years 1 to 9999. The row reads back as the
/// same trade, field by field: the identifier, every decimal with its
/// precision, every instant, and the tags of the timeframe and the exit
/// reason.
pub fn trade_to_row(trade: &Trade) -> (r: Result<TradeRow, AppError>)
    ensures
        r is Ok <==> dates_storable(trade@),
        r matches Ok(row) ==> row@ == write_trade(trade@) && read_trade(row@) == Some(trade@),
        r matches Err(e) ==> e is InvalidInput,
{
    let open_date = match instant_text(trade.open_date) {
        Ok(s) => s,
        Err(e) => {
            return Err(e);
        },
    };
    let close_date = match trade.close_date {
        Some(d) => match instant_text(d) {
            Ok(s) => Some(s),
            Err(e) => {
                return Err(e);
            },
        },
        None => None,
    };
    let exit_reason = match trade.exit_reason {
        Some(e) => {
            proof {
                crate::types::lemma_exit_tag_round_trip(e);
            }
            Some(e.as_str().to_owned())
        },
        None => None,
    };
    proof {
        crate::types::lemma_timeframe_tag_round_trip(trade.timeframe);
    }
    let row = TradeRow {
        id: format_trade_id(trade.id),
        pair: trade.pair.clone(),
        is_open: if trade.is_open {
            1
        } else {
            0
        },
        exchange: trade.exchange.clone(),
        open_rate: trade.open_rate.to_text(),
        open_date,
        close_rate: optional_decimal_text(trade.close_rate),
        close_date,
        amount: trade.amount.to_text(),
        stake_amount: trade.stake_amount.to_text(),
        strategy: trade.strategy.clone(),
        timeframe: trade.timeframe.as_str().to_owned(),
        stop_loss: optional_decimal_text(trade.stop_loss),
        take_profit: optional_decimal_text(trade.take_profit),
        exit_reason,
        profit_abs: optional_decimal_text(trade.profit_abs),
        profit_ratio: optional_decimal_text(trade.profit_ratio),
    };
    Ok(row)
}

fn parse_fault(what: &str, text: &str) -> (r: AppError)
    ensures
        r matches AppError::Parse(m) && m@ == what@ + text@,
{
    AppError::Parse(join2(what, text))
}

fn read_decimal_column(text: &str) -> (r: Result<Decimal, AppError>)
    ensures
        r is Ok <==> decimal_parse(text@) is Some,
        r matches Ok(d) ==> decimal_parse(text@) == Some(d),
        r matches Err(e) ==> e is Parse,
{
    match Decimal::parse(text) {
        Some(d) => Ok(d),
        None => Err(parse_fault("Invalid decimal: ", text)),
    }
}

fn read_optional_decimal_column(column: &Option<String>) -> (r: Result<Option<Decimal>, AppError>)
    ensures
        r is Ok <==> read_optional_decimal(text_of(*column)) is Some,
        r matches Ok(d) ==> read_optional_decimal(text_of(*column)) == Some(d),
        r matches Err(e) ==> e is Parse,
{
    match column {
        Some(text) => match Decimal::parse(text.as_str()) {
            Some(d) => Ok(Some(d)),
            None => Err(parse_fault("Invalid decimal: ", text.as_str())),
        },
        None => Ok(None),
    }
}

fn read_instant_column(text: &str) -> (r: Result<Timestamp, AppError>)
    ensures
        r is Ok <==> Timestamp::spec_parse_rfc3339(text@) is Some,
        r matches Ok(t) ==> Timestamp::spec_parse_rfc3339(text@) == Some(t),
        r matches Err(e) ==> e is Parse,
{
    match Timestamp::parse_rfc3339(text) {
        Some(t) => Ok(t),
        None => Err(parse_fault("Invalid datetime: ", text)),
    }
}

/// Reads a row as a trade. Fails with a `Parse` error exactly where a column
/// does not read back: a bad identifier, decimal, instant or tag, in a
/// required or an optional column. Nothing is replaced by a default.
pub fn row_to_trade(row: &TradeRow) -> (r: Result<Trade, AppError>)
    ensures
        r is Ok <==> read_trade(row@) is Some,
        r matches Ok(t) ==> read_trade(row@) == Some(t@),
        r matches Err(e) ==> e is Parse,
{
    let id = match parse_trade_id(row.id.as_str()) {
        Some(id) => id,
        None => {
            return Err(parse_fault("Invalid UUID: ", row.id.as_str()));
        },
    };
    let open_rate = match read_decimal_column(row.open_rate.as_str()) {
        Ok(d) => d,
        Err(e) => {
            return Err(e);
        },
    };
    let open_date = match read_instant_column(row.open_date.as_str()) {
        Ok(t) => t,
        Err(e) => {
            return Err(e);
        },
    };
    let close_rate = match read_optional_decimal_column(&row.close_rate) {
        Ok(d) => d,
        Err(e) => {
            return Err(e);
        },
    };
    let close_date = match &row.close_date {
        Some(text) => match read_instant_column(text.as_str()) {
            Ok(t) => Some(t),
            Err(e) => {
                return Err(e);
            },
        },
        None => None,
    };
    let amount = match read_decimal_column(row.amount.as_str()) {
        Ok(d) => d,
        Err(e) => {
            return Err(e);
        },
    };
    let stake_amount = match read_decimal_column(row.stake_amount.as_str()) {
        Ok(d) => d,
        Err(e) => {
            return Err(e);
        },
    };
    let timeframe = match Timeframe::parse(row.timeframe.as_str()) {
        Some(tf) => tf,
        None => {
            return Err(parse_fault("Invalid timeframe: ", row.timeframe.as_str()));
        },
    };
    let stop_loss = match read_optional_decimal_column(&row.stop_loss) {
        Ok(d) => d,
        Err(e) => {
            return Err(e);
        },
    };
    let take_profit = match read_optional_decimal_column(&row.take_profit) {
        Ok(d) => d,
        Err(e) => {
            return Err(e);
        },
    };
    let exit_reason = match &row.exit_reason {
        Some(text) => match ExitType::parse(text.as_str()) {
            Some(e) => Some(e),
            None => {
                return Err(parse_fault("Invalid exit reason: ", text.as_str()));
            },
        },
        None => None,
    };
    let profit_abs = match read_optional_decimal_column(&row.profit_abs) {
        Ok(d) => d,
        Err(e) => {
            return Err(e);
        },
    };
    let profit_ratio = match read_optional_decimal_column(&row.profit_ratio) {
        Ok(d) => d,
        Err(e) => {
            return Err(e);
        },
    };
    Ok(
        Trade {
            id,
            pair: row.pair.clone(),
            is_open: row.is_open != 0,
            exchange: row.exchange.clone(),
            open_rate,
            open_date,
            close_rate,
            close_date,
            amount,
            stake_amount,
            strategy: row.strategy.clone(),
            timeframe,
            stop_loss,
            take_profit,
            exit_reason,
            profit_abs,
            profit_ratio,
        },
    )
}

/// A candle as the store holds it.
#[derive(Debug, Clone, PartialEq, Eq)]
pub struct KlineRow {
    pub pair: String,
    pub timeframe: String,
    pub open_time: String,
    pub open: String,
    pub high: String,
    pub low: String,
    pub close: String,
    pub volume: String,
    /// The open time plus one candle width.
    pub close_time: String,
}

/// What a [`KlineRow`] holds, as plain values.
pub struct KlineRowView {
    pub pair: Seq<char>,
    pub timeframe: Seq<char>,
    pub open_time: Seq<char>,
    pub open: Seq<char>,
    pub high: Seq<char>,
    pub low: Seq<char>,
    pub close: Seq<char>,
    pub volume: Seq<char>,
    pub close_time: Seq<char>,
}

impl View for KlineRow {
    type V = KlineRowView;

    open spec fn view(&self) -> KlineRowView {
        KlineRowView {
            pair: self.pair@,
            timeframe: self.timeframe@,
            open_time: self.open_time@,
            open: self.open@,
            high: self.high@,
            low: self.low@,
            close: self.close@,
            volume: self.volume@,
            close_time: self.close_time@,
        }
    }
}

/// The instant at which a candle closes: its open time plus one candle
/// width.
pub open spec fn candle_close_time(timeframe: Timeframe, candle: OHLCV) -> Timestamp {
    Timestamp { millis: (candle.timestamp.millis + timeframe.spec_millis()) as i64 }
}

/// Whether a candle can be written as a row: its open time and its close
/// time lie in the years 1 to 9999.
pub open spec fn candle_storable(timeframe: Timeframe, candle: OHLCV) -> bool {
    candle.timestamp.storable() && candle.timestamp.millis + timeframe.spec_millis()
        <= crate::time::LAST_STORABLE_MILLIS
}

/// The row that stands for a storable candle of a pair and a timeframe.
pub open spec fn write_kline(pair: Seq<char>, timeframe: Timeframe, candle: OHLCV) -> KlineRowView {
    KlineRowView {
        pair,
        timeframe: timeframe.spec_tag(),
        open_time: rfc3339_text(candle.timestamp.millis)->0,
        open: decimal_text(candle.open),
        high: decimal_text(candle.high),
        low: decimal_text(candle.low),
        close: decimal_text(candle.close),
        volume: decimal_text(candle.volume),
        close_time: rfc3339_text(candle_close_time(timeframe, candle).millis)->0,
    }
}

/// The candle a row stands for; `None` where the open time or a decimal
/// does not read back.
pub open spec fn read_kline(row: KlineRowView) -> Option<OHLCV> {
    match (
        Timestamp::spec_parse_rfc3339(row.open_time),
        decimal_parse(row.open),
        decimal_parse(row.high),
        decimal_parse(row.low),
        decimal_parse(row.close),
        decimal_parse(row.volume),
    ) {
        (Some(timestamp), Some(open), Some(high), Some(low), Some(close), Some(volume)) => Some(
            OHLCV { timestamp, open, high, low, close, volume },
        ),
        _ => None,
    }
}

/// Writes a candle as a row. Fails with `InvalidInput` exactly where the
/// open or the close time lies outside the years 1 to 9999. The row reads
/// back as the same candle.
pub fn kline_to_row(pair: &str, timeframe: Timeframe, candle: &OHLCV) -> (r: Result<
    KlineRow,
    AppError,
>)
    ensures
        r is Ok <==> candle_storable(timeframe, *candle),
        r matches Ok(row) ==> row@ == write_kline(pair@, timeframe, *candle) && read_kline(row@)
            == Some(*candle),
        r matches Err(e) ==> e is InvalidInput,
{
    let open_time = match instant_text(candle.timestamp) {
        Ok(s) => s,
        Err(e) => {
            return Err(e);
        },
    };
    let closes = match timeframe.close_time(candle.timestamp) {
        Some(t) => t,
        None => {
            return Err(AppError::InvalidInput(String::from_str("Instant out of range")));
        },
    };
    let close_time = match instant_text(closes) {
        Ok(s) => s,
        Err(e) => {
            return Err(e);
        },
    };
    Ok(
        KlineRow {
            pair: pair.to_owned(),
            timeframe: timeframe.as_str().to_owned(),
            open_time,
            open: candle.open.to_text(),
            high: candle.high.to_text(),
            low: candle.low.to_text(),
            close: candle.close.to_text(),
            volume: candle.volume.to_text(),
            close_time,
        },
    )
}

/// Reads a row as a candle. Fails with a `Parse` error exactly where the
/// open time or a decimal does not read back.
pub fn row_to_kline(row: &KlineRow) -> (r: Result<OHLCV, AppError>)
    ensures
        r is Ok <==> read_kline(row@) is Some,
        r matches Ok(c) ==> read_kline(row@) == Some(c),
        r matches Err(e) ==> e is Parse,
{
    let timestamp = match read_instant_column(row.open_time.as_str()) {
        Ok(t) => t,
        Err(e) => {
            return Err(e);
        },
    };
    let open = match read_decimal_column(row.open.as_str()) {
        Ok(d) => d,
        Err(e) => {
            return Err(e);
        },
    };
    let high = match read_decimal_column(row.high.as_str()) {
        Ok(d) => d,
        Err(e) => {
            return Err(e);
        },
    };
    let low = match read_decimal_column(row.low.as_str()) {
        Ok(d) => d,
        Err(e) => {
            return Err(e);
        },
    };
    let close = match read_decimal_column(row.close.as_str()) {
        Ok(d) => d,
        Err(e) => {
            return Err(e);
        },
    };
    let volume = match read_decimal_column(row.volume.as_str()) {
        Ok(d) => d,
        Err(e) => {
            return Err(e);
        },
    };
    Ok(OHLCV { timestamp, open, high, low, close, volume })
}

} // verus!
