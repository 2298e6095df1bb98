//! The REST side of the Binance adapter: queries, signatures, and the
//! mapping of responses to the data model. Sending the request and decoding
//! the JSON are the caller's part; what arrives here are the fields of the
//! response as plain values.

use crate::decimal::{decimal_difference, decimal_parse, decimal_sum, decimal_text, Decimal};
use crate::error::AppError;
use crate::text::{decimal_digits, digit_char, i64_text, join2, same_text, signed_digits, u64_text};
use crate::time::Timestamp;
use crate::types::{Balance, BalanceView, Order, OrderRequest, OrderStatus, OrderType, OrderView, Position, PositionView, Ticker, TickerView, TradeSide, OHLCV};
use vstd::prelude::*;
use vstd::string::*;

verus! {

/// The name under which trades of this venue are stored.
pub const EXCHANGE_NAME: &'static str = "binance";

/// The address of the venue's REST interface.
pub const DEFAULT_BASE_URL: &'static str = "https://api.binance.com";

/// The HMAC-SHA256 of a message under a key, both taken as UTF-8 texts: 32
/// bytes.
pub uninterp spec fn hmac_sha256(key: Seq<char>, message: Seq<char>) -> Seq<u8>;

/// The hexadecimal digit of a number below sixteen, in lowercase.
pub open spec fn hex_digit(n: int) -> char {
    if n < 10 {
        digit_char(n as nat)
    } else if n == 10 {
        'a'
    } else if n == 11 {
        'b'
    } else if n == 12 {
        'c'
    } else if n == 13 {
        'd'
    } else if n == 14 {
        'e'
    } else {
        'f'
    }
}

/// The bytes written as lowercase hexadecimal, two digits for each byte.
pub open spec fn hex_text(bytes: Seq<u8>) -> Seq<char>
    decreases bytes.len(),
{
    if bytes.len() == 0 {
        Seq::empty()
    } else {
        hex_text(bytes.drop_last()) + seq![
            hex_digit(bytes.last() as int / 16),
            hex_digit(bytes.last() as int % 16),
        ]
    }
}

/// `Hmac::<Sha256>::new_from_slice`, `update` and `finalize` of the `hmac`
/// and `sha2` crates, on the bytes of the key and of the message;
/// `new_from_slice` accepts a key of any length. The contract names the code
/// and claims that it has the 32 bytes of a SHA-256 output.
#[verifier::external_body]
fn outside_hmac_sha256(key: &str, message: &str) -> (r: Vec<u8>)
    ensures
        r@ == hmac_sha256(key@, message@),
        r@.len() == 32,
{
    let mut mac = <hmac::Hmac<sha2::Sha256> as hmac::Mac>::new_from_slice(key.as_bytes())
        .expect("HMAC takes a key of any size");
    hmac::Mac::update(&mut mac, message.as_bytes());
    hmac::Mac::finalize(mac).into_bytes().to_vec()
}

/// `hex::encode`, which writes each byte as two lowercase hexadecimal
/// digits.
#[verifier::external_body]
fn outside_hex(bytes: &Vec<u8>) -> (r: String)
    ensures
        r@ == hex_text(bytes@),
{
    hex::encode(bytes)
}

/// The query with the millisecond timestamp appended.
pub open spec fn stamped_query(query: Seq<char>, timestamp_ms: int) -> Seq<char> {
    if query.len() == 0 {
        "timestamp="@ + signed_digits(timestamp_ms)
    } else {
        query + "&timestamp="@ + signed_digits(timestamp_ms)
    }
}

/// The signed query: the stamped query, then `&signature=` and the
/// hexadecimal HMAC-SHA256 of the stamped query under the secret.
pub open spec fn signed_query(query: Seq<char>, timestamp_ms: int, secret: Seq<char>) -> Seq<char> {
    stamped_query(query, timestamp_ms) + "&signature="@ + hex_text(
        hmac_sha256(secret, stamped_query(query, timestamp_ms)),
    )
}

/// The signature of a message under a secret: its HMAC-SHA256 in lowercase
/// hexadecimal, 64 digits.
pub fn signature(secret: &str, message: &str) -> (r: String)
    ensures
        r@ == hex_text(hmac_sha256(secret@, message@)),
{
    let code = outside_hmac_sha256(secret, message);
    outside_hex(&code)
}

/// Signs a query for a private endpoint: appends the timestamp in
/// milliseconds, then the signature over what stands before it.
pub fn sign_query(query: &str, timestamp_ms: i64, secret: &str) -> (r: String)
    ensures
        r@ == signed_query(query@, timestamp_ms as int, secret@),
{
    let stamp = i64_text(timestamp_ms);
    let mut stamped = if query.is_empty() {
        String::from_str("timestamp=")
    } else {
        join2(query, "&timestamp=")
    };
    stamped.append(stamp.as_str());
    let sign = signature(secret, stamped.as_str());
    let mut signed = stamped;
    signed.append("&signature=");
    signed.append(sign.as_str());
    signed
}

/// The address of an endpoint: the base, the path, `?` and the query.
pub fn endpoint_url(base_url: &str, path: &str, query: &str) -> (r: String)
    ensures
        r@ == base_url@ + path@ + "?"@ + query@,
{
    let mut url = String::from_str(base_url);
    url.append(path);
    url.append("?");
    url.append(query);
    url
}

/// The query of an order: symbol, side, type and quantity; for an order
/// that is no market order and has a price, the price and `GTC`. `None` for
/// a limit order without a price.
pub open spec fn order_query_text(
    symbol: Seq<char>,
    side: TradeSide,
    order_type: OrderType,
    amount: Decimal,
    price: Option<Decimal>,
) -> Option<Seq<char>> {
    let head = "symbol="@ + symbol + "&side="@ + side.spec_venue_name() + "&type="@
        + order_type.spec_venue_name() + "&quantity="@ + decimal_text(amount);
    match price {
        Some(p) => if order_type != OrderType::Market {
            Some(head + "&price="@ + decimal_text(p) + "&timeInForce=GTC"@)
        } else {
            Some(head)
        },
        None => if order_type == OrderType::Limit {
            None
        } else {
            Some(head)
        },
    }
}

/// The query of an order. Fails with an `Exchange` error exactly for a limit
/// order without a price.
pub fn order_query(order: &OrderRequest) -> (r: Result<String, AppError>)
    ensures
        r is Ok <==> !(order.order_type == OrderType::Limit && order.price is None),
        r matches Ok(q) ==> Some(q@) == order_query_text(
            order.symbol@,
            order.side,
            order.order_type,
            order.amount,
            order.price,
        ),
        r matches Err(e) ==> (e matches AppError::Exchange(m) && m@
            == "Limit order requires price"@),
{
    let mut query = String::from_str("symbol=");
    query.append(order.symbol.as_str());
    query.append("&side=");
    query.append(order.side.venue_name());
    query.append("&type=");
    query.append(order.order_type.venue_name());
    query.append("&quantity=");
    let quantity = order.amount.to_text();
    query.append(quantity.as_str());
    let is_market: bool = match order.order_type {
        OrderType::Market => true,
        _ => false,
    };
    let is_limit: bool = match order.order_type {
        OrderType::Limit => true,
        _ => false,
    };
    match order.price {
        Some(p) => {
            if !is_market {
                query.append("&price=");
                let price = p.to_text();
                query.append(price.as_str());
                query.append("&timeInForce=GTC");
            }
            Ok(query)
        },
        None => {
            if is_limit {
                Err(AppError::Exchange(String::from_str("Limit order requires price")))
            } else {
                Ok(query)
            }
        },
    }
}

/// The query that names one order.
pub fn order_id_query(order_id: &str) -> (r: String)
    ensures
        r@ == "orderId="@ + order_id@,
{
    join2("orderId=", order_id)
}

/// The query that names all orders of a symbol.
pub fn symbol_query(symbol: &str) -> (r: String)
    ensures
        r@ == "symbol="@ + symbol@,
{
    join2("symbol=", symbol)
}

/// The query that asks for the latest candles of a symbol: the symbol, the
/// tag of the candle width, and how many candles at most.
pub fn klines_query(symbol: &str, timeframe: &str, limit: usize) -> (r: String)
    ensures
        r@ == "symbol="@ + symbol@ + "&interval="@ + timeframe@ + "&limit="@ + decimal_digits(
            limit as nat,
        ),
{
    let mut query = join2("symbol=", symbol);
    query.append("&interval=");
    query.append(timeframe);
    query.append("&limit=");
    let count = u64_text(limit as u64);
    query.append(count.as_str());
    query
}

/// The error for a response without success: an `Exchange` error that
/// carries the venue's text behind the given words.
pub fn venue_error(words: &str, venue_text: &str) -> (r: AppError)
    ensures
        r matches AppError::Exchange(m) && m@ == words@ + venue_text@,
{
    AppError::Exchange(join2(words, venue_text))
}

/// The decimal a venue text stands for, zero where it stands for none.
pub open spec fn decimal_or_zero_of(text: Seq<char>) -> Decimal {
    match decimal_parse(text) {
        Some(d) => d,
        None => Decimal::spec_zero(),
    }
}

/// The decimal a venue text stands for, zero where it stands for none.
pub fn decimal_or_zero(text: &str) -> (r: Decimal)
    ensures
        r == decimal_or_zero_of(text@),
{
    match Decimal::parse(text) {
        Some(d) => d,
        None => Decimal::zero(),
    }
}

/// The instant of a venue timestamp in milliseconds, cut to whole seconds.
pub open spec fn venue_instant(millis: i64) -> Timestamp {
    Timestamp { millis: (millis - millis % 1000) as i64 }
}

/// The instant of a venue timestamp in milliseconds, cut to whole seconds.
/// The venue stamps its answers with instants after 1970; an earlier one
/// counts as the epoch.
pub fn instant_from_venue(millis: i64) -> (r: Timestamp)
    ensures
        millis >= 0 ==> r == venue_instant(millis),
        millis < 0 ==> r.millis == 0,
{
    if millis >= 0 {
        Timestamp { millis: millis - millis % 1000 }
    } else {
        Timestamp { millis: 0 }
    }
}

/// The fields of an order in a venue response.
#[derive(Debug, Clone, PartialEq, Eq)]
pub struct RawOrder {
    pub symbol: String,
    pub order_id: i64,
    pub transact_time: i64,
    pub orig_qty: String,
    pub executed_qty: String,
    pub status: String,
    pub side: String,
    pub order_type: String,
    pub price: String,
    pub update_time: i64,
}

/// The side a venue response names; an unknown name counts as a buy.
pub open spec fn side_from_venue(text: Seq<char>) -> TradeSide {
    if text == "SELL"@ {
        TradeSide::Sell
    } else {
        TradeSide::Buy
    }
}

/// The side a venue response names; an unknown name counts as a buy.
pub fn parse_side(text: &str) -> (r: TradeSide)
    ensures
        r == side_from_venue(text@),
{
    if same_text(text, "SELL") {
        TradeSide::Sell
    } else {
        TradeSide::Buy
    }
}

/// The order that answers a submitted request: side, type and price are
/// those of the request; identifier, symbol, status, amount and filled
/// quantity those of the response; what remains is the amount less the
/// filled quantity. `None` where that difference cannot be computed.
pub open spec fn created_order(request: OrderRequest, raw: RawOrder) -> Option<OrderView> {
    let amount = decimal_or_zero_of(raw.orig_qty@);
    let filled = decimal_or_zero_of(raw.executed_qty@);
    match decimal_difference(amount, filled) {
        Some(remaining) => Some(
            OrderView {
                id: signed_digits(raw.order_id as int),
                symbol: raw.symbol@,
                side: request.side,
                order_type: request.order_type,
                status: OrderStatus::spec_from_venue_name(raw.status@),
                price: request.price,
                amount,
                filled,
                remaining,
                fee: None,
                created_at: instant_from_venue_spec(raw.transact_time),
                updated_at: instant_from_venue_spec(raw.transact_time),
            },
        ),
        None => None,
    }
}

/// The instant of a venue timestamp, cut to whole seconds; the epoch for a
/// timestamp before it.
pub open spec fn instant_from_venue_spec(millis: i64) -> Timestamp {
    if millis >= 0 {
        venue_instant(millis)
    } else {
        Timestamp { millis: 0 }
    }
}

/// The order that answers a submitted request. Fails with a `Decimal` error
/// where the remaining quantity cannot be computed.
pub fn order_from_create_response(request: &OrderRequest, raw: &RawOrder) -> (r: Result<
    Order,
    AppError,
>)
    ensures
        r is Ok <==> created_order(*request, *raw) is Some,
        r matches Ok(o) ==> Some(o@) == created_order(*request, *raw) && Some(o.remaining)
            == decimal_difference(o.amount, o.filled),
        r matches Err(e) ==> e is Decimal,
{
    let amount = decimal_or_zero(raw.orig_qty.as_str());
    let filled = decimal_or_zero(raw.executed_qty.as_str());
    let remaining = match amount.checked_sub(filled) {
        Some(d) => d,
        None => {
            return Err(AppError::Decimal(String::from_str("remaining quantity cannot be computed")));
        },
    };
    let created_at = instant_from_venue(raw.transact_time);
    Ok(
        Order {
            id: i64_text(raw.order_id),
            symbol: raw.symbol.clone(),
            side: request.side,
            order_type: request.order_type,
            status: OrderStatus::from_venue_name(raw.status.as_str()),
            price: request.price,
            amount,
            filled,
            remaining,
            fee: None,
            created_at,
            updated_at: created_at,
        },
    )
}

/// The order a venue response describes: every field is that of the
/// response, and what remains is the amount less the filled quantity. `None`
/// where that difference cannot be computed.
pub open spec fn fetched_order(raw: RawOrder) -> Option<OrderView> {
    let amount = decimal_or_zero_of(raw.orig_qty@);
    let filled = decimal_or_zero_of(raw.executed_qty@);
    match decimal_difference(amount, filled) {
        Some(remaining) => Some(
            OrderView {
                id: signed_digits(raw.order_id as int),
                symbol: raw.symbol@,
                side: side_from_venue(raw.side@),
                order_type: OrderType::spec_from_venue_name(raw.order_type@),
                status: OrderStatus::spec_from_venue_name(raw.status@),
                price: Some(decimal_or_zero_of(raw.price@)),
                amount,
                filled,
                remaining,
                fee: None,
                created_at: instant_from_venue_spec(raw.transact_time),
                updated_at: instant_from_venue_spec(raw.update_time),
            },
        ),
        None => None,
    }
}

/// The order a venue response describes. Fails with a `Decimal` error where
/// the remaining quantity cannot be computed.
pub fn order_from_response(raw: &RawOrder) -> (r: Result<Order, AppError>)
    ensures
        r is Ok <==> fetched_order(*raw) is Some,
        r matches Ok(o) ==> Some(o@) == fetched_order(*raw) && Some(o.remaining)
            == decimal_difference(o.amount, o.filled),
        r matches Err(e) ==> e is Decimal,
{
    let amount = decimal_or_zero(raw.orig_qty.as_str());
    let filled = decimal_or_zero(raw.executed_qty.as_str());
    let remaining = match amount.checked_sub(filled) {
        Some(d) => d,
        None => {
            return Err(AppError::Decimal(String::from_str("remaining quantity cannot be computed")));
        },
    };
    Ok(
        Order {
            id: i64_text(raw.order_id),
            symbol: raw.symbol.clone(),
            side: parse_side(raw.side.as_str()),
            order_type: OrderType::from_venue_name(raw.order_type.as_str()),
            status: OrderStatus::from_venue_name(raw.status.as_str()),
            price: Some(decimal_or_zero(raw.price.as_str())),
            amount,
            filled,
            remaining,
            fee: None,
            created_at: instant_from_venue(raw.transact_time),
            updated_at: instant_from_venue(raw.update_time),
        },
    )
}

/// The orders a venue response lists, in its order. Fails with a `Decimal`
/// error where the remaining quantity of one of them cannot be computed.
pub fn orders_from_response(raws: &Vec<RawOrder>) -> (r: Result<Vec<Order>, AppError>)
    ensures
        r is Ok <==> forall|i: int| 0 <= i < raws@.len() ==> fetched_order(#[trigger] raws@[i]) is Some,
        r matches Ok(orders) ==> orders@.len() == raws@.len() && forall|i: int|
            0 <= i < raws@.len() ==> Some((#[trigger] orders@[i])@) == fetched_order(raws@[i]),
        r matches Err(e) ==> e is Decimal,
{
    let mut orders: Vec<Order> = Vec::new();
    let mut i: usize = 0;
    while i < raws.len()
        invariant
            i <= raws.len(),
            orders@.len() == i,
            forall|k: int| 0 <= k < i ==> fetched_order(#[trigger] raws@[k]) is Some,
            forall|k: int| 0 <= k < i ==> Some((#[trigger] orders@[k])@) == fetched_order(raws@[k]),
        decreases raws.len() - i,
    {
        match order_from_response(&raws[i]) {
            Ok(order) => {
                orders.push(order);
            },
            Err(e) => {
                return Err(e);
            },
        }
        i = i + 1;
    }
    Ok(orders)
}

/// The fields of the 24-hour ticker in a venue response; `None` where the
/// response lacks the field.
#[derive(Debug, Clone, PartialEq, Eq)]
pub struct RawTicker {
    pub symbol: Option<String>,
    pub last_price: Option<String>,
    pub volume: Option<String>,
    pub price_change_percent: Option<String>,
}

/// The decimal of an optional venue text: zero where the text is absent or
/// stands for no decimal.
pub open spec fn optional_decimal_or_zero(text: Option<String>) -> Decimal {
    match text {
        Some(t) => decimal_or_zero_of(t@),
        None => Decimal::spec_zero(),
    }
}

/// The decimal of an optional venue text, zero where there is none.
pub fn decimal_of_field(text: &Option<String>) -> (r: Decimal)
    ensures
        r == optional_decimal_or_zero(*text),
{
    match text {
        Some(t) => decimal_or_zero(t.as_str()),
        None => Decimal::zero(),
    }
}

/// The text of an optional field, empty where the field is absent.
pub open spec fn text_or_empty(text: Option<String>) -> Seq<char> {
    match text {
        Some(s) => s@,
        None => Seq::<char>::empty(),
    }
}

/// The ticker a venue response describes: an absent symbol is empty, an
/// absent or unreadable number is zero.
pub fn ticker_from_response(raw: &RawTicker) -> (r: Ticker)
    ensures
        r@ == (TickerView {
            symbol: text_or_empty(raw.symbol),
            price: optional_decimal_or_zero(raw.last_price),
            volume_24h: optional_decimal_or_zero(raw.volume),
            change_24h: optional_decimal_or_zero(raw.price_change_percent),
        }),
{
    Ticker {
        symbol: match &raw.symbol {
            Some(s) => s.clone(),
            None => String::new(),
        },
        price: decimal_of_field(&raw.last_price),
        volume_24h: decimal_of_field(&raw.volume),
        change_24h: decimal_of_field(&raw.price_change_percent),
    }
}

/// One candle of a venue response; `None` where the response lacks the
/// field or it has another type.
#[derive(Debug, Clone, PartialEq, Eq)]
pub struct RawKline {
    pub open_time: Option<i64>,
    pub open: Option<String>,
    pub high: Option<String>,
    pub low: Option<String>,
    pub close: Option<String>,
    pub volume: Option<String>,
}

/// Whether the candle of a response has all six fields.
pub open spec fn kline_complete(raw: RawKline) -> bool {
    raw.open_time is Some && raw.open is Some && raw.high is Some && raw.low is Some
        && raw.close is Some && raw.volume is Some
}

/// The candle a complete entry of a response stands for.
pub open spec fn kline_of(raw: RawKline) -> OHLCV {
    OHLCV {
        timestamp: instant_from_venue_spec(raw.open_time->0),
        open: decimal_or_zero_of(raw.open->0@),
        high: decimal_or_zero_of(raw.high->0@),
        low: decimal_or_zero_of(raw.low->0@),
        close: decimal_or_zero_of(raw.close->0@),
        volume: decimal_or_zero_of(raw.volume->0@),
    }
}

/// The candles of a response: those of its complete entries, in order.
pub open spec fn klines_of(raws: Seq<RawKline>) -> Seq<OHLCV>
    decreases raws.len(),
{
    if raws.len() == 0 {
        Seq::empty()
    } else if kline_complete(raws.last()) {
        klines_of(raws.drop_last()).push(kline_of(raws.last()))
    } else {
        klines_of(raws.drop_last())
    }
}

/// The candles a venue response lists, oldest first as the venue sends
/// them. An entry that lacks a field is left out.
pub fn klines_from_response(raws: &Vec<RawKline>) -> (r: Vec<OHLCV>)
    ensures
        r@ == klines_of(raws@),
{
    let mut out: Vec<OHLCV> = Vec::new();
    let mut i: usize = 0;
    while i < raws.len()
        invariant
            i <= raws.len(),
            out@ == klines_of(raws@.take(i as int)),
        decreases raws.len() - i,
    {
        let raw = &raws[i];
        proof {
            assert(raws@.take(i + 1).drop_last() =~= raws@.take(i as int));
        }
        match (&raw.open_time, &raw.open, &raw.high, &raw.low, &raw.close, &raw.volume) {
            (Some(open_time), Some(open), Some(high), Some(low), Some(close), Some(volume)) => {
                out.push(
                    OHLCV {
                        timestamp: instant_from_venue(*open_time),
                        open: decimal_or_zero(open.as_str()),
                        high: decimal_or_zero(high.as_str()),
                        low: decimal_or_zero(low.as_str()),
                        close: decimal_or_zero(close.as_str()),
                        volume: decimal_or_zero(volume.as_str()),
                    },
                );
            },
            _ => {},
        }
        i = i + 1;
    }
    proof {
        assert(raws@.take(i as int) =~= raws@);
    }
    out
}

/// The holdings of one asset in an account response.
#[derive(Debug, Clone, PartialEq, Eq)]
pub struct RawAsset {
    pub asset: String,
    pub free: String,
    pub locked: String,
}

/// How many entries stand before the first one of the given asset.
pub open spec fn position_of_asset(assets: Seq<RawAsset>, currency: Seq<char>) -> int
    decreases assets.len(),
{
    if assets.len() == 0 {
        0
    } else if assets.first().asset@ == currency {
        0
    } else {
        1 + position_of_asset(assets.drop_first(), currency)
    }
}

/// The balance of a currency in an account response: free and used are
/// those of the first entry of the currency, the total is their sum. Zero
/// throughout where the account has no such entry. `None` where the sum
/// cannot be computed.
pub open spec fn balance_of(assets: Seq<RawAsset>, currency: Seq<char>) -> Option<BalanceView> {
    let at = position_of_asset(assets, currency);
    if at < assets.len() {
        let free = decimal_or_zero_of(assets[at].free@);
        let used = decimal_or_zero_of(assets[at].locked@);
        match decimal_sum(free, used) {
            Some(total) => Some(BalanceView { currency, total, free, used }),
            None => None,
        }
    } else {
        Some(
            BalanceView {
                currency,
                total: Decimal::spec_zero(),
                free: Decimal::spec_zero(),
                used: Decimal::spec_zero(),
            },
        )
    }
}

/// The balance of a currency in an account response; its total is what is
/// free plus what is used. Fails with a `Decimal` error where that sum
/// cannot be computed.
pub fn balance_from_response(assets: &Vec<RawAsset>, currency: &str) -> (r: Result<
    Balance,
    AppError,
>)
    ensures
        r is Ok <==> balance_of(assets@, currency@) is Some,
        r matches Ok(b) ==> Some(b@) == balance_of(assets@, currency@) && (Some(b.total)
            == decimal_sum(b.free, b.used) || (b.total == Decimal::spec_zero() && b.free
            == Decimal::spec_zero() && b.used == Decimal::spec_zero())),
        r matches Err(e) ==> e is Decimal,
{
    let mut i: usize = 0;
    proof {
        assert(assets@.skip(0) =~= assets@);
    }
    while i < assets.len()
        invariant
            i <= assets.len(),
            position_of_asset(assets@, currency@) == i + position_of_asset(
                assets@.skip(i as int),
                currency@,
            ),
        decreases assets.len() - i,
    {
        proof {
            assert(assets@.skip(i as int).drop_first() =~= assets@.skip(i + 1));
        }
        if same_text(assets[i].asset.as_str(), currency) {
            let free = decimal_or_zero(assets[i].free.as_str());
            let used = decimal_or_zero(assets[i].locked.as_str());
            return match free.checked_add(used) {
                Some(total) => Ok(Balance { currency: currency.to_owned(), total, free, used }),
                None => Err(AppError::Decimal(String::from_str("balance cannot be computed"))),
            };
        }
        i = i + 1;
    }
    Ok(
        Balance {
            currency: currency.to_owned(),
            total: Decimal::zero(),
            free: Decimal::zero(),
            used: Decimal::zero(),
        },
    )
}

/// One position of an account response; `None` where the response lacks the
/// field.
#[derive(Debug, Clone, PartialEq, Eq)]
pub struct RawPosition {
    pub symbol: Option<String>,
    pub notional: Option<String>,
    pub entry_price: Option<String>,
    pub mark_price: Option<String>,
    pub unrealized_profit: Option<String>,
}

/// Whether the entry is a position at all: its notional is not zero.
pub open spec fn position_held(raw: RawPosition) -> bool {
    optional_decimal_or_zero(raw.notional).units() != 0
}

/// The position an entry with a notional other than zero stands for: long
/// for a notional above zero, short below; the size is the notional without
/// its sign; the percentage is not reported and counts as zero.
pub open spec fn position_of(raw: RawPosition) -> PositionView {
    PositionView {
        symbol: text_or_empty(raw.symbol),
        side: if optional_decimal_or_zero(raw.notional).units() > 0 {
            TradeSide::Buy
        } else {
            TradeSide::Sell
        },
        size: optional_decimal_or_zero(raw.notional).spec_abs(),
        entry_price: optional_decimal_or_zero(raw.entry_price),
        mark_price: optional_decimal_or_zero(raw.mark_price),
        unrealized_pnl: optional_decimal_or_zero(raw.unrealized_profit),
        percentage: Decimal::spec_zero(),
    }
}

/// The positions of a response: those of the entries whose notional is not
/// zero, in order.
pub open spec fn positions_of(raws: Seq<RawPosition>) -> Seq<PositionView>
    decreases raws.len(),
{
    if raws.len() == 0 {
        Seq::empty()
    } else if position_held(raws.last()) {
        positions_of(raws.drop_last()).push(position_of(raws.last()))
    } else {
        positions_of(raws.drop_last())
    }
}

/// The views of a sequence of positions, in the same order.
pub open spec fn position_views(positions: Seq<Position>) -> Seq<PositionView> {
    Seq::new(positions.len(), |i: int| positions[i]@)
}

/// The position an entry stands for, `None` for a notional of zero.
pub fn position_from_response(raw: &RawPosition) -> (r: Option<Position>)
    ensures
        r is Some <==> position_held(*raw),
        r matches Some(p) ==> p@ == position_of(*raw),
{
    let notional = decimal_of_field(&raw.notional);
    if notional.is_zero() {
        None
    } else {
        Some(
            Position {
                symbol: match &raw.symbol {
                    Some(s) => s.clone(),
                    None => String::new(),
                },
                side: if notional.is_positive() {
                    TradeSide::Buy
                } else {
                    TradeSide::Sell
                },
                size: notional.abs(),
                entry_price: decimal_of_field(&raw.entry_price),
                mark_price: decimal_of_field(&raw.mark_price),
                unrealized_pnl: decimal_of_field(&raw.unrealized_profit),
                percentage: Decimal::zero(),
            },
        )
    }
}

/// The positions of an account response: those entries whose notional is
/// not zero, in order.
pub fn positions_from_response(raws: &Vec<RawPosition>) -> (r: Vec<Position>)
    ensures
        position_views(r@) == positions_of(raws@),
{
    let mut out: Vec<Position> = Vec::new();
    let mut i: usize = 0;
    while i < raws.len()
        invariant
            i <= raws.len(),
            position_views(out@) == positions_of(raws@.take(i as int)),
        decreases raws.len() - i,
    {
        proof {
            assert(raws@.take(i + 1).drop_last() =~= raws@.take(i as int));
        }
        match position_from_response(&raws[i]) {
            Some(p) => {
                out.push(p);
            },
            None => {},
        }
        i = i + 1;
    }
    proof {
        assert(raws@.take(i as int) =~= raws@);
    }
    out
}

/// The REST adapter's identity: the credentials and the address of the
/// venue.
#[derive(Debug, Clone, PartialEq, Eq)]
pub struct BinanceExchange {
    api_key: String,
    api_secret: String,
    base_url: String,
}

impl BinanceExchange {
    /// The key that travels in the header `X-MBX-APIKEY`.
    pub closed spec fn spec_api_key(&self) -> Seq<char> {
        self.api_key@
    }

    /// The secret that signs queries.
    pub closed spec fn spec_api_secret(&self) -> Seq<char> {
        self.api_secret@
    }

    /// The address of the venue.
    pub closed spec fn spec_base_url(&self) -> Seq<char> {
        self.base_url@
    }

    /// An adapter for the venue's own address.
    pub fn new(api_key: String, api_secret: String) -> (r: Self)
        ensures
            r.spec_api_key() == api_key@,
            r.spec_api_secret() == api_secret@,
            r.spec_base_url() == "https://api.binance.com"@,
    {
        BinanceExchange { api_key, api_secret, base_url: String::from_str("https://api.binance.com") }
    }

    /// The adapter with another address.
    pub fn with_base_url(self, url: String) -> (r: Self)
        ensures
            r.spec_api_key() == self.spec_api_key(),
            r.spec_api_secret() == self.spec_api_secret(),
            r.spec_base_url() == url@,
    {
        BinanceExchange { api_key: self.api_key, api_secret: self.api_secret, base_url: url }
    }

    /// The address of the venue.
    pub fn get_base_url(&self) -> (r: &str)
        ensures
            r@ == self.spec_base_url(),
    {
        self.base_url.as_str()
    }

    /// The key that travels in the header `X-MBX-APIKEY`.
    pub fn api_key(&self) -> (r: &str)
        ensures
            r@ == self.spec_api_key(),
    {
        self.api_key.as_str()
    }

    /// The name under which trades of this venue are stored.
    pub fn get_name(&self) -> (r: &'static str)
        ensures
            r@ == "binance"@,
    {
        "binance"
    }

    /// The address of a public endpoint with its query.
    pub fn public_url(&self, path: &str, query: &str) -> (r: String)
        ensures
            r@ == self.spec_base_url() + path@ + "?"@ + query@,
    {
        endpoint_url(self.base_url.as_str(), path, query)
    }

    /// The address of a private endpoint: the query is stamped with the
    /// time in milliseconds and signed with the secret.
    pub fn signed_url(&self, path: &str, query: &str, timestamp_ms: i64) -> (r: String)
        ensures
            r@ == self.spec_base_url() + path@ + "?"@ + signed_query(
                query@,
                timestamp_ms as int,
                self.spec_api_secret(),
            ),
    {
        let signed = sign_query(query, timestamp_ms, self.api_secret.as_str());
        endpoint_url(self.base_url.as_str(), path, signed.as_str())
    }

    /// The address that submits an order. Fails with an `Exchange` error
    /// exactly for a limit order without a price.
    pub fn order_url(&self, order: &OrderRequest, timestamp_ms: i64) -> (r: Result<String, AppError>)
        ensures
            r is Ok <==> !(order.order_type == OrderType::Limit && order.price is None),
            r matches Ok(url) ==> url@ == self.spec_base_url() + "/api/v3/order"@ + "?"@
                + signed_query(
                order_query_text(
                    order.symbol@,
                    order.side,
                    order.order_type,
                    order.amount,
                    order.price,
                )->0,
                timestamp_ms as int,
                self.spec_api_secret(),
            ),
            r matches Err(e) ==> e is Exchange,
    {
        match order_query(order) {
            Ok(query) => Ok(self.signed_url("/api/v3/order", query.as_str(), timestamp_ms)),
            Err(e) => Err(e),
        }
    }

    /// The order that a request leads to, given the venue's reply to its
    /// submission: the fields of the response where the venue reports
    /// success, its error text where it does not. A limit order without a
    /// price fails with an `Exchange` error, whatever the reply. A reply
    /// without success fails with an `Exchange` error that carries the
    /// venue's text. Otherwise the order has the side, the type and the price
    /// of the request and the amount and the filled quantity of the response,
    /// and what remains is the amount less the filled quantity; where that
    /// difference cannot be computed the call fails with a `Decimal` error.
    pub fn create_order(&self, order: &OrderRequest, reply: Result<RawOrder, String>) -> (r: Result<
        Order,
        AppError,
    >)
        ensures
            order.order_type == OrderType::Limit && order.price is None ==> (r matches Err(
                AppError::Exchange(m),
            ) && m@ == "Limit order requires price"@),
            !(order.order_type == OrderType::Limit && order.price is None) ==> match reply {
                Err(text) => (r matches Err(AppError::Exchange(m)) && m@ == "Binance error: "@
                    + text@),
                Ok(raw) => match created_order(*order, raw) {
                    Some(view) => (r matches Ok(o) && o@ == view && o.amount == decimal_or_zero_of(
                        raw.orig_qty@,
                    ) && o.filled == decimal_or_zero_of(raw.executed_qty@) && Some(o.remaining)
                        == decimal_difference(o.amount, o.filled) && o.side == order.side
                        && o.order_type == order.order_type && o.price == order.price),
                    None => r matches Err(AppError::Decimal(_)),
                },
            },
    {
        match order_query(order) {
            Ok(_) => {},
            Err(e) => {
                return Err(e);
            },
        }
        match reply {
            Err(text) => Err(venue_error("Binance error: ", text.as_str())),
            Ok(raw) => order_from_create_response(order, &raw),
        }
    }
}

} // verus!
