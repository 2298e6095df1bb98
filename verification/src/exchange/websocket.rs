//! The streaming channel of the Binance adapter: which streams are asked for,
//! how the connection is supervised, and what an incoming message does to
//! the account state. Opening the socket, reading frames and decoding JSON
//! are the caller's part.

use super::binance::{decimal_or_zero, decimal_or_zero_of};
use crate::decimal::{decimal_difference, decimal_parse, decimal_sum, Decimal};
use crate::error::AppError;
use crate::text::{i64_text, join2, same_text, signed_digits};
use crate::time::Timestamp;
use crate::types::{
    lemma_terminal_status_is_final, Balance, BalanceView, Order, OrderStatus, OrderType, OrderView, Position,
    TradeSide,
};
use vstd::prelude::*;
use vstd::string::*;

verus! {

/// How many events the channel to the consumer holds. A sender waits for
/// room when the channel is full, so that no order update is dropped.
pub const EVENT_CHANNEL_CAPACITY: usize = 100;

/// The state of the streaming connection.
#[derive(Debug, Clone, Copy, PartialEq, Eq, Structural, Hash)]
pub enum ConnectionState {
    Disconnected,
    Connecting,
    Connected,
    Reconnecting,
    Failed,
}

/// A stream of the venue.
#[derive(Debug, Clone, PartialEq, Eq)]
pub enum BinanceStream {
    /// Balance changes of the account; private.
    Account,
    /// Updates of open orders; private.
    Orders,
    /// Updates of all orders; private.
    AllOrders,
    /// Trades of the market.
    Trade,
    /// Candles of a symbol at an interval.
    Kline(String, String),
    /// The ticker of a symbol.
    Ticker(String),
    /// The heartbeat of the venue.
    Heartbeat,
}

/// The text as `str::to_lowercase` gives it.
pub uninterp spec fn lowercase(text: Seq<char>) -> Seq<char>;

/// `str::to_lowercase` of std, which lowers each character by the Unicode
/// rules. The contract names the result and claims nothing of its value.
#[verifier::external_body]
fn outside_lowercase(text: &str) -> (r: String)
    ensures
        r@ == lowercase(text@),
{
    text.to_lowercase()
}

/// The address that the `url` crate gives for an endpoint with one more
/// query pair; `None` where it cannot read the endpoint as a URL.
pub uninterp spec fn url_with_query(endpoint: Seq<char>, key: Seq<char>, value: Seq<char>) -> Option<
    Seq<char>,
>;

/// `url::Url::parse`, then `query_pairs_mut().append_pair(key, value)`, then
/// the URL as a text. The contract names the result and claims nothing of
/// its value.
#[verifier::external_body]
fn outside_url_with_query(endpoint: &str, key: &str, value: &str) -> (r: Option<String>)
    ensures
        text_option(r) == url_with_query(endpoint@, key@, value@),
{
    match url::Url::parse(endpoint) {
        Ok(mut parsed) => {
            parsed.query_pairs_mut().append_pair(key, value);
            Some(parsed.to_string())
        },
        Err(_) => None,
    }
}

/// The characters of an optional text.
pub open spec fn text_option(value: Option<String>) -> Option<Seq<char>> {
    match value {
        Some(s) => Some(s@),
        None => None,
    }
}

impl BinanceStream {
    /// Whether the stream needs a listen key.
    pub open spec fn private(self) -> bool {
        self is Account || self is Orders || self is AllOrders
    }

    /// Whether the stream needs a listen key.
    pub fn is_private(&self) -> (r: bool)
        ensures
            r == self.private(),
    {
        match self {
            BinanceStream::Account => true,
            BinanceStream::Orders => true,
            BinanceStream::AllOrders => true,
            _ => false,
        }
    }

    /// The name of the kind of stream.
    pub open spec fn spec_name(self) -> Seq<char> {
        match self {
            BinanceStream::Account => "Account"@,
            BinanceStream::Orders => "Orders"@,
            BinanceStream::AllOrders => "AllOrders"@,
            BinanceStream::Trade => "Trade"@,
            BinanceStream::Kline(_, _) => "Kline"@,
            BinanceStream::Ticker(_) => "Ticker"@,
            BinanceStream::Heartbeat => "Heartbeat"@,
        }
    }

    /// The name of the kind of stream.
    pub fn name(&self) -> (r: &'static str)
        ensures
            r@ == self.spec_name(),
    {
        match self {
            BinanceStream::Account => "Account",
            BinanceStream::Orders => "Orders",
            BinanceStream::AllOrders => "AllOrders",
            BinanceStream::Trade => "Trade",
            BinanceStream::Kline(_, _) => "Kline",
            BinanceStream::Ticker(_) => "Ticker",
            BinanceStream::Heartbeat => "Heartbeat",
        }
    }

    /// The text by which the stream is subscribed.
    pub open spec fn spec_descriptor(self) -> Seq<char> {
        match self {
            BinanceStream::Account => "!account@balance"@,
            BinanceStream::Orders => "!order@0"@,
            BinanceStream::AllOrders => "!allOrder@0"@,
            BinanceStream::Trade => "!trade@0"@,
            BinanceStream::Kline(symbol, interval) => lowercase(symbol@) + "@kline_"@ + interval@,
            BinanceStream::Ticker(symbol) => lowercase(symbol@) + "@ticker"@,
            BinanceStream::Heartbeat => "!heartbeat"@,
        }
    }

    /// The text by which the stream is subscribed.
    pub fn descriptor(&self) -> (r: String)
        ensures
            r@ == self.spec_descriptor(),
    {
        match self {
            BinanceStream::Account => String::from_str("!account@balance"),
            BinanceStream::Orders => String::from_str("!order@0"),
            BinanceStream::AllOrders => String::from_str("!allOrder@0"),
            BinanceStream::Trade => String::from_str("!trade@0"),
            BinanceStream::Kline(symbol, interval) => {
                let mut s = outside_lowercase(symbol.as_str());
                s.append("@kline_");
                s.append(interval.as_str());
                s
            },
            BinanceStream::Ticker(symbol) => {
                let mut s = outside_lowercase(symbol.as_str());
                s.append("@ticker");
                s
            },
            BinanceStream::Heartbeat => String::from_str("!heartbeat"),
        }
    }
}

/// The descriptors of the streams, joined by `/`.
pub open spec fn joined_descriptors(streams: Seq<BinanceStream>) -> Seq<char>
    decreases streams.len(),
{
    if streams.len() == 0 {
        Seq::empty()
    } else if streams.len() == 1 {
        streams[0].spec_descriptor()
    } else {
        joined_descriptors(streams.drop_last()) + "/"@ + streams.last().spec_descriptor()
    }
}

/// Whether one of the streams needs a listen key.
pub open spec fn any_private(streams: Seq<BinanceStream>) -> bool {
    exists|i: int| 0 <= i < streams.len() && (#[trigger] streams[i]).private()
}

/// The settings of the streaming channel, with durations in seconds.
#[derive(Debug, Clone, PartialEq, Eq)]
pub struct WebSocketConfig {
    pub endpoint: String,
    /// The listen key for private streams.
    pub api_key: Option<String>,
    pub connect_timeout_secs: u64,
    pub reconnect_delay_secs: u64,
    pub max_reconnect_attempts: u32,
    pub heartbeat_interval_secs: u64,
}

impl Default for WebSocketConfig {
    fn default() -> (r: Self)
        ensures
            r.endpoint@ == "wss://stream.binance.com:9443/ws"@,
            r.api_key is None,
            r.connect_timeout_secs == 10,
            r.reconnect_delay_secs == 5,
            r.max_reconnect_attempts == 5,
            r.heartbeat_interval_secs == 60,
    {
        WebSocketConfig {
            endpoint: String::from_str("wss://stream.binance.com:9443/ws"),
            api_key: None,
            connect_timeout_secs: 10,
            reconnect_delay_secs: 5,
            max_reconnect_attempts: 5,
            heartbeat_interval_secs: 60,
        }
    }
}

/// The address to connect to for the given streams: the endpoint with the
/// query pair `streams`, whose value is the descriptors joined by `/`. Fails
/// with a `Config` error where no stream is given, where a private stream is
/// asked for without a listen key, or where the endpoint is no URL.
pub fn build_url(config: &WebSocketConfig, streams: &Vec<BinanceStream>) -> (r: Result<
    String,
    AppError,
>)
    ensures
        r is Ok <==> streams@.len() > 0 && !(any_private(streams@) && config.api_key is None)
            && url_with_query(config.endpoint@, "streams"@, joined_descriptors(streams@)) is Some,
        r matches Ok(url) ==> Some(url@) == url_with_query(
            config.endpoint@,
            "streams"@,
            joined_descriptors(streams@),
        ),
        r matches Err(e) ==> e is Config,
        streams@.len() == 0 ==> (r matches Err(AppError::Config(m)) && m@
            == "WebSocket streams cannot be empty"@),
        streams@.len() > 0 && any_private(streams@) && config.api_key is None ==> (r matches Err(
            AppError::Config(m),
        ) && m@ == "API key (listen key) required for private Binance streams"@),
        streams@.len() > 0 && !(any_private(streams@) && config.api_key is None) && url_with_query(
            config.endpoint@,
            "streams"@,
            joined_descriptors(streams@),
        ) is None ==> (r matches Err(AppError::Config(m)) && m@ == "Invalid WebSocket base URL: "@
            + config.endpoint@),
{
    if streams.len() == 0 {
        return Err(AppError::Config(String::from_str("WebSocket streams cannot be empty")));
    }
    let mut private: bool = false;
    let mut joined = String::new();
    let mut i: usize = 0;
    while i < streams.len()
        invariant
            i <= streams.len(),
            private == any_private(streams@.take(i as int)),
            joined@ == joined_descriptors(streams@.take(i as int)),
        decreases streams.len() - i,
    {
        proof {
            assert(streams@.take(i + 1).drop_last() =~= streams@.take(i as int));
            if any_private(streams@.take(i as int)) {
                let k = choose|k: int|
                    0 <= k < streams@.take(i as int).len() && (#[trigger] streams@.take(
                        i as int,
                    )[k]).private();
            }
            if any_private(streams@.take(i + 1)) && !streams@[i as int].private() {
                let k = choose|k: int|
                    0 <= k < streams@.take(i + 1).len() && (#[trigger] streams@.take(
                        i + 1,
                    )[k]).private();
            }
        }
        if streams[i].is_private() {
            private = true;
        }
        let part = streams[i].descriptor();
        if i > 0 {
            joined.append("/");
        }
        joined.append(part.as_str());
        proof {
            assert(joined@ =~= joined_descriptors(streams@.take(i + 1)));
        }
        i = i + 1;
    }
    proof {
        assert(streams@.take(i as int) =~= streams@);
    }
    if private && config.api_key.is_none() {
        return Err(
            AppError::Config(
                String::from_str("API key (listen key) required for private Binance streams"),
            ),
        );
    }
    match outside_url_with_query(config.endpoint.as_str(), "streams", joined.as_str()) {
        Some(url) => Ok(url),
        None => Err(AppError::Config(join2("Invalid WebSocket base URL: ", config.endpoint.as_str()))),
    }
}

/// The state of an order that a venue message names; an unknown name counts
/// as new.
pub fn parse_order_status(status: &str) -> (r: OrderStatus)
    ensures
        r == OrderStatus::spec_from_venue_name(status@),
{
    OrderStatus::from_venue_name(status)
}

/// The side that a venue message names; an unknown name counts as a buy.
pub fn parse_trade_side(side: &str) -> (r: TradeSide)
    ensures
        r == super::binance::side_from_venue(side@),
{
    super::binance::parse_side(side)
}

/// The kind of order that a stream message names. Stop and take-profit
/// orders of either form count as stop-limit orders, a limit-maker order as a
/// limit order, and an unknown name as a limit order.
pub open spec fn stream_order_type(text: Seq<char>) -> OrderType {
    if text == "MARKET"@ {
        OrderType::Market
    } else if text == "STOP_LOSS"@ || text == "STOP_LOSS_LIMIT"@ || text == "TAKE_PROFIT"@ || text
        == "TAKE_PROFIT_LIMIT"@ {
        OrderType::StopLimit
    } else {
        OrderType::Limit
    }
}

/// The kind of order that a stream message names.
pub fn parse_order_type(order_type: &str) -> (r: OrderType)
    ensures
        r == stream_order_type(order_type@),
{
    if same_text(order_type, "MARKET") {
        OrderType::Market
    } else if same_text(order_type, "STOP_LOSS") || same_text(order_type, "STOP_LOSS_LIMIT")
        || same_text(order_type, "TAKE_PROFIT") || same_text(order_type, "TAKE_PROFIT_LIMIT") {
        OrderType::StopLimit
    } else {
        OrderType::Limit
    }
}

/// What kind of message an event tag announces.
#[derive(Debug, Clone, Copy, PartialEq, Eq, Structural)]
pub enum MessageKind {
    AccountUpdate,
    OrderUpdate,
    Trade,
    Heartbeat,
    Error,
    /// A tag this channel does not know: the message is ignored.
    Unknown,
}

/// The kind of message that the tag in the field `e` announces.
pub open spec fn spec_message_kind(tag: Seq<char>) -> MessageKind {
    if tag == "outboundAccountPosition"@ {
        MessageKind::AccountUpdate
    } else if tag == "executionReport"@ {
        MessageKind::OrderUpdate
    } else if tag == "trade"@ {
        MessageKind::Trade
    } else if tag == "ping"@ {
        MessageKind::Heartbeat
    } else if tag == "Error"@ {
        MessageKind::Error
    } else {
        MessageKind::Unknown
    }
}

/// The kind of message that the tag in the field `e` announces. An unknown
/// tag is no error.
pub fn message_kind(tag: &str) -> (r: MessageKind)
    ensures
        r == spec_message_kind(tag@),
{
    if same_text(tag, "outboundAccountPosition") {
        MessageKind::AccountUpdate
    } else if same_text(tag, "executionReport") {
        MessageKind::OrderUpdate
    } else if same_text(tag, "trade") {
        MessageKind::Trade
    } else if same_text(tag, "ping") {
        MessageKind::Heartbeat
    } else if same_text(tag, "Error") {
        MessageKind::Error
    } else {
        MessageKind::Unknown
    }
}

/// The balance of one asset in an account message: the asset, what is free
/// and what is locked.
#[derive(Debug, Clone, PartialEq, Eq)]
pub struct BalanceUpdate {
    pub a: String,
    pub f: String,
    pub l: String,
}

/// The fields of an execution report, under the venue's one-letter names.
#[derive(Debug, Clone, PartialEq, Eq)]
#[allow(non_snake_case)]
pub struct OrderUpdateParams {
    /// Symbol.
    pub s: String,
    /// Client order id.
    pub c: String,
    /// Side.
    pub S: String,
    /// Order type.
    pub o: String,
    /// Time in force.
    pub f: String,
    /// Price.
    pub p: String,
    /// Quantity.
    pub q: String,
    /// Stop price.
    pub P: String,
    /// Iceberg quantity.
    pub d: String,
    /// Execution type.
    pub x: String,
    /// Order status.
    pub X: String,
    /// Order id.
    pub i: i64,
    /// Last executed quantity.
    pub l: String,
    /// Commission.
    pub n: String,
    /// Commission asset.
    pub N: Option<String>,
    /// Transaction time in milliseconds.
    pub T: i64,
    /// Trade id.
    pub t: i64,
    /// Prevented match id.
    pub v: String,
    /// Cumulative filled quantity.
    pub z: String,
}

/// A message of the venue, by its event tag.
#[derive(Debug, Clone, PartialEq, Eq)]
#[allow(non_snake_case)]
pub enum BinanceWebSocketMessage {
    AccountUpdate { u: i64, B: Vec<BalanceUpdate> },
    OrderUpdate(Box<OrderUpdateParams>),
    Trade { E: i64, s: String, t: i64, p: String, q: String, b: i64, a: i64, T: i64, m: bool },
    Heartbeat { msg_type: Option<i32>, timestamp: Option<i64> },
    Error { msg: String },
}

/// The state an order was last reported in.
#[derive(Debug, Clone, Copy, PartialEq, Eq)]
pub struct OrderMark {
    /// The order id of the venue.
    pub id: i64,
    pub status: OrderStatus,
}

/// The balances and positions last reported by the venue, and the state
/// each order was last reported in.
#[derive(Debug, Clone, PartialEq)]
pub struct AccountState {
    pub balances: Vec<Balance>,
    pub positions: Vec<Position>,
    pub last_update: Option<Timestamp>,
    pub orders: Vec<OrderMark>,
}

impl Default for AccountState {
    fn default() -> (r: Self)
        ensures
            r.balances@.len() == 0,
            r.positions@.len() == 0,
            r.last_update is None,
            r.orders@.len() == 0,
    {
        AccountState {
            balances: Vec::new(),
            positions: Vec::new(),
            last_update: None,
            orders: Vec::new(),
        }
    }
}

/// What the channel tells its consumer.
#[derive(Debug, Clone, PartialEq)]
pub enum WebSocketEvent {
    BalanceUpdate(Balance),
    OrderUpdate(Order),
    PositionUpdate(Position),
    ConnectionStateChanged(ConnectionState),
    Error(String),
}

/// The balance an account message reports for one asset: the total is what
/// is free plus what is locked; an unreadable number counts as zero. `None`
/// where the sum cannot be computed.
pub open spec fn reported_balance(update: BalanceUpdate) -> Option<BalanceView> {
    let free = decimal_or_zero_of(update.f@);
    let used = decimal_or_zero_of(update.l@);
    match decimal_sum(free, used) {
        Some(total) => Some(BalanceView { currency: update.a@, total, free, used }),
        None => None,
    }
}

/// The balance an account message reports for one asset. Fails with a
/// `Decimal` error where the total cannot be computed.
pub fn balance_from_update(update: &BalanceUpdate) -> (r: Result<Balance, AppError>)
    ensures
        r is Ok <==> reported_balance(*update) is Some,
        r matches Ok(b) ==> Some(b@) == reported_balance(*update) && Some(b.total) == decimal_sum(
            b.free,
            b.used,
        ),
        r matches Err(e) ==> e is Decimal,
{
    let free = decimal_or_zero(update.f.as_str());
    let used = decimal_or_zero(update.l.as_str());
    match free.checked_add(used) {
        Some(total) => Ok(Balance { currency: update.a.clone(), total, free, used }),
        None => Err(AppError::Decimal(String::from_str("balance cannot be computed"))),
    }
}

/// What remains of an order: the amount less the filled quantity, and zero
/// where that is below zero. `None` where the difference cannot be
/// computed.
pub open spec fn remaining_of(amount: Decimal, filled: Decimal) -> Option<Decimal> {
    match decimal_difference(amount, filled) {
        Some(d) => Some(
            if d.units() < 0 {
                Decimal::spec_zero()
            } else {
                d
            },
        ),
        None => None,
    }
}

/// The order an execution report describes, received at `now`. `None` where
/// the remaining quantity cannot be computed.
pub open spec fn reported_order(params: OrderUpdateParams, now: Timestamp) -> Option<OrderView> {
    let amount = decimal_or_zero_of(params.q@);
    let filled = decimal_or_zero_of(params.z@);
    match remaining_of(amount, filled) {
        Some(remaining) => Some(
            OrderView {
                id: signed_digits(params.i as int),
                symbol: params.s@,
                side: super::binance::side_from_venue(params.S@),
                order_type: stream_order_type(params.o@),
                status: OrderStatus::spec_from_venue_name(params.X@),
                price: decimal_parse(params.p@),
                amount,
                filled,
                remaining,
                fee: decimal_parse(params.n@),
                created_at: Timestamp { millis: params.T },
                updated_at: now,
            },
        ),
        None => None,
    }
}

/// The order an execution report describes, received at `now`. Fails with a
/// `Decimal` error where the remaining quantity cannot be computed.
pub fn order_from_update(params: &OrderUpdateParams, now: Timestamp) -> (r: Result<Order, AppError>)
    ensures
        r is Ok <==> reported_order(*params, now) is Some,
        r matches Ok(o) ==> Some(o@) == reported_order(*params, now) && o.remaining.units() >= 0,
        r matches Err(e) ==> e is Decimal,
{
    let amount = decimal_or_zero(params.q.as_str());
    let filled = decimal_or_zero(params.z.as_str());
    let remaining = match amount.checked_sub(filled) {
        Some(d) => {
            if d.is_negative() {
                Decimal::zero()
            } else {
                d
            }
        },
        None => {
            return Err(AppError::Decimal(String::from_str("remaining quantity cannot be computed")));
        },
    };
    Ok(
        Order {
            id: i64_text(params.i),
            symbol: params.s.clone(),
            side: parse_trade_side(params.S.as_str()),
            order_type: parse_order_type(params.o.as_str()),
            status: parse_order_status(params.X.as_str()),
            price: Decimal::parse(params.p.as_str()),
            amount,
            filled,
            remaining,
            fee: Decimal::parse(params.n.as_str()),
            created_at: Timestamp::from_millis(params.T),
            updated_at: now,
        },
    )
}

/// The views of a sequence of balances, in the same order.
pub open spec fn balance_views(balances: Seq<Balance>) -> Seq<BalanceView> {
    Seq::new(balances.len(), |i: int| balances[i]@)
}

/// How many balances stand before the first one of the given currency.
pub open spec fn position_of_currency(balances: Seq<BalanceView>, currency: Seq<char>) -> int
    decreases balances.len(),
{
    if balances.len() == 0 {
        0
    } else if balances.first().currency == currency {
        0
    } else {
        1 + position_of_currency(balances.drop_first(), currency)
    }
}

/// The balances after one report: the report takes the place of the first
/// balance of its currency, or is added behind the others where there is
/// none.
pub open spec fn with_balance(balances: Seq<BalanceView>, report: BalanceView) -> Seq<BalanceView> {
    let at = position_of_currency(balances, report.currency);
    if at < balances.len() {
        balances.update(at, report)
    } else {
        balances.push(report)
    }
}

/// The balances after a sequence of reports, applied in order.
pub open spec fn with_balances(balances: Seq<BalanceView>, reports: Seq<BalanceView>) -> Seq<
    BalanceView,
>
    decreases reports.len(),
{
    if reports.len() == 0 {
        balances
    } else {
        with_balance(with_balances(balances, reports.drop_last()), reports.last())
    }
}

/// Puts a reported balance into the account state.
pub fn apply_balance(balances: &mut Vec<Balance>, report: Balance)
    ensures
        balance_views(final(balances)@) == with_balance(balance_views(old(balances)@), report@),
{
    let ghost views = balance_views(balances@);
    let mut i: usize = 0;
    proof {
        assert(views.skip(0) =~= views);
    }
    while i < balances.len()
        invariant
            i <= balances.len(),
            balances@ == old(balances)@,
            views == balance_views(balances@),
            position_of_currency(views, report.currency@) == i + position_of_currency(
                views.skip(i as int),
                report.currency@,
            ),
        decreases balances.len() - i,
    {
        proof {
            assert(views.skip(i as int).drop_first() =~= views.skip(i + 1));
        }
        if same_text(balances[i].currency.as_str(), report.currency.as_str()) {
            balances.set(i, report);
            return ;
        }
        i = i + 1;
    }
    balances.push(report);
}

/// The reports of an account message, in its order; `None` where the total
/// of one of them cannot be computed.
pub open spec fn reported_balances(updates: Seq<BalanceUpdate>) -> Option<Seq<BalanceView>>
    decreases updates.len(),
{
    if updates.len() == 0 {
        Some(Seq::empty())
    } else {
        match (reported_balances(updates.drop_last()), reported_balance(updates.last())) {
            (Some(earlier), Some(b)) => Some(earlier.push(b)),
            _ => None,
        }
    }
}

/// The balances an account message reports, in its order. Fails with a
/// `Decimal` error where a total cannot be computed.
pub fn balances_from_updates(updates: &Vec<BalanceUpdate>) -> (r: Result<Vec<Balance>, AppError>)
    ensures
        r is Ok <==> reported_balances(updates@) is Some,
        r matches Ok(b) ==> Some(balance_views(b@)) == reported_balances(updates@),
        r matches Err(e) ==> e is Decimal,
{
    let mut out: Vec<Balance> = Vec::new();
    let mut i: usize = 0;
    while i < updates.len()
        invariant
            i <= updates.len(),
            reported_balances(updates@.take(i as int)) == Some(balance_views(out@)),
        decreases updates.len() - i,
    {
        proof {
            assert(updates@.take(i + 1).drop_last() =~= updates@.take(i as int));
        }
        match balance_from_update(&updates[i]) {
            Ok(b) => {
                out.push(b);
            },
            Err(e) => {
                proof {
                    lemma_reported_balances_prefix(updates@, i + 1);
                }
                return Err(e);
            },
        }
        i = i + 1;
    }
    proof {
        assert(updates@.take(i as int) =~= updates@);
    }
    Ok(out)
}

/// Where the reports of a message can be computed, so can those of each of
/// its beginnings.
pub proof fn lemma_reported_balances_prefix(updates: Seq<BalanceUpdate>, n: int)
    requires
        0 <= n <= updates.len(),
    ensures
        reported_balances(updates) is Some ==> reported_balances(updates.take(n)) is Some,
    decreases updates.len(),
{
    if n == updates.len() {
        assert(updates.take(n) =~= updates);
    } else {
        lemma_reported_balances_prefix(updates.drop_last(), n);
        assert(updates.drop_last().take(n) =~= updates.take(n));
    }
}

/// The state an order was last reported in: that of the first mark with
/// its id, and none where no report of it was seen.
pub open spec fn known_status(marks: Seq<OrderMark>, id: i64) -> Option<OrderStatus>
    decreases marks.len(),
{
    if marks.len() == 0 {
        None
    } else if marks.first().id == id {
        Some(marks.first().status)
    } else {
        known_status(marks.drop_first(), id)
    }
}

/// The state of an order after a report: the reported state where the order
/// is new to the channel or its last state admits the change, and its last
/// state where it does not. A final state is never left.
pub open spec fn status_after(known: Option<OrderStatus>, reported: OrderStatus) -> OrderStatus {
    match known {
        Some(last) => if last.admits(reported) {
            reported
        } else {
            last
        },
        None => reported,
    }
}

/// Whether the marks `after` are the marks `before` with the order `id` in
/// the state `status`, and every other order as it was.
pub open spec fn marked(before: Seq<OrderMark>, after: Seq<OrderMark>, id: i64, status: OrderStatus) -> bool {
    forall|other: i64|
        known_status(after, other) == if other == id {
            Some(status)
        } else {
            #[trigger] known_status(before, other)
        }
}

/// Replacing the first mark of an order changes the state of that order
/// only.
proof fn lemma_update_mark(marks: Seq<OrderMark>, at: int, mark: OrderMark, other: i64)
    requires
        0 <= at < marks.len(),
        marks[at].id == mark.id,
        forall|j: int| 0 <= j < at ==> marks[j].id != mark.id,
    ensures
        known_status(marks.update(at, mark), other) == if other == mark.id {
            Some(mark.status)
        } else {
            known_status(marks, other)
        },
    decreases marks.len(),
{
    if at == 0 {
        assert(marks.update(at, mark).drop_first() =~= marks.drop_first());
    } else {
        let rest = marks.drop_first();
        assert(marks.update(at, mark).drop_first() =~= rest.update(at - 1, mark));
        assert forall|j: int| 0 <= j < at - 1 implies (#[trigger] rest[j]).id != mark.id by {
            assert(rest[j] == marks[j + 1]);
        }
        lemma_update_mark(rest, at - 1, mark, other);
    }
}

/// A mark behind the others, for an order that has none, changes the state
/// of that order only.
proof fn lemma_push_mark(marks: Seq<OrderMark>, mark: OrderMark, other: i64)
    requires
        forall|j: int| 0 <= j < marks.len() ==> marks[j].id != mark.id,
    ensures
        known_status(marks, mark.id) is None,
        known_status(marks.push(mark), other) == if other == mark.id {
            Some(mark.status)
        } else {
            known_status(marks, other)
        },
    decreases marks.len(),
{
    if marks.len() == 0 {
        assert(marks.push(mark).drop_first() =~= marks);
    } else {
        let rest = marks.drop_first();
        assert(marks.push(mark).drop_first() =~= rest.push(mark));
        assert forall|j: int| 0 <= j < rest.len() implies (#[trigger] rest[j]).id != mark.id by {
            assert(rest[j] == marks[j + 1]);
        }
        assert(marks[0].id != mark.id);
        lemma_push_mark(rest, mark, other);
    }
}

/// The first mark of an order is where its state is read.
proof fn lemma_known_at(marks: Seq<OrderMark>, at: int)
    requires
        0 <= at < marks.len(),
        forall|j: int| 0 <= j < at ==> marks[j].id != marks[at].id,
    ensures
        known_status(marks, marks[at].id) == Some(marks[at].status),
    decreases marks.len(),
{
    if at > 0 {
        let rest = marks.drop_first();
        assert forall|j: int| 0 <= j < at - 1 implies (#[trigger] rest[j]).id != rest[at - 1].id by {
            assert(rest[j] == marks[j + 1]);
        }
        assert(marks[0].id != marks[at].id);
        lemma_known_at(rest, at - 1);
    }
}

/// Takes note of a report on an order and gives the state the order is in
/// after it: the reported state, unless the state it was last reported in
/// does not admit the change. An order that is filled, canceled, rejected or
/// expired stays so.
pub fn note_status(marks: &mut Vec<OrderMark>, id: i64, reported: OrderStatus) -> (r: OrderStatus)
    ensures
        r == status_after(known_status(old(marks)@, id), reported),
        marked(old(marks)@, final(marks)@, id, r),
        known_status(old(marks)@, id) matches Some(last) ==> (last.terminal() ==> r == last),
{
    let mut i: usize = 0;
    while i < marks.len()
        invariant
            i <= marks.len(),
            marks@ == old(marks)@,
            forall|j: int| 0 <= j < i ==> marks@[j].id != id,
        decreases marks.len() - i,
    {
        if marks[i].id == id {
            let status = marks[i].status.advance(reported);
            let mark = OrderMark { id, status };
            proof {
                lemma_known_at(marks@, i as int);
                assert forall|other: i64|
                    known_status(marks@.update(i as int, mark), other) == if other == id {
                        Some(status)
                    } else {
                        #[trigger] known_status(marks@, other)
                    } by {
                    lemma_update_mark(marks@, i as int, mark, other);
                }
            }
            marks.set(i, mark);
            return status;
        }
        i = i + 1;
    }
    let mark = OrderMark { id, status: reported };
    proof {
        assert forall|other: i64|
            known_status(marks@.push(mark), other) == if other == id {
                Some(reported)
            } else {
                #[trigger] known_status(marks@, other)
            } by {
            lemma_push_mark(marks@, mark, other);
        }
        lemma_push_mark(marks@, mark, id);
    }
    marks.push(mark);
    reported
}

/// What a message does to the account state and which events it gives. An
/// account message gives one balance event for each asset it reports, puts
/// the reported balances into the account state and stamps the state with
/// `now`. An execution report gives one order event, and the account state
/// takes note of the state of the order; the event shows the reported state
/// unless the state the order was last reported in does not admit it, so an
/// order that was filled, canceled, rejected or expired is never shown in
/// another state. A heartbeat and a market trade give nothing. An error
/// message fails with a `WebSocket` error that carries its text. A `Decimal`
/// error comes where a total or a remaining quantity cannot be computed.
/// Whatever fails leaves the account state as it was.
pub open spec fn handled(
    msg: BinanceWebSocketMessage,
    before: AccountState,
    after: AccountState,
    now: Timestamp,
    r: Result<Vec<WebSocketEvent>, AppError>,
) -> bool {
    match msg {
        BinanceWebSocketMessage::AccountUpdate { u, B } => match reported_balances(B@) {
            Some(reports) => {
                &&& r matches Ok(events)
                &&& events@.len() == reports.len()
                &&& forall|i: int|
                    0 <= i < events@.len() ==> (#[trigger] events@[i] matches WebSocketEvent::BalanceUpdate(
                        b,
                    ) && b@ == reports[i])
                &&& balance_views(after.balances@) == with_balances(
                    balance_views(before.balances@),
                    reports,
                )
                &&& after.last_update == Some(now)
                &&& after.positions == before.positions
                &&& after.orders == before.orders
            },
            None => r matches Err(AppError::Decimal(_)) && after == before,
        },
        BinanceWebSocketMessage::OrderUpdate(params) => match reported_order(*params, now) {
            Some(order) => {
                let status = status_after(known_status(before.orders@, params.i), order.status);
                &&& r matches Ok(events)
                &&& events@.len() == 1
                &&& (events@[0] matches WebSocketEvent::OrderUpdate(o) && o@ == order.with_status(
                    status,
                ))
                &&& marked(before.orders@, after.orders@, params.i, status)
                &&& after.balances == before.balances
                &&& after.positions == before.positions
                &&& after.last_update == before.last_update
            },
            None => r matches Err(AppError::Decimal(_)) && after == before,
        },
        BinanceWebSocketMessage::Error { msg: text } => (r matches Err(AppError::WebSocket(m)) && m@
            == text@) && after == before,
        _ => (r matches Ok(events) && events@.len() == 0) && after == before,
    }
}

/// A final order state is never left: once an order was reported as filled,
/// canceled, rejected or expired, every later report of it is shown in that
/// state, and the account state keeps it.
pub proof fn lemma_terminal_order_keeps_status(
    params: OrderUpdateParams,
    before: AccountState,
    after: AccountState,
    now: Timestamp,
    r: Result<Vec<WebSocketEvent>, AppError>,
    last: OrderStatus,
)
    requires
        handled(BinanceWebSocketMessage::OrderUpdate(Box::new(params)), before, after, now, r),
        known_status(before.orders@, params.i) == Some(last),
        last.terminal(),
    ensures
        known_status(after.orders@, params.i) == Some(last),
        r matches Ok(events) ==> events@.len() == 1 && (events@[0] matches WebSocketEvent::OrderUpdate(
            o,
        ) && o.status == last),
{
    if reported_order(params, now) is Some {
        let order = reported_order(params, now)->0;
        lemma_terminal_status_is_final(last, order.status);
        assert(known_status(after.orders@, params.i) == Some(
            status_after(known_status(before.orders@, params.i), order.status),
        ));
    }
}

/// Handles a message of the venue against an account state.
pub fn handle_message(msg: BinanceWebSocketMessage, account: &mut AccountState, now: Timestamp) -> (r:
    Result<Vec<WebSocketEvent>, AppError>)
    ensures
        handled(msg, *old(account), *final(account), now, r),
{
    let mut events: Vec<WebSocketEvent> = Vec::new();
    match msg {
        BinanceWebSocketMessage::AccountUpdate { u: _, B: balances } => {
            let updated = match balances_from_updates(&balances) {
                Ok(b) => b,
                Err(e) => {
                    return Err(e);
                },
            };
            let ghost reports = balance_views(updated@);
            let mut i: usize = 0;
            while i < updated.len()
                invariant
                    i <= updated.len(),
                    reports == balance_views(updated@),
                    events@.len() == i,
                    forall|k: int|
                        0 <= k < i ==> (#[trigger] events@[k] matches WebSocketEvent::BalanceUpdate(b)
                            && b@ == reports[k]),
                    balance_views(account.balances@) == with_balances(
                        balance_views(old(account).balances@),
                        reports.take(i as int),
                    ),
                    account.positions == old(account).positions,
                    account.last_update == old(account).last_update,
                    account.orders == old(account).orders,
                decreases updated.len() - i,
            {
                proof {
                    assert(reports.take(i + 1).drop_last() =~= reports.take(i as int));
                }
                let for_event = Balance {
                    currency: updated[i].currency.clone(),
                    total: updated[i].total,
                    free: updated[i].free,
                    used: updated[i].used,
                };
                let for_state = Balance {
                    currency: updated[i].currency.clone(),
                    total: updated[i].total,
                    free: updated[i].free,
                    used: updated[i].used,
                };
                events.push(WebSocketEvent::BalanceUpdate(for_event));
                apply_balance(&mut account.balances, for_state);
                i = i + 1;
            }
            proof {
                assert(reports.take(i as int) =~= reports);
            }
            account.last_update = Some(now);
            Ok(events)
        },
        BinanceWebSocketMessage::OrderUpdate(params) => {
            match order_from_update(&params, now) {
                Ok(order) => {
                    let status = note_status(&mut account.orders, params.i, order.status);
                    let shown = Order {
                        id: order.id,
                        symbol: order.symbol,
                        side: order.side,
                        order_type: order.order_type,
                        status,
                        price: order.price,
                        amount: order.amount,
                        filled: order.filled,
                        remaining: order.remaining,
                        fee: order.fee,
                        created_at: order.created_at,
                        updated_at: order.updated_at,
                    };
                    events.push(WebSocketEvent::OrderUpdate(shown));
                    Ok(events)
                },
                Err(e) => Err(e),
            }
        },
        BinanceWebSocketMessage::Heartbeat { msg_type: _, timestamp: _ } => Ok(events),
        BinanceWebSocketMessage::Error { msg: text } => Err(AppError::WebSocket(text)),
        BinanceWebSocketMessage::Trade { E: _, s: _, t: _, p: _, q: _, b: _, a: _, T: _, m: _ } => Ok(
            events,
        ),
    }
}

/// What a text frame does whose event tag announces `kind`, and whose
/// fields gave `body` where they could be read. A tag the channel does not
/// know is no error: such a frame gives no event and leaves the account state
/// as it was, whatever else it holds. A frame of a known kind whose fields
/// could not be read fails with a `WebSocket` error and changes nothing.
/// Any other frame is handled as the message it holds.
pub open spec fn handled_tagged(
    kind: MessageKind,
    body: Option<BinanceWebSocketMessage>,
    before: AccountState,
    after: AccountState,
    now: Timestamp,
    r: Result<Vec<WebSocketEvent>, AppError>,
) -> bool {
    if kind is Unknown {
        (r matches Ok(events) && events@.len() == 0) && after == before
    } else {
        match body {
            Some(msg) => handled(msg, before, after, now, r),
            None => (r matches Err(AppError::WebSocket(m)) && m@
                == "Failed to parse websocket message"@) && after == before,
        }
    }
}

/// Handles what a text frame held: the kind its event tag announces, and
/// the message where its fields could be read.
pub fn handle_tagged(
    kind: MessageKind,
    body: Option<BinanceWebSocketMessage>,
    account: &mut AccountState,
    now: Timestamp,
) -> (r: Result<Vec<WebSocketEvent>, AppError>)
    ensures
        handled_tagged(kind, body, *old(account), *final(account), now, r),
{
    match kind {
        MessageKind::Unknown => Ok(Vec::new()),
        _ => match body {
            Some(msg) => handle_message(msg, account, now),
            None => Err(AppError::WebSocket(String::from_str("Failed to parse websocket message"))),
        },
    }
}

/// A frame read from the socket, or the failure to read one.
#[derive(Debug, Clone, PartialEq, Eq)]
pub enum Frame {
    Text(String),
    Ping(Vec<u8>),
    Close,
    /// A binary frame, a pong or a raw frame.
    Other,
    /// The read failed with this description.
    ReadError(String),
}

/// What the reader does with a frame.
#[derive(Debug, Clone, PartialEq, Eq)]
pub enum FrameAction {
    /// Decode the text and handle the message.
    Handle(String),
    /// Answer with a pong that carries the same payload.
    Pong(Vec<u8>),
    /// Leave the read loop: the connection is over.
    Leave,
    /// Report the error to the consumer and leave the read loop.
    ReportAndLeave(String),
    /// Go on reading.
    Ignore,
}

/// What the reader does with a frame: a text is handled, a ping answered
/// with a pong of the same payload, a close ends the reading, a failed read
/// is reported as `Read error: ` and its description and ends the reading,
/// anything else is passed over.
pub fn frame_action(frame: Frame) -> (r: FrameAction)
    ensures
        match frame {
            Frame::Text(t) => r == FrameAction::Handle(t),
            Frame::Ping(p) => r == FrameAction::Pong(p),
            Frame::Close => r == FrameAction::Leave,
            Frame::Other => r == FrameAction::Ignore,
            Frame::ReadError(e) => r matches FrameAction::ReportAndLeave(m) && m@ == "Read error: "@
                + e@,
        },
{
    match frame {
        Frame::Text(t) => FrameAction::Handle(t),
        Frame::Ping(p) => FrameAction::Pong(p),
        Frame::Close => FrameAction::Leave,
        Frame::Other => FrameAction::Ignore,
        Frame::ReadError(e) => FrameAction::ReportAndLeave(join2("Read error: ", e.as_str())),
    }
}

/// What the supervisor does before it tries to connect.
#[derive(Debug, Clone, Copy, PartialEq, Eq, Structural)]
pub enum AttemptPlan {
    /// The channel was asked to stop: leave the loop.
    Stop,
    /// Too many attempts failed in a row: leave the loop.
    GiveUp,
    /// Wait this many seconds, then connect.
    Connect(u64),
}

/// The supervisor of the streaming connection: its state, whether it is
/// meant to run, and how many attempts failed in a row.
#[derive(Debug, Clone, PartialEq)]
pub struct WebSocketManager {
    state: ConnectionState,
    account_state: AccountState,
    config: WebSocketConfig,
    running: bool,
    attempt: u32,
}

impl WebSocketManager {
    /// The state of the connection.
    pub closed spec fn spec_state(&self) -> ConnectionState {
        self.state
    }

    /// Whether the supervisor is meant to run.
    pub closed spec fn spec_running(&self) -> bool {
        self.running
    }

    /// How many attempts failed in a row.
    pub closed spec fn spec_attempt(&self) -> u32 {
        self.attempt
    }

    /// The settings.
    pub closed spec fn spec_config(&self) -> WebSocketConfig {
        self.config
    }

    /// The account state.
    pub closed spec fn spec_account_state(&self) -> AccountState {
        self.account_state
    }

    /// A supervisor that is disconnected and not running.
    pub fn new(config: WebSocketConfig) -> (r: Self)
        ensures
            r.spec_state() == ConnectionState::Disconnected,
            !r.spec_running(),
            r.spec_attempt() == 0,
            r.spec_config() == config,
            r.spec_account_state().balances@.len() == 0,
            r.spec_account_state().positions@.len() == 0,
            r.spec_account_state().last_update is None,
            r.spec_account_state().orders@.len() == 0,
    {
        WebSocketManager {
            state: ConnectionState::Disconnected,
            account_state: AccountState::default(),
            config,
            running: false,
            attempt: 0,
        }
    }

    /// The state of the connection.
    pub fn get_state(&self) -> (r: ConnectionState)
        ensures
            r == self.spec_state(),
    {
        self.state
    }

    /// The account state.
    pub fn get_account_state(&self) -> (r: &AccountState)
        ensures
            *r == self.spec_account_state(),
    {
        &self.account_state
    }

    /// Whether the connection is up.
    pub fn is_connected(&self) -> (r: bool)
        ensures
            r == (self.spec_state() == ConnectionState::Connected),
    {
        match self.state {
            ConnectionState::Connected => true,
            _ => false,
        }
    }

    /// Whether the supervisor is meant to run.
    pub fn is_running(&self) -> (r: bool)
        ensures
            r == self.spec_running(),
    {
        self.running
    }

    /// Starts the supervisor for the given streams and gives the address to
    /// connect to: from then on it runs, with no failed attempt counted.
    /// Fails with a `Config` error, and changes nothing, where it is already
    /// running, where no stream is given, where a private stream is asked for
    /// without a listen key, or where the endpoint is no URL. The account
    /// state stays as it is either way.
    pub fn connect(&mut self, streams: &Vec<BinanceStream>) -> (r: Result<String, AppError>)
        ensures
            r is Ok <==> !old(self).spec_running() && streams@.len() > 0 && !(any_private(streams@)
                && old(self).spec_config().api_key is None) && url_with_query(
                old(self).spec_config().endpoint@,
                "streams"@,
                joined_descriptors(streams@),
            ) is Some,
            r matches Err(e) ==> e is Config && *final(self) == *old(self),
            old(self).spec_running() ==> (r matches Err(AppError::Config(m)) && m@
                == "WebSocket already running"@),
            !old(self).spec_running() && streams@.len() == 0 ==> (r matches Err(
                AppError::Config(m),
            ) && m@ == "WebSocket streams cannot be empty"@),
            !old(self).spec_running() && streams@.len() > 0 && any_private(streams@) && old(
                self,
            ).spec_config().api_key is None ==> (r matches Err(AppError::Config(m)) && m@
                == "API key (listen key) required for private Binance streams"@),
            !old(self).spec_running() && streams@.len() > 0 && !(any_private(streams@) && old(
                self,
            ).spec_config().api_key is None) && url_with_query(
                old(self).spec_config().endpoint@,
                "streams"@,
                joined_descriptors(streams@),
            ) is None ==> (r matches Err(AppError::Config(m)) && m@
                == "Invalid WebSocket base URL: "@ + old(self).spec_config().endpoint@),
            r matches Ok(url) ==> Some(url@) == url_with_query(
                old(self).spec_config().endpoint@,
                "streams"@,
                joined_descriptors(streams@),
            ) && final(self).spec_running() && final(self).spec_attempt() == 0 && final(self).spec_state() == old(self).spec_state() && final(self).spec_config() == old(self).spec_config()
                && final(self).spec_account_state() == old(self).spec_account_state(),
    {
        if self.running {
            return Err(AppError::Config(String::from_str("WebSocket already running")));
        }
        let url = match build_url(&self.config, streams) {
            Ok(u) => u,
            Err(e) => {
                return Err(e);
            },
        };
        self.running = true;
        self.attempt = 0;
        Ok(url)
    }

    /// What the supervisor does before it tries to connect, and the state it
    /// announces. Not running: it stops. No failure yet: it connects at
    /// once, in state connecting. After more failures in a row than the
    /// settings allow: it gives up, in state failed, and no longer runs.
    /// Otherwise it waits the reconnect delay and connects, in state
    /// reconnecting.
    pub fn next_attempt(&mut self) -> (r: AttemptPlan)
        ensures
            final(self).spec_config() == old(self).spec_config(),
            final(self).spec_attempt() == old(self).spec_attempt(),
            final(self).spec_account_state() == old(self).spec_account_state(),
            !old(self).spec_running() ==> r == AttemptPlan::Stop && *final(self) == *old(self),
            old(self).spec_running() && old(self).spec_attempt() == 0 ==> r == AttemptPlan::Connect(
                0,
            ) && final(self).spec_state() == ConnectionState::Connecting && final(self).spec_running(),
            old(self).spec_running() && old(self).spec_attempt() > old(self).spec_config().max_reconnect_attempts ==> r == AttemptPlan::GiveUp && final(self).spec_state() == ConnectionState::Failed && !final(self).spec_running(),
            old(self).spec_running() && 0 < old(self).spec_attempt() <= old(self).spec_config().max_reconnect_attempts ==> r == AttemptPlan::Connect(
                old(self).spec_config().reconnect_delay_secs,
            ) && final(self).spec_state() == ConnectionState::Reconnecting && final(self).spec_running(),
    {
        if !self.running {
            AttemptPlan::Stop
        } else if self.attempt == 0 {
            self.state = ConnectionState::Connecting;
            AttemptPlan::Connect(0)
        } else if self.attempt > self.config.max_reconnect_attempts {
            self.state = ConnectionState::Failed;
            self.running = false;
            AttemptPlan::GiveUp
        } else {
            self.state = ConnectionState::Reconnecting;
            AttemptPlan::Connect(self.config.reconnect_delay_secs)
        }
    }

    /// The connection is up: the state is connected and the count of
    /// failures starts anew.
    pub fn on_connected(&mut self)
        ensures
            final(self).spec_state() == ConnectionState::Connected,
            final(self).spec_attempt() == 0,
            final(self).spec_running() == old(self).spec_running(),
            final(self).spec_config() == old(self).spec_config(),
            final(self).spec_account_state() == old(self).spec_account_state(),
    {
        self.state = ConnectionState::Connected;
        self.attempt = 0;
    }

    /// The connection could not be made, timed out, or was lost: one more
    /// failure in a row, while the supervisor is meant to run.
    pub fn on_connection_lost(&mut self)
        ensures
            final(self).spec_attempt() == if old(self).spec_running() && old(self).spec_attempt()
                < u32::MAX {
                (old(self).spec_attempt() + 1) as u32
            } else {
                old(self).spec_attempt()
            },
            final(self).spec_state() == old(self).spec_state(),
            final(self).spec_running() == old(self).spec_running(),
            final(self).spec_config() == old(self).spec_config(),
            final(self).spec_account_state() == old(self).spec_account_state(),
    {
        if self.running && self.attempt < u32::MAX {
            self.attempt = self.attempt + 1;
        }
    }

    /// The supervisor has left its loop: unless it gave up, the state is
    /// disconnected.
    pub fn finish(&mut self)
        ensures
            final(self).spec_state() == if old(self).spec_state() == ConnectionState::Failed {
                ConnectionState::Failed
            } else {
                ConnectionState::Disconnected
            },
            !final(self).spec_running(),
            final(self).spec_config() == old(self).spec_config(),
            final(self).spec_account_state() == old(self).spec_account_state(),
    {
        match self.state {
            ConnectionState::Failed => {},
            _ => {
                self.state = ConnectionState::Disconnected;
            },
        }
        self.running = false;
    }

    /// Asks the supervisor to stop: it no longer runs and the state is
    /// disconnected.
    pub fn disconnect(&mut self)
        ensures
            final(self).spec_state() == ConnectionState::Disconnected,
            !final(self).spec_running(),
            final(self).spec_config() == old(self).spec_config(),
            final(self).spec_account_state() == old(self).spec_account_state(),
    {
        self.running = false;
        self.state = ConnectionState::Disconnected;
    }

    /// Handles a message of the venue against the account state of this
    /// supervisor.
    pub fn receive(&mut self, msg: BinanceWebSocketMessage, now: Timestamp) -> (r: Result<
        Vec<WebSocketEvent>,
        AppError,
    >)
        ensures
            final(self).spec_state() == old(self).spec_state(),
            final(self).spec_running() == old(self).spec_running(),
            final(self).spec_attempt() == old(self).spec_attempt(),
            final(self).spec_config() == old(self).spec_config(),
            handled(msg, old(self).spec_account_state(), final(self).spec_account_state(), now, r),
    {
        handle_message(msg, &mut self.account_state, now)
    }

    /// Handles what a text frame held against the account state of this
    /// supervisor: a frame with an unknown event tag is passed over.
    pub fn receive_tagged(
        &mut self,
        kind: MessageKind,
        body: Option<BinanceWebSocketMessage>,
        now: Timestamp,
    ) -> (r: Result<Vec<WebSocketEvent>, AppError>)
        ensures
            final(self).spec_state() == old(self).spec_state(),
            final(self).spec_running() == old(self).spec_running(),
            final(self).spec_attempt() == old(self).spec_attempt(),
            final(self).spec_config() == old(self).spec_config(),
            handled_tagged(
                kind,
                body,
                old(self).spec_account_state(),
                final(self).spec_account_state(),
                now,
                r,
            ),
    {
        handle_tagged(kind, body, &mut self.account_state, now)
    }
}

} // verus!
