//! The market data model: timeframes, sides, order kinds and states, candles,
//! orders, trades and the values derived from them.

use crate::decimal::{decimal_difference, decimal_sum, Decimal};
use crate::text::same_text;
use crate::time::Timestamp;
use vstd::prelude::*;

verus! {

/// A trading market identifier, such as `BTC/USDT`.
pub type Pair = String;

/// The width of a candle, drawn from a fixed set.
#[derive(Clone, Copy, Debug, PartialEq, Eq, Structural, Hash)]
pub enum Timeframe {
    /// Candles of `1m`.
    OneMinute,
    /// Candles of `3m`.
    ThreeMinutes,
    /// Candles of `5m`.
    FiveMinutes,
    /// Candles of `15m`.
    FifteenMinutes,
    /// Candles of `30m`.
    ThirtyMinutes,
    /// Candles of `1h`.
    OneHour,
    /// Candles of `2h`.
    TwoHours,
    /// Candles of `4h`.
    FourHours,
    /// Candles of `6h`.
    SixHours,
    /// Candles of `8h`.
    EightHours,
    /// Candles of `12h`.
    TwelveHours,
    /// Candles of `1d`.
    OneDay,
    /// Candles of `3d`.
    ThreeDays,
    /// Candles of `1w`.
    OneWeek,
    /// Candles of `1M`.
    OneMonth,
}

impl Timeframe {
    /// The tag of the timeframe, as venues and the store write it.
    pub open spec fn spec_tag(self) -> Seq<char> {
        match self {
            Timeframe::OneMinute => "1m"@,
            Timeframe::ThreeMinutes => "3m"@,
            Timeframe::FiveMinutes => "5m"@,
            Timeframe::FifteenMinutes => "15m"@,
            Timeframe::ThirtyMinutes => "30m"@,
            Timeframe::OneHour => "1h"@,
            Timeframe::TwoHours => "2h"@,
            Timeframe::FourHours => "4h"@,
            Timeframe::SixHours => "6h"@,
            Timeframe::EightHours => "8h"@,
            Timeframe::TwelveHours => "12h"@,
            Timeframe::OneDay => "1d"@,
            Timeframe::ThreeDays => "3d"@,
            Timeframe::OneWeek => "1w"@,
            Timeframe::OneMonth => "1M"@,
        }
    }

    /// The tag of the timeframe, as venues and the store write it.
    pub fn as_str(&self) -> (r: &'static str)
        ensures
            r@ == self.spec_tag(),
            Timeframe::spec_parse(r@) == Some(*self),
    {
        proof {
            lemma_timeframe_tag_round_trip(*self);
        }
        match self {
            Timeframe::OneMinute => "1m",
            Timeframe::ThreeMinutes => "3m",
            Timeframe::FiveMinutes => "5m",
            Timeframe::FifteenMinutes => "15m",
            Timeframe::ThirtyMinutes => "30m",
            Timeframe::OneHour => "1h",
            Timeframe::TwoHours => "2h",
            Timeframe::FourHours => "4h",
            Timeframe::SixHours => "6h",
            Timeframe::EightHours => "8h",
            Timeframe::TwelveHours => "12h",
            Timeframe::OneDay => "1d",
            Timeframe::ThreeDays => "3d",
            Timeframe::OneWeek => "1w",
            Timeframe::OneMonth => "1M",
        }
    }

    /// The timeframe with the given tag; `None` for any other text. Tags are case sensitive: `1m` is a minute and `1M` a month.
    pub open spec fn spec_parse(text: Seq<char>) -> Option<Timeframe> {
        if text == "1m"@ {
            Some(Timeframe::OneMinute)
        } else if text == "3m"@ {
            Some(Timeframe::ThreeMinutes)
        } else if text == "5m"@ {
            Some(Timeframe::FiveMinutes)
        } else if text == "15m"@ {
            Some(Timeframe::FifteenMinutes)
        } else if text == "30m"@ {
            Some(Timeframe::ThirtyMinutes)
        } else if text == "1h"@ {
            Some(Timeframe::OneHour)
        } else if text == "2h"@ {
            Some(Timeframe::TwoHours)
        } else if text == "4h"@ {
            Some(Timeframe::FourHours)
        } else if text == "6h"@ {
            Some(Timeframe::SixHours)
        } else if text == "8h"@ {
            Some(Timeframe::EightHours)
        } else if text == "12h"@ {
            Some(Timeframe::TwelveHours)
        } else if text == "1d"@ {
            Some(Timeframe::OneDay)
        } else if text == "3d"@ {
            Some(Timeframe::ThreeDays)
        } else if text == "1w"@ {
            Some(Timeframe::OneWeek)
        } else if text == "1M"@ {
            Some(Timeframe::OneMonth)
        } else {
            None
        }
    }

    /// The timeframe with the given tag; `None` for any other text. Tags are case sensitive: `1m` is a minute and `1M` a month.
    pub fn parse(text: &str) -> (r: Option<Timeframe>)
        ensures
            r == Timeframe::spec_parse(text@),
    {
        if same_text(text, "1m") {
            Some(Timeframe::OneMinute)
        } else if same_text(text, "3m") {
            Some(Timeframe::ThreeMinutes)
        } else if same_text(text, "5m") {
            Some(Timeframe::FiveMinutes)
        } else if same_text(text, "15m") {
            Some(Timeframe::FifteenMinutes)
        } else if same_text(text, "30m") {
            Some(Timeframe::ThirtyMinutes)
        } else if same_text(text, "1h") {
            Some(Timeframe::OneHour)
        } else if same_text(text, "2h") {
            Some(Timeframe::TwoHours)
        } else if same_text(text, "4h") {
            Some(Timeframe::FourHours)
        } else if same_text(text, "6h") {
            Some(Timeframe::SixHours)
        } else if same_text(text, "8h") {
            Some(Timeframe::EightHours)
        } else if same_text(text, "12h") {
            Some(Timeframe::TwelveHours)
        } else if same_text(text, "1d") {
            Some(Timeframe::OneDay)
        } else if same_text(text, "3d") {
            Some(Timeframe::ThreeDays)
        } else if same_text(text, "1w") {
            Some(Timeframe::OneWeek)
        } else if same_text(text, "1M") {
            Some(Timeframe::OneMonth)
        } else {
            None
        }
    }

    /// The width of a candle in minutes; a month counts as thirty days.
    pub open spec fn spec_minutes(self) -> int {
        match self {
            Timeframe::OneMinute => 1,
            Timeframe::ThreeMinutes => 3,
            Timeframe::FiveMinutes => 5,
            Timeframe::FifteenMinutes => 15,
            Timeframe::ThirtyMinutes => 30,
            Timeframe::OneHour => 60,
            Timeframe::TwoHours => 120,
            Timeframe::FourHours => 240,
            Timeframe::SixHours => 360,
            Timeframe::EightHours => 480,
            Timeframe::TwelveHours => 720,
            Timeframe::OneDay => 1440,
            Timeframe::ThreeDays => 4320,
            Timeframe::OneWeek => 10080,
            Timeframe::OneMonth => 43200,
        }
    }

    /// The width of a candle in minutes; a month counts as thirty days.
    pub fn minutes(&self) -> (r: i64)
        ensures
            r == self.spec_minutes(),
            1 <= r <= 43200,
    {
        match self {
            Timeframe::OneMinute => 1,
            Timeframe::ThreeMinutes => 3,
            Timeframe::FiveMinutes => 5,
            Timeframe::FifteenMinutes => 15,
            Timeframe::ThirtyMinutes => 30,
            Timeframe::OneHour => 60,
            Timeframe::TwoHours => 120,
            Timeframe::FourHours => 240,
            Timeframe::SixHours => 360,
            Timeframe::EightHours => 480,
            Timeframe::TwelveHours => 720,
            Timeframe::OneDay => 1440,
            Timeframe::ThreeDays => 4320,
            Timeframe::OneWeek => 10080,
            Timeframe::OneMonth => 43200,
        }
    }

    /// The width of a candle in milliseconds.
    pub open spec fn spec_millis(self) -> int {
        self.spec_minutes() * 60_000
    }

    /// The width of a candle in milliseconds.
    pub fn millis(&self) -> (r: i64)
        ensures
            r == self.spec_millis(),
            60_000 <= r <= 2_592_000_000,
    {
        self.minutes() * 60_000
    }

    /// Whether an instant lies on a boundary of the timeframe: a whole
    /// number of candle widths from the epoch.
    pub open spec fn aligned(self, t: Timestamp) -> bool {
        (t.millis as int) % self.spec_millis() == 0
    }

    /// Whether an instant lies on a boundary of the timeframe.
    pub fn is_aligned(&self, t: Timestamp) -> (r: bool)
        ensures
            r == self.aligned(t),
    {
        let width: i128 = self.millis() as i128;
        let m: i128 = t.millis as i128;
        if m >= 0 {
            m % width == 0
        } else {
            proof {
                lemma_mod_zero_of_negation(m as int, width as int);
            }
            (-m) % width == 0
        }
    }

    /// The instant at which a candle that opens at `open_time` closes: one
    /// candle width later. `None` where that is past the range of `i64`.
    pub fn close_time(&self, open_time: Timestamp) -> (r: Option<Timestamp>)
        ensures
            r is Some <==> open_time.millis + self.spec_millis() <= i64::MAX,
            r matches Some(t) ==> t.millis == open_time.millis + self.spec_millis(),
    {
        open_time.checked_add_millis(self.millis())
    }
}

/// A number is a multiple of `d` exactly when its negation is.
pub proof fn lemma_mod_zero_of_negation(x: int, d: int)
    requires
        d > 0,
    ensures
        (x % d == 0) == ((-x) % d == 0),
{
    if x % d == 0 {
        vstd::arithmetic::div_mod::lemma_fundamental_div_mod(x, d);
        vstd::arithmetic::div_mod::lemma_mod_multiples_basic(-(x / d), d);
        assert(-x == (-(x / d)) * d) by (nonlinear_arith)
            requires
                x == d * (x / d),
        ;
    }
    if (-x) % d == 0 {
        vstd::arithmetic::div_mod::lemma_fundamental_div_mod(-x, d);
        vstd::arithmetic::div_mod::lemma_mod_multiples_basic(-((-x) / d), d);
        assert(x == (-((-x) / d)) * d) by (nonlinear_arith)
            requires
                -x == d * ((-x) / d),
        ;
    }
}

/// Every timeframe is read back from its own tag.
pub proof fn lemma_timeframe_tag_round_trip(x: Timeframe)
    ensures
        Timeframe::spec_parse(x.spec_tag()) == Some(x),
{
    reveal_strlit("12h");
    assert("12h"@.len() == 3 && "12h"@[0] == '1' && "12h"@[1] == '2' && "12h"@[2] == 'h');
    reveal_strlit("15m");
    assert("15m"@.len() == 3 && "15m"@[0] == '1' && "15m"@[1] == '5' && "15m"@[2] == 'm');
    reveal_strlit("1M");
    assert("1M"@.len() == 2 && "1M"@[0] == '1' && "1M"@[1] == 'M');
    reveal_strlit("1d");
    assert("1d"@.len() == 2 && "1d"@[0] == '1' && "1d"@[1] == 'd');
    reveal_strlit("1h");
    assert("1h"@.len() == 2 && "1h"@[0] == '1' && "1h"@[1] == 'h');
    reveal_strlit("1m");
    assert("1m"@.len() == 2 && "1m"@[0] == '1' && "1m"@[1] == 'm');
    reveal_strlit("1w");
    assert("1w"@.len() == 2 && "1w"@[0] == '1' && "1w"@[1] == 'w');
    reveal_strlit("2h");
    assert("2h"@.len() == 2 && "2h"@[0] == '2' && "2h"@[1] == 'h');
    reveal_strlit("30m");
    assert("30m"@.len() == 3 && "30m"@[0] == '3' && "30m"@[1] == '0' && "30m"@[2] == 'm');
    reveal_strlit("3d");
    assert("3d"@.len() == 2 && "3d"@[0] == '3' && "3d"@[1] == 'd');
    reveal_strlit("3m");
    assert("3m"@.len() == 2 && "3m"@[0] == '3' && "3m"@[1] == 'm');
    reveal_strlit("4h");
    assert("4h"@.len() == 2 && "4h"@[0] == '4' && "4h"@[1] == 'h');
    reveal_strlit("5m");
    assert("5m"@.len() == 2 && "5m"@[0] == '5' && "5m"@[1] == 'm');
    reveal_strlit("6h");
    assert("6h"@.len() == 2 && "6h"@[0] == '6' && "6h"@[1] == 'h');
    reveal_strlit("8h");
    assert("8h"@.len() == 2 && "8h"@[0] == '8' && "8h"@[1] == 'h');
}

/// The direction of an order.
#[derive(Clone, Copy, Debug, PartialEq, Eq, Structural, Hash)]
pub enum TradeSide {
    /// Acquire the base asset.
    Buy,
    /// Give up the base asset.
    Sell,
}

impl TradeSide {
    /// The lowercase tag under which the side is stored.
    pub open spec fn spec_tag(self) -> Seq<char> {
        match self {
            TradeSide::Buy => "buy"@,
            TradeSide::Sell => "sell"@,
        }
    }

    /// The lowercase tag under which the side is stored.
    pub fn as_str(&self) -> (r: &'static str)
        ensures
            r@ == self.spec_tag(),
            TradeSide::spec_parse(r@) == Some(*self),
    {
        proof {
            lemma_side_tag_round_trip(*self);
        }
        match self {
            TradeSide::Buy => "buy",
            TradeSide::Sell => "sell",
        }
    }

    /// The name of the side in venue requests.
    pub open spec fn spec_venue_name(self) -> Seq<char> {
        match self {
            TradeSide::Buy => "BUY"@,
            TradeSide::Sell => "SELL"@,
        }
    }

    /// The name of the side in venue requests.
    pub fn venue_name(&self) -> (r: &'static str)
        ensures
            r@ == self.spec_venue_name(),
    {
        match self {
            TradeSide::Buy => "BUY",
            TradeSide::Sell => "SELL",
        }
    }

    /// The side with the given stored tag; `None` for any other text.
    pub open spec fn spec_parse(text: Seq<char>) -> Option<TradeSide> {
        if text == "buy"@ {
            Some(TradeSide::Buy)
        } else if text == "sell"@ {
            Some(TradeSide::Sell)
        } else {
            None
        }
    }

    /// The side with the given stored tag; `None` for any other text.
    pub fn parse(text: &str) -> (r: Option<TradeSide>)
        ensures
            r == TradeSide::spec_parse(text@),
    {
        if same_text(text, "buy") {
            Some(TradeSide::Buy)
        } else if same_text(text, "sell") {
            Some(TradeSide::Sell)
        } else {
            None
        }
    }

}

/// The kind of an order.
#[derive(Clone, Copy, Debug, PartialEq, Eq, Structural, Hash)]
pub enum OrderType {
    /// Execute at the best available price.
    Market,
    /// Execute at the given price or better.
    Limit,
    /// A limit order placed once a stop price is reached.
    StopLimit,
    /// A market order placed once a stop price is reached.
    StopMarket,
}

impl OrderType {
    /// The lowercase tag under which the kind is stored.
    pub open spec fn spec_tag(self) -> Seq<char> {
        match self {
            OrderType::Market => "market"@,
            OrderType::Limit => "limit"@,
            OrderType::StopLimit => "stoplimit"@,
            OrderType::StopMarket => "stopmarket"@,
        }
    }

    /// The lowercase tag under which the kind is stored.
    pub fn as_str(&self) -> (r: &'static str)
        ensures
            r@ == self.spec_tag(),
            OrderType::spec_parse(r@) == Some(*self),
    {
        proof {
            lemma_order_type_tag_round_trip(*self);
        }
        match self {
            OrderType::Market => "market",
            OrderType::Limit => "limit",
            OrderType::StopLimit => "stoplimit",
            OrderType::StopMarket => "stopmarket",
        }
    }

    /// The name of the kind in venue requests.
    pub open spec fn spec_venue_name(self) -> Seq<char> {
        match self {
            OrderType::Market => "MARKET"@,
            OrderType::Limit => "LIMIT"@,
            OrderType::StopLimit => "STOP_LOSS_LIMIT"@,
            OrderType::StopMarket => "STOP_LOSS"@,
        }
    }

    /// The name of the kind in venue requests.
    pub fn venue_name(&self) -> (r: &'static str)
        ensures
            r@ == self.spec_venue_name(),
            OrderType::spec_from_venue_name(r@) == *self,
    {
        proof {
            lemma_order_type_venue_round_trip(*self);
        }
        match self {
            OrderType::Market => "MARKET",
            OrderType::Limit => "LIMIT",
            OrderType::StopLimit => "STOP_LOSS_LIMIT",
            OrderType::StopMarket => "STOP_LOSS",
        }
    }

    /// The kind with the given stored tag; `None` for any other text.
    pub open spec fn spec_parse(text: Seq<char>) -> Option<OrderType> {
        if text == "market"@ {
            Some(OrderType::Market)
        } else if text == "limit"@ {
            Some(OrderType::Limit)
        } else if text == "stoplimit"@ {
            Some(OrderType::StopLimit)
        } else if text == "stopmarket"@ {
            Some(OrderType::StopMarket)
        } else {
            None
        }
    }

    /// The kind with the given stored tag; `None` for any other text.
    pub fn parse(text: &str) -> (r: Option<OrderType>)
        ensures
            r == OrderType::spec_parse(text@),
    {
        if same_text(text, "market") {
            Some(OrderType::Market)
        } else if same_text(text, "limit") {
            Some(OrderType::Limit)
        } else if same_text(text, "stoplimit") {
            Some(OrderType::StopLimit)
        } else if same_text(text, "stopmarket") {
            Some(OrderType::StopMarket)
        } else {
            None
        }
    }

    /// The kind a venue response names; an unknown name counts as a market order.
    pub open spec fn spec_from_venue_name(text: Seq<char>) -> OrderType {
        if text == "MARKET"@ {
            OrderType::Market
        } else if text == "LIMIT"@ {
            OrderType::Limit
        } else if text == "STOP_LOSS_LIMIT"@ {
            OrderType::StopLimit
        } else if text == "STOP_LOSS"@ {
            OrderType::StopMarket
        } else {
            OrderType::Market
        }
    }

    /// The kind a venue response names; an unknown name counts as a market order.
    pub fn from_venue_name(text: &str) -> (r: OrderType)
        ensures
            r == OrderType::spec_from_venue_name(text@),
    {
        if same_text(text, "MARKET") {
            OrderType::Market
        } else if same_text(text, "LIMIT") {
            OrderType::Limit
        } else if same_text(text, "STOP_LOSS_LIMIT") {
            OrderType::StopLimit
        } else if same_text(text, "STOP_LOSS") {
            OrderType::StopMarket
        } else {
            OrderType::Market
        }
    }

}

/// The state of an order at the venue.
#[derive(Clone, Copy, Debug, PartialEq, Eq, Structural, Hash)]
pub enum OrderStatus {
    /// Accepted by the venue, nothing filled.
    New,
    /// Part of the amount is filled.
    PartiallyFilled,
    /// The whole amount is filled.
    Filled,
    /// Withdrawn before it was filled.
    Canceled,
    /// Refused by the venue.
    Rejected,
    /// Timed out at the venue.
    Expired,
}

impl OrderStatus {
    /// The lowercase tag under which the state is stored.
    pub open spec fn spec_tag(self) -> Seq<char> {
        match self {
            OrderStatus::New => "new"@,
            OrderStatus::PartiallyFilled => "partiallyfilled"@,
            OrderStatus::Filled => "filled"@,
            OrderStatus::Canceled => "canceled"@,
            OrderStatus::Rejected => "rejected"@,
            OrderStatus::Expired => "expired"@,
        }
    }

    /// The lowercase tag under which the state is stored.
    pub fn as_str(&self) -> (r: &'static str)
        ensures
            r@ == self.spec_tag(),
            OrderStatus::spec_parse(r@) == Some(*self),
    {
        proof {
            lemma_order_status_tag_round_trip(*self);
        }
        match self {
            OrderStatus::New => "new",
            OrderStatus::PartiallyFilled => "partiallyfilled",
            OrderStatus::Filled => "filled",
            OrderStatus::Canceled => "canceled",
            OrderStatus::Rejected => "rejected",
            OrderStatus::Expired => "expired",
        }
    }

    /// The name of the state in venue messages.
    pub open spec fn spec_venue_name(self) -> Seq<char> {
        match self {
            OrderStatus::New => "NEW"@,
            OrderStatus::PartiallyFilled => "PARTIALLY_FILLED"@,
            OrderStatus::Filled => "FILLED"@,
            OrderStatus::Canceled => "CANCELED"@,
            OrderStatus::Rejected => "REJECTED"@,
            OrderStatus::Expired => "EXPIRED"@,
        }
    }

    /// The name of the state in venue messages.
    pub fn venue_name(&self) -> (r: &'static str)
        ensures
            r@ == self.spec_venue_name(),
            OrderStatus::spec_from_venue_name(r@) == *self,
    {
        proof {
            lemma_order_status_venue_round_trip(*self);
        }
        match self {
            OrderStatus::New => "NEW",
            OrderStatus::PartiallyFilled => "PARTIALLY_FILLED",
            OrderStatus::Filled => "FILLED",
            OrderStatus::Canceled => "CANCELED",
            OrderStatus::Rejected => "REJECTED",
            OrderStatus::Expired => "EXPIRED",
        }
    }

    /// The state with the given stored tag; `None` for any other text.
    pub open spec fn spec_parse(text: Seq<char>) -> Option<OrderStatus> {
        if text == "new"@ {
            Some(OrderStatus::New)
        } else if text == "partiallyfilled"@ {
            Some(OrderStatus::PartiallyFilled)
        } else if text == "filled"@ {
            Some(OrderStatus::Filled)
        } else if text == "canceled"@ {
            Some(OrderStatus::Canceled)
        } else if text == "rejected"@ {
            Some(OrderStatus::Rejected)
        } else if text == "expired"@ {
            Some(OrderStatus::Expired)
        } else {
            None
        }
    }

    /// The state with the given stored tag; `None` for any other text.
    pub fn parse(text: &str) -> (r: Option<OrderStatus>)
        ensures
            r == OrderStatus::spec_parse(text@),
    {
        if same_text(text, "new") {
            Some(OrderStatus::New)
        } else if same_text(text, "partiallyfilled") {
            Some(OrderStatus::PartiallyFilled)
        } else if same_text(text, "filled") {
            Some(OrderStatus::Filled)
        } else if same_text(text, "canceled") {
            Some(OrderStatus::Canceled)
        } else if same_text(text, "rejected") {
            Some(OrderStatus::Rejected)
        } else if same_text(text, "expired") {
            Some(OrderStatus::Expired)
        } else {
            None
        }
    }

    /// The state a venue message names; an unknown name counts as new.
    pub open spec fn spec_from_venue_name(text: Seq<char>) -> OrderStatus {
        if text == "NEW"@ {
            OrderStatus::New
        } else if text == "PARTIALLY_FILLED"@ {
            OrderStatus::PartiallyFilled
        } else if text == "FILLED"@ {
            OrderStatus::Filled
        } else if text == "CANCELED"@ {
            OrderStatus::Canceled
        } else if text == "REJECTED"@ {
            OrderStatus::Rejected
        } else if text == "EXPIRED"@ {
            OrderStatus::Expired
        } else {
            OrderStatus::New
        }
    }

    /// The state a venue message names; an unknown name counts as new.
    pub fn from_venue_name(text: &str) -> (r: OrderStatus)
        ensures
            r == OrderStatus::spec_from_venue_name(text@),
    {
        if same_text(text, "NEW") {
            OrderStatus::New
        } else if same_text(text, "PARTIALLY_FILLED") {
            OrderStatus::PartiallyFilled
        } else if same_text(text, "FILLED") {
            OrderStatus::Filled
        } else if same_text(text, "CANCELED") {
            OrderStatus::Canceled
        } else if same_text(text, "REJECTED") {
            OrderStatus::Rejected
        } else if same_text(text, "EXPIRED") {
            OrderStatus::Expired
        } else {
            OrderStatus::New
        }
    }

    /// Whether the state is final: filled, canceled, rejected or expired.
    pub open spec fn terminal(self) -> bool {
        self == OrderStatus::Filled || self == OrderStatus::Canceled || self
            == OrderStatus::Rejected || self == OrderStatus::Expired
    }

    /// Whether the state is final: filled, canceled, rejected or expired.
    pub fn is_terminal(&self) -> (r: bool)
        ensures
            r == self.terminal(),
    {
        match self {
            OrderStatus::New => false,
            OrderStatus::PartiallyFilled => false,
            OrderStatus::Filled => true,
            OrderStatus::Canceled => true,
            OrderStatus::Rejected => true,
            OrderStatus::Expired => true,
        }
    }

    /// Whether an order in state `self` may next be reported in state
    /// `next`. A final state admits no change; a new order may go anywhere; a
    /// partially filled one cannot become new again.
    pub open spec fn admits(self, next: OrderStatus) -> bool {
        if self.terminal() {
            next == self
        } else if self == OrderStatus::PartiallyFilled {
            next != OrderStatus::New
        } else {
            true
        }
    }

    /// Whether an order in state `self` may next be reported in state `next`.
    pub fn can_become(&self, next: OrderStatus) -> (r: bool)
        ensures
            r == self.admits(next),
    {
        match self {
            OrderStatus::New => true,
            OrderStatus::PartiallyFilled => match next {
                OrderStatus::New => false,
                _ => true,
            },
            OrderStatus::Filled => match next {
                OrderStatus::Filled => true,
                _ => false,
            },
            OrderStatus::Canceled => match next {
                OrderStatus::Canceled => true,
                _ => false,
            },
            OrderStatus::Rejected => match next {
                OrderStatus::Rejected => true,
                _ => false,
            },
            OrderStatus::Expired => match next {
                OrderStatus::Expired => true,
                _ => false,
            },
        }
    }

    /// The state after the venue reports `next`: `next` where the change is
    /// admitted, the state unchanged where it is not.
    pub fn advance(self, next: OrderStatus) -> (r: OrderStatus)
        ensures
            r == if self.admits(next) {
                next
            } else {
                self
            },
            self.terminal() ==> r == self,
    {
        if self.can_become(next) {
            next
        } else {
            self
        }
    }
}

/// Why a trade was closed.
#[derive(Clone, Copy, Debug, PartialEq, Eq, Structural, Hash)]
pub enum ExitType {
    /// The strategy asked to sell.
    Signal,
    /// The stop-loss price was reached.
    StopLoss,
    /// The take-profit price was reached.
    TakeProfit,
    /// A stop-loss order at the venue was filled.
    StopLossOnExchange,
    /// The operator closed the trade.
    ForceExit,
    /// The trade was closed to limit damage.
    EmergencyExit,
    /// A reason of the strategy's own.
    Custom,
}

impl ExitType {
    /// The tag under which the reason is stored.
    pub open spec fn spec_tag(self) -> Seq<char> {
        match self {
            ExitType::Signal => "signal"@,
            ExitType::StopLoss => "stop_loss"@,
            ExitType::TakeProfit => "take_profit"@,
            ExitType::StopLossOnExchange => "stop_loss_on_exchange"@,
            ExitType::ForceExit => "force_exit"@,
            ExitType::EmergencyExit => "emergency_exit"@,
            ExitType::Custom => "custom"@,
        }
    }

    /// The tag under which the reason is stored.
    pub fn as_str(&self) -> (r: &'static str)
        ensures
            r@ == self.spec_tag(),
            ExitType::spec_parse(r@) == Some(*self),
    {
        proof {
            lemma_exit_tag_round_trip(*self);
        }
        match self {
            ExitType::Signal => "signal",
            ExitType::StopLoss => "stop_loss",
            ExitType::TakeProfit => "take_profit",
            ExitType::StopLossOnExchange => "stop_loss_on_exchange",
            ExitType::ForceExit => "force_exit",
            ExitType::EmergencyExit => "emergency_exit",
            ExitType::Custom => "custom",
        }
    }

    /// The reason with the given stored tag; `None` for any other text.
    pub open spec fn spec_parse(text: Seq<char>) -> Option<ExitType> {
        if text == "signal"@ {
            Some(ExitType::Signal)
        } else if text == "stop_loss"@ {
            Some(ExitType::StopLoss)
        } else if text == "take_profit"@ {
            Some(ExitType::TakeProfit)
        } else if text == "stop_loss_on_exchange"@ {
            Some(ExitType::StopLossOnExchange)
        } else if text == "force_exit"@ {
            Some(ExitType::ForceExit)
        } else if text == "emergency_exit"@ {
            Some(ExitType::EmergencyExit)
        } else if text == "custom"@ {
            Some(ExitType::Custom)
        } else {
            None
        }
    }

    /// The reason with the given stored tag; `None` for any other text.
    pub fn parse(text: &str) -> (r: Option<ExitType>)
        ensures
            r == ExitType::spec_parse(text@),
    {
        if same_text(text, "signal") {
            Some(ExitType::Signal)
        } else if same_text(text, "stop_loss") {
            Some(ExitType::StopLoss)
        } else if same_text(text, "take_profit") {
            Some(ExitType::TakeProfit)
        } else if same_text(text, "stop_loss_on_exchange") {
            Some(ExitType::StopLossOnExchange)
        } else if same_text(text, "force_exit") {
            Some(ExitType::ForceExit)
        } else if same_text(text, "emergency_exit") {
            Some(ExitType::EmergencyExit)
        } else if same_text(text, "custom") {
            Some(ExitType::Custom)
        } else {
            None
        }
    }

    /// Whether the trade was closed by a stop-loss, here or at the venue.
    pub open spec fn stoploss(self) -> bool {
        self == ExitType::StopLoss || self == ExitType::StopLossOnExchange
    }

    /// Whether the trade was closed by a stop-loss, here or at the venue.
    pub fn is_stoploss(&self) -> (r: bool)
        ensures
            r == self.stoploss(),
    {
        match self {
            ExitType::StopLoss => true,
            ExitType::StopLossOnExchange => true,
            _ => false,
        }
    }
}

/// A final order state admits no further change: whatever the venue reports
/// next, an order that is filled, canceled, rejected or expired stays so.
pub proof fn lemma_terminal_status_is_final(status: OrderStatus, next: OrderStatus)
    requires
        status.terminal(),
    ensures
        status.admits(next) <==> next == status,
        (if status.admits(next) {
            next
        } else {
            status
        }) == status,
{
}

/// Every exit reason is read back from its own tag.
pub proof fn lemma_exit_tag_round_trip(x: ExitType)
    ensures
        ExitType::spec_parse(x.spec_tag()) == Some(x),
{
    reveal_strlit("custom");
    assert("custom"@.len() == 6 && "custom"@[0] == 'c' && "custom"@[1] == 'u' && "custom"@[2] == 's' && "custom"@[3] == 't' && "custom"@[4] == 'o' && "custom"@[5] == 'm');
    reveal_strlit("emergency_exit");
    assert("emergency_exit"@.len() == 14 && "emergency_exit"@[0] == 'e' && "emergency_exit"@[1] == 'm' && "emergency_exit"@[2] == 'e' && "emergency_exit"@[3] == 'r' && "emergency_exit"@[4] == 'g' && "emergency_exit"@[5] == 'e' && "emergency_exit"@[6] == 'n' && "emergency_exit"@[7] == 'c' && "emergency_exit"@[8] == 'y' && "emergency_exit"@[9] == '_' && "emergency_exit"@[10] == 'e' && "emergency_exit"@[11] == 'x' && "emergency_exit"@[12] == 'i' && "emergency_exit"@[13] == 't');
    reveal_strlit("force_exit");
    assert("force_exit"@.len() == 10 && "force_exit"@[0] == 'f' && "force_exit"@[1] == 'o' && "force_exit"@[2] == 'r' && "force_exit"@[3] == 'c' && "force_exit"@[4] == 'e' && "force_exit"@[5] == '_' && "force_exit"@[6] == 'e' && "force_exit"@[7] == 'x' && "force_exit"@[8] == 'i' && "force_exit"@[9] == 't');
    reveal_strlit("signal");
    assert("signal"@.len() == 6 && "signal"@[0] == 's' && "signal"@[1] == 'i' && "signal"@[2] == 'g' && "signal"@[3] == 'n' && "signal"@[4] == 'a' && "signal"@[5] == 'l');
    reveal_strlit("stop_loss");
    assert("stop_loss"@.len() == 9 && "stop_loss"@[0] == 's' && "stop_loss"@[1] == 't' && "stop_loss"@[2] == 'o' && "stop_loss"@[3] == 'p' && "stop_loss"@[4] == '_' && "stop_loss"@[5] == 'l' && "stop_loss"@[6] == 'o' && "stop_loss"@[7] == 's' && "stop_loss"@[8] == 's');
    reveal_strlit("stop_loss_on_exchange");
    assert("stop_loss_on_exchange"@.len() == 21 && "stop_loss_on_exchange"@[0] == 's' && "stop_loss_on_exchange"@[1] == 't' && "stop_loss_on_exchange"@[2] == 'o' && "stop_loss_on_exchange"@[3] == 'p' && "stop_loss_on_exchange"@[4] == '_' && "stop_loss_on_exchange"@[5] == 'l' && "stop_loss_on_exchange"@[6] == 'o' && "stop_loss_on_exchange"@[7] == 's' && "stop_loss_on_exchange"@[8] == 's' && "stop_loss_on_exchange"@[9] == '_' && "stop_loss_on_exchange"@[10] == 'o' && "stop_loss_on_exchange"@[11] == 'n' && "stop_loss_on_exchange"@[12] == '_' && "stop_loss_on_exchange"@[13] == 'e' && "stop_loss_on_exchange"@[14] == 'x' && "stop_loss_on_exchange"@[15] == 'c' && "stop_loss_on_exchange"@[16] == 'h' && "stop_loss_on_exchange"@[17] == 'a' && "stop_loss_on_exchange"@[18] == 'n' && "stop_loss_on_exchange"@[19] == 'g' && "stop_loss_on_exchange"@[20] == 'e');
    reveal_strlit("take_profit");
    assert("take_profit"@.len() == 11 && "take_profit"@[0] == 't' && "take_profit"@[1] == 'a' && "take_profit"@[2] == 'k' && "take_profit"@[3] == 'e' && "take_profit"@[4] == '_' && "take_profit"@[5] == 'p' && "take_profit"@[6] == 'r' && "take_profit"@[7] == 'o' && "take_profit"@[8] == 'f' && "take_profit"@[9] == 'i' && "take_profit"@[10] == 't');
}

/// Every side is read back from its own tag.
pub proof fn lemma_side_tag_round_trip(x: TradeSide)
    ensures
        TradeSide::spec_parse(x.spec_tag()) == Some(x),
{
    reveal_strlit("buy");
    assert("buy"@.len() == 3 && "buy"@[0] == 'b' && "buy"@[1] == 'u' && "buy"@[2] == 'y');
    reveal_strlit("sell");
    assert("sell"@.len() == 4 && "sell"@[0] == 's' && "sell"@[1] == 'e' && "sell"@[2] == 'l' && "sell"@[3] == 'l');
}

/// Every order kind is read back from its own tag.
pub proof fn lemma_order_type_tag_round_trip(x: OrderType)
    ensures
        OrderType::spec_parse(x.spec_tag()) == Some(x),
{
    reveal_strlit("limit");
    assert("limit"@.len() == 5 && "limit"@[0] == 'l' && "limit"@[1] == 'i' && "limit"@[2] == 'm' && "limit"@[3] == 'i' && "limit"@[4] == 't');
    reveal_strlit("market");
    assert("market"@.len() == 6 && "market"@[0] == 'm' && "market"@[1] == 'a' && "market"@[2] == 'r' && "market"@[3] == 'k' && "market"@[4] == 'e' && "market"@[5] == 't');
    reveal_strlit("stoplimit");
    assert("stoplimit"@.len() == 9 && "stoplimit"@[0] == 's' && "stoplimit"@[1] == 't' && "stoplimit"@[2] == 'o' && "stoplimit"@[3] == 'p' && "stoplimit"@[4] == 'l' && "stoplimit"@[5] == 'i' && "stoplimit"@[6] == 'm' && "stoplimit"@[7] == 'i' && "stoplimit"@[8] == 't');
    reveal_strlit("stopmarket");
    assert("stopmarket"@.len() == 10 && "stopmarket"@[0] == 's' && "stopmarket"@[1] == 't' && "stopmarket"@[2] == 'o' && "stopmarket"@[3] == 'p' && "stopmarket"@[4] == 'm' && "stopmarket"@[5] == 'a' && "stopmarket"@[6] == 'r' && "stopmarket"@[7] == 'k' && "stopmarket"@[8] == 'e' && "stopmarket"@[9] == 't');
}

/// Every order state is read back from its own tag.
pub proof fn lemma_order_status_tag_round_trip(x: OrderStatus)
    ensures
        OrderStatus::spec_parse(x.spec_tag()) == Some(x),
{
    reveal_strlit("canceled");
    assert("canceled"@.len() == 8 && "canceled"@[0] == 'c' && "canceled"@[1] == 'a' && "canceled"@[2] == 'n' && "canceled"@[3] == 'c' && "canceled"@[4] == 'e' && "canceled"@[5] == 'l' && "canceled"@[6] == 'e' && "canceled"@[7] == 'd');
    reveal_strlit("expired");
    assert("expired"@.len() == 7 && "expired"@[0] == 'e' && "expired"@[1] == 'x' && "expired"@[2] == 'p' && "expired"@[3] == 'i' && "expired"@[4] == 'r' && "expired"@[5] == 'e' && "expired"@[6] == 'd');
    reveal_strlit("filled");
    assert("filled"@.len() == 6 && "filled"@[0] == 'f' && "filled"@[1] == 'i' && "filled"@[2] == 'l' && "filled"@[3] == 'l' && "filled"@[4] == 'e' && "filled"@[5] == 'd');
    reveal_strlit("new");
    assert("new"@.len() == 3 && "new"@[0] == 'n' && "new"@[1] == 'e' && "new"@[2] == 'w');
    reveal_strlit("partiallyfilled");
    assert("partiallyfilled"@.len() == 15 && "partiallyfilled"@[0] == 'p' && "partiallyfilled"@[1] == 'a' && "partiallyfilled"@[2] == 'r' && "partiallyfilled"@[3] == 't' && "partiallyfilled"@[4] == 'i' && "partiallyfilled"@[5] == 'a' && "partiallyfilled"@[6] == 'l' && "partiallyfilled"@[7] == 'l' && "partiallyfilled"@[8] == 'y' && "partiallyfilled"@[9] == 'f' && "partiallyfilled"@[10] == 'i' && "partiallyfilled"@[11] == 'l' && "partiallyfilled"@[12] == 'l' && "partiallyfilled"@[13] == 'e' && "partiallyfilled"@[14] == 'd');
    reveal_strlit("rejected");
    assert("rejected"@.len() == 8 && "rejected"@[0] == 'r' && "rejected"@[1] == 'e' && "rejected"@[2] == 'j' && "rejected"@[3] == 'e' && "rejected"@[4] == 'c' && "rejected"@[5] == 't' && "rejected"@[6] == 'e' && "rejected"@[7] == 'd');
}

/// Every order kind is read back from the name a venue gives it.
pub proof fn lemma_order_type_venue_round_trip(x: OrderType)
    ensures
        OrderType::spec_from_venue_name(x.spec_venue_name()) == x,
{
    reveal_strlit("LIMIT");
    assert("LIMIT"@.len() == 5 && "LIMIT"@[0] == 'L' && "LIMIT"@[1] == 'I' && "LIMIT"@[2] == 'M' && "LIMIT"@[3] == 'I' && "LIMIT"@[4] == 'T');
    reveal_strlit("MARKET");
    assert("MARKET"@.len() == 6 && "MARKET"@[0] == 'M' && "MARKET"@[1] == 'A' && "MARKET"@[2] == 'R' && "MARKET"@[3] == 'K' && "MARKET"@[4] == 'E' && "MARKET"@[5] == 'T');
    reveal_strlit("STOP_LOSS");
    assert("STOP_LOSS"@.len() == 9 && "STOP_LOSS"@[0] == 'S' && "STOP_LOSS"@[1] == 'T' && "STOP_LOSS"@[2] == 'O' && "STOP_LOSS"@[3] == 'P' && "STOP_LOSS"@[4] == '_' && "STOP_LOSS"@[5] == 'L' && "STOP_LOSS"@[6] == 'O' && "STOP_LOSS"@[7] == 'S' && "STOP_LOSS"@[8] == 'S');
    reveal_strlit("STOP_LOSS_LIMIT");
    assert("STOP_LOSS_LIMIT"@.len() == 15 && "STOP_LOSS_LIMIT"@[0] == 'S' && "STOP_LOSS_LIMIT"@[1] == 'T' && "STOP_LOSS_LIMIT"@[2] == 'O' && "STOP_LOSS_LIMIT"@[3] == 'P' && "STOP_LOSS_LIMIT"@[4] == '_' && "STOP_LOSS_LIMIT"@[5] == 'L' && "STOP_LOSS_LIMIT"@[6] == 'O' && "STOP_LOSS_LIMIT"@[7] == 'S' && "STOP_LOSS_LIMIT"@[8] == 'S' && "STOP_LOSS_LIMIT"@[9] == '_' && "STOP_LOSS_LIMIT"@[10] == 'L' && "STOP_LOSS_LIMIT"@[11] == 'I' && "STOP_LOSS_LIMIT"@[12] == 'M' && "STOP_LOSS_LIMIT"@[13] == 'I' && "STOP_LOSS_LIMIT"@[14] == 'T');
}

/// Every order state is read back from the name a venue gives it.
pub proof fn lemma_order_status_venue_round_trip(x: OrderStatus)
    ensures
        OrderStatus::spec_from_venue_name(x.spec_venue_name()) == x,
{
    reveal_strlit("CANCELED");
    assert("CANCELED"@.len() == 8 && "CANCELED"@[0] == 'C' && "CANCELED"@[1] == 'A' && "CANCELED"@[2] == 'N' && "CANCELED"@[3] == 'C' && "CANCELED"@[4] == 'E' && "CANCELED"@[5] == 'L' && "CANCELED"@[6] == 'E' && "CANCELED"@[7] == 'D');
    reveal_strlit("EXPIRED");
    assert("EXPIRED"@.len() == 7 && "EXPIRED"@[0] == 'E' && "EXPIRED"@[1] == 'X' && "EXPIRED"@[2] == 'P' && "EXPIRED"@[3] == 'I' && "EXPIRED"@[4] == 'R' && "EXPIRED"@[5] == 'E' && "EXPIRED"@[6] == 'D');
    reveal_strlit("FILLED");
    assert("FILLED"@.len() == 6 && "FILLED"@[0] == 'F' && "FILLED"@[1] == 'I' && "FILLED"@[2] == 'L' && "FILLED"@[3] == 'L' && "FILLED"@[4] == 'E' && "FILLED"@[5] == 'D');
    reveal_strlit("NEW");
    assert("NEW"@.len() == 3 && "NEW"@[0] == 'N' && "NEW"@[1] == 'E' && "NEW"@[2] == 'W');
    reveal_strlit("PARTIALLY_FILLED");
    assert("PARTIALLY_FILLED"@.len() == 16 && "PARTIALLY_FILLED"@[0] == 'P' && "PARTIALLY_FILLED"@[1] == 'A' && "PARTIALLY_FILLED"@[2] == 'R' && "PARTIALLY_FILLED"@[3] == 'T' && "PARTIALLY_FILLED"@[4] == 'I' && "PARTIALLY_FILLED"@[5] == 'A' && "PARTIALLY_FILLED"@[6] == 'L' && "PARTIALLY_FILLED"@[7] == 'L' && "PARTIALLY_FILLED"@[8] == 'Y' && "PARTIALLY_FILLED"@[9] == '_' && "PARTIALLY_FILLED"@[10] == 'F' && "PARTIALLY_FILLED"@[11] == 'I' && "PARTIALLY_FILLED"@[12] == 'L' && "PARTIALLY_FILLED"@[13] == 'L' && "PARTIALLY_FILLED"@[14] == 'E' && "PARTIALLY_FILLED"@[15] == 'D');
    reveal_strlit("REJECTED");
    assert("REJECTED"@.len() == 8 && "REJECTED"@[0] == 'R' && "REJECTED"@[1] == 'E' && "REJECTED"@[2] == 'J' && "REJECTED"@[3] == 'E' && "REJECTED"@[4] == 'C' && "REJECTED"@[5] == 'T' && "REJECTED"@[6] == 'E' && "REJECTED"@[7] == 'D');
}

/// What a signal asks for.
#[derive(Clone, Copy, Debug, PartialEq, Eq, Structural, Hash)]
pub enum SignalType {
    /// An entry signal.
    Buy,
    /// An exit signal.
    Sell,
}

/// The lifecycle state of the coordinator.
#[derive(Clone, Copy, Debug, PartialEq, Eq, Structural, Hash)]
pub enum BotStatus {
    /// Not trading; the state before a start and after a stop.
    Stopped,
    /// Trading.
    Running,
    /// Started, but skipping iterations.
    Paused,
    /// Halted by a failure.
    Error,
}

/// One candle: open, high, low, close and volume over one timeframe width.
#[derive(Clone, Copy, Debug, PartialEq)]
pub struct OHLCV {
    /// The instant at which the candle opens.
    pub timestamp: Timestamp,
    pub open: Decimal,
    pub high: Decimal,
    pub low: Decimal,
    pub close: Decimal,
    pub volume: Decimal,
}

impl OHLCV {
    /// The low is not above the open or the close, and the high not below
    /// them.
    pub open spec fn consistent(self) -> bool {
        &&& self.low.units() <= self.open.units()
        &&& self.low.units() <= self.close.units()
        &&& self.high.units() >= self.open.units()
        &&& self.high.units() >= self.close.units()
    }

    /// Whether the low is not above the open or the close, and the high not
    /// below them.
    pub fn is_consistent(&self) -> (r: bool)
        ensures
            r == self.consistent(),
    {
        self.low.le(&self.open) && self.low.le(&self.close) && self.high.ge(&self.open)
            && self.high.ge(&self.close)
    }
}

/// The last price and the 24-hour statistics of a market.
#[derive(Clone, Debug, PartialEq)]
pub struct Ticker {
    pub symbol: String,
    pub price: Decimal,
    pub volume_24h: Decimal,
    pub change_24h: Decimal,
}

/// What a [`Ticker`] holds, as plain values.
pub struct TickerView {
    pub symbol: Seq<char>,
    pub price: Decimal,
    pub volume_24h: Decimal,
    pub change_24h: Decimal,
}

impl View for Ticker {
    type V = TickerView;

    open spec fn view(&self) -> TickerView {
        TickerView {
            symbol: self.symbol@,
            price: self.price,
            volume_24h: self.volume_24h,
            change_24h: self.change_24h,
        }
    }
}

/// The holdings of one asset: `total` is what is `free` plus what is `used`.
#[derive(Clone, Debug, PartialEq)]
pub struct Balance {
    pub currency: String,
    pub total: Decimal,
    pub free: Decimal,
    pub used: Decimal,
}

/// What a [`Balance`] holds, as plain values.
pub struct BalanceView {
    pub currency: Seq<char>,
    pub total: Decimal,
    pub free: Decimal,
    pub used: Decimal,
}

impl View for Balance {
    type V = BalanceView;

    open spec fn view(&self) -> BalanceView {
        BalanceView {
            currency: self.currency@,
            total: self.total,
            free: self.free,
            used: self.used,
        }
    }
}

/// An order as the venue reports it.
#[derive(Clone, Debug, PartialEq)]
pub struct Order {
    /// The identifier the venue assigned.
    pub id: String,
    pub symbol: String,
    pub side: TradeSide,
    pub order_type: OrderType,
    pub status: OrderStatus,
    /// The limit price; a market order may have none.
    pub price: Option<Decimal>,
    pub amount: Decimal,
    pub filled: Decimal,
    /// What is left to fill: `amount - filled`.
    pub remaining: Decimal,
    pub fee: Option<Decimal>,
    pub created_at: Timestamp,
    pub updated_at: Timestamp,
}

/// What an [`Order`] holds, as plain values.
pub struct OrderView {
    pub id: Seq<char>,
    pub symbol: Seq<char>,
    pub side: TradeSide,
    pub order_type: OrderType,
    pub status: OrderStatus,
    pub price: Option<Decimal>,
    pub amount: Decimal,
    pub filled: Decimal,
    pub remaining: Decimal,
    pub fee: Option<Decimal>,
    pub created_at: Timestamp,
    pub updated_at: Timestamp,
}

impl View for Order {
    type V = OrderView;

    open spec fn view(&self) -> OrderView {
        OrderView {
            id: self.id@,
            symbol: self.symbol@,
            side: self.side,
            order_type: self.order_type,
            status: self.status,
            price: self.price,
            amount: self.amount,
            filled: self.filled,
            remaining: self.remaining,
            fee: self.fee,
            created_at: self.created_at,
            updated_at: self.updated_at,
        }
    }
}

impl OrderView {
    /// The same order in another state.
    pub open spec fn with_status(self, status: OrderStatus) -> OrderView {
        OrderView {
            id: self.id,
            symbol: self.symbol,
            side: self.side,
            order_type: self.order_type,
            status,
            price: self.price,
            amount: self.amount,
            filled: self.filled,
            remaining: self.remaining,
            fee: self.fee,
            created_at: self.created_at,
            updated_at: self.updated_at,
        }
    }
}

impl BalanceView {
    /// The total is what is free plus what is used.
    pub open spec fn consistent(self) -> bool {
        decimal_sum(self.free, self.used) matches Some(sum) && sum.units() == self.total.units()
    }
}

impl Balance {
    /// Whether the total is what is free plus what is used.
    pub fn is_consistent(&self) -> (r: bool)
        ensures
            r == self@.consistent(),
    {
        match self.free.checked_add(self.used) {
            Some(sum) => sum.same_number(&self.total),
            None => false,
        }
    }
}

impl OrderView {
    /// No more is filled than was asked for, what remains is the amount less
    /// the filled quantity, and nothing remains exactly of a filled order.
    pub open spec fn consistent(self) -> bool {
        &&& self.filled.units() <= self.amount.units()
        &&& decimal_difference(self.amount, self.filled) matches Some(rest) && rest.units()
            == self.remaining.units()
        &&& self.remaining.units() == 0 <==> self.status == OrderStatus::Filled
    }
}

impl Order {
    /// Whether no more is filled than was asked for, what remains is the
    /// amount less the filled quantity, and nothing remains exactly of a
    /// filled order.
    pub fn is_consistent(&self) -> (r: bool)
        ensures
            r == self@.consistent(),
    {
        let rest_matches: bool = match self.amount.checked_sub(self.filled) {
            Some(rest) => rest.same_number(&self.remaining),
            None => false,
        };
        let filled_status: bool = match self.status {
            OrderStatus::Filled => true,
            _ => false,
        };
        self.filled.le(&self.amount) && rest_matches && self.remaining.is_zero() == filled_status
    }
}

/// A position in one market, from entry to exit.
#[derive(Debug, PartialEq)]
pub struct Trade {
    /// The identifier minted when the trade was opened.
    pub id: u128,
    pub pair: Pair,
    pub is_open: bool,
    /// The name of the venue on which the trade was opened.
    pub exchange: String,
    pub open_rate: Decimal,
    pub open_date: Timestamp,
    pub close_rate: Option<Decimal>,
    pub close_date: Option<Timestamp>,
    /// The quantity held, in units of the base asset.
    pub amount: Decimal,
    /// The quantity committed on entry, in units of the quote asset.
    pub stake_amount: Decimal,
    pub strategy: String,
    pub timeframe: Timeframe,
    pub stop_loss: Option<Decimal>,
    pub take_profit: Option<Decimal>,
    pub exit_reason: Option<ExitType>,
    pub profit_abs: Option<Decimal>,
    pub profit_ratio: Option<Decimal>,
}

/// What a [`Trade`] holds, as plain values.
pub struct TradeView {
    pub id: u128,
    pub pair: Seq<char>,
    pub is_open: bool,
    pub exchange: Seq<char>,
    pub open_rate: Decimal,
    pub open_date: Timestamp,
    pub close_rate: Option<Decimal>,
    pub close_date: Option<Timestamp>,
    pub amount: Decimal,
    pub stake_amount: Decimal,
    pub strategy: Seq<char>,
    pub timeframe: Timeframe,
    pub stop_loss: Option<Decimal>,
    pub take_profit: Option<Decimal>,
    pub exit_reason: Option<ExitType>,
    pub profit_abs: Option<Decimal>,
    pub profit_ratio: Option<Decimal>,
}

impl View for Trade {
    type V = TradeView;

    open spec fn view(&self) -> TradeView {
        TradeView {
            id: self.id,
            pair: self.pair@,
            is_open: self.is_open,
            exchange: self.exchange@,
            open_rate: self.open_rate,
            open_date: self.open_date,
            close_rate: self.close_rate,
            close_date: self.close_date,
            amount: self.amount,
            stake_amount: self.stake_amount,
            strategy: self.strategy@,
            timeframe: self.timeframe,
            stop_loss: self.stop_loss,
            take_profit: self.take_profit,
            exit_reason: self.exit_reason,
            profit_abs: self.profit_abs,
            profit_ratio: self.profit_ratio,
        }
    }
}

impl Clone for Trade {
    fn clone(&self) -> (r: Trade)
        ensures
            r@ == self@,
    {
        Trade {
            id: self.id,
            pair: self.pair.clone(),
            is_open: self.is_open,
            exchange: self.exchange.clone(),
            open_rate: self.open_rate,
            open_date: self.open_date,
            close_rate: self.close_rate,
            close_date: self.close_date,
            amount: self.amount,
            stake_amount: self.stake_amount,
            strategy: self.strategy.clone(),
            timeframe: self.timeframe,
            stop_loss: self.stop_loss,
            take_profit: self.take_profit,
            exit_reason: self.exit_reason,
            profit_abs: self.profit_abs,
            profit_ratio: self.profit_ratio,
        }
    }
}

impl TradeView {
    /// The close rate, the close date and the exit reason are set together,
    /// and only on a trade that is no longer open.
    pub open spec fn lifecycle_consistent(self) -> bool {
        &&& self.is_open ==> self.close_rate is None && self.close_date is None
            && self.exit_reason is None
        &&& self.close_rate is Some <==> self.close_date is Some
        &&& self.close_date is Some <==> self.exit_reason is Some
    }

    /// Whether the trade was closed at or after the start of a lookback
    /// window of `minutes` minutes that ends at `now`.
    pub open spec fn closed_within(self, now: Timestamp, minutes: int) -> bool {
        self.close_date matches Some(d) && d.millis >= now.millis - minutes * 60_000
    }
}

impl Trade {
    /// Whether the close rate, the close date and the exit reason are set
    /// together, and only on a trade that is no longer open.
    pub fn is_lifecycle_consistent(&self) -> (r: bool)
        ensures
            r == self@.lifecycle_consistent(),
    {
        let closed_fields: bool = self.close_rate.is_some();
        if self.is_open && (self.close_rate.is_some() || self.close_date.is_some()
            || self.exit_reason.is_some()) {
            false
        } else {
            self.close_date.is_some() == closed_fields && self.exit_reason.is_some()
                == closed_fields
        }
    }

    /// Whether the trade was closed at or after the start of a lookback
    /// window of `minutes` minutes that ends at `now`.
    pub fn is_closed_within(&self, now: &Timestamp, minutes: i64) -> (r: bool)
        ensures
            r == self@.closed_within(*now, minutes as int),
    {
        match self.close_date {
            Some(d) => d.within_minutes_before(now, minutes),
            None => false,
        }
    }
}

/// What is asked of the venue when an order is submitted.
#[derive(Clone, Debug, PartialEq)]
pub struct OrderRequest {
    pub symbol: String,
    pub side: TradeSide,
    pub order_type: OrderType,
    pub amount: Decimal,
    /// The limit price; required for a limit order.
    pub price: Option<Decimal>,
}

/// What an [`OrderRequest`] holds, as plain values.
pub struct OrderRequestView {
    pub symbol: Seq<char>,
    pub side: TradeSide,
    pub order_type: OrderType,
    pub amount: Decimal,
    pub price: Option<Decimal>,
}

impl View for OrderRequest {
    type V = OrderRequestView;

    open spec fn view(&self) -> OrderRequestView {
        OrderRequestView {
            symbol: self.symbol@,
            side: self.side,
            order_type: self.order_type,
            amount: self.amount,
            price: self.price,
        }
    }
}

/// An open position at the venue.
#[derive(Clone, Debug, PartialEq)]
pub struct Position {
    pub symbol: String,
    pub side: TradeSide,
    pub size: Decimal,
    pub entry_price: Decimal,
    pub mark_price: Decimal,
    pub unrealized_pnl: Decimal,
    pub percentage: Decimal,
}

/// What a [`Position`] holds, as plain values.
pub struct PositionView {
    pub symbol: Seq<char>,
    pub side: TradeSide,
    pub size: Decimal,
    pub entry_price: Decimal,
    pub mark_price: Decimal,
    pub unrealized_pnl: Decimal,
    pub percentage: Decimal,
}

impl View for Position {
    type V = PositionView;

    open spec fn view(&self) -> PositionView {
        PositionView {
            symbol: self.symbol@,
            side: self.side,
            size: self.size,
            entry_price: self.entry_price,
            mark_price: self.mark_price,
            unrealized_pnl: self.unrealized_pnl,
            percentage: self.percentage,
        }
    }
}

/// A signal of a strategy: the candle of the window it refers to, what it
/// asks for, and a strength between zero and one.
#[derive(Clone, Copy, Debug, PartialEq)]
pub struct Signal {
    pub index: usize,
    pub kind: SignalType,
    pub strength: Decimal,
}

impl Signal {
    /// The strength lies between zero and one.
    pub open spec fn strength_in_range(self) -> bool {
        0 <= self.strength.units() <= Decimal::spec_new(1, 0).units()
    }

    /// A signal for candle `index`, `None` where the strength does not lie
    /// between zero and one.
    pub fn new(index: usize, kind: SignalType, strength: Decimal) -> (r: Option<Signal>)
        ensures
            r is Some <==> 0 <= strength.units() <= Decimal::spec_new(1, 0).units(),
            r matches Some(s) ==> s.index == index && s.kind == kind && s.strength == strength,
    {
        let one = Decimal::from_i64(1);
        if !strength.is_negative() && strength.le(&one) {
            Some(Signal { index, kind, strength })
        } else {
            None
        }
    }
}

/// The summary of a historical replay.
#[derive(Clone, Debug, PartialEq)]
pub struct BacktestResult {
    pub strategy: String,
    pub pair: String,
    pub timeframe: Timeframe,
    pub start_date: Timestamp,
    pub end_date: Timestamp,
    pub total_trades: usize,
    pub winning_trades: usize,
    pub losing_trades: usize,
    pub win_rate: Decimal,
    pub total_profit: Decimal,
    pub max_drawdown: Decimal,
    pub sharpe_ratio: Decimal,
    pub profit_factor: Decimal,
    pub avg_profit: Decimal,
    pub avg_loss: Decimal,
    pub trades: Vec<Trade>,
}

/// A snapshot of the coordinator for display.
#[derive(Clone, Debug, PartialEq)]
pub struct BotState {
    pub status: BotStatus,
    pub open_trades: Vec<Trade>,
    pub closed_trades: Vec<Trade>,
    pub balance: Balance,
    pub last_update: Timestamp,
    pub current_pair: Option<String>,
}

/// Aggregates over the trade log, recomputed on demand.
#[derive(Clone, Copy, Debug, PartialEq)]
pub struct DashboardStats {
    pub total_profit: Decimal,
    /// The share of trades with a positive profit ratio, in percent.
    pub win_rate: Decimal,
    pub open_trades: usize,
    /// The largest fall of the balance from an earlier peak, in percent.
    pub max_drawdown: Decimal,
    pub total_balance: Decimal,
}

/// One point of an equity curve.
#[derive(Clone, Debug, PartialEq)]
pub struct EquityPoint {
    pub time: String,
    pub value: Decimal,
}

} // verus!
