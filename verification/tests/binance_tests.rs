use freqtrade_rs::decimal::Decimal;
use freqtrade_rs::error::AppError;
use freqtrade_rs::exchange::binance::{
    balance_from_response, decimal_or_zero, endpoint_url, instant_from_venue, klines_from_response,
    klines_query, order_from_create_response, order_from_response, order_id_query, order_query, orders_from_response,
    positions_from_response, sign_query, signature, symbol_query, ticker_from_response, venue_error, RawAsset,
    BinanceExchange, RawKline, RawOrder, RawPosition, RawTicker,
};
use freqtrade_rs::types::{OrderRequest, OrderStatus, OrderType, TradeSide};

fn dec(text: &str) -> Decimal {
    Decimal::parse(text).unwrap()
}

fn response() -> RawOrder {
    RawOrder {
        symbol: "BTCUSDT".to_string(),
        order_id: 28,
        transact_time: 1507725176595,
        orig_qty: "1.00000000".to_string(),
        executed_qty: "1.00000000".to_string(),
        status: "FILLED".to_string(),
        side: "BUY".to_string(),
        order_type: "MARKET".to_string(),
        price: "0.00000000".to_string(),
        update_time: 1507725176999,
    }
}

#[test]
fn test_create_order_success() {
    let order_req = OrderRequest {
        symbol: "BTCUSDT".to_string(),
        side: TradeSide::Buy,
        order_type: OrderType::Market,
        amount: dec("1.0"),
        price: None,
    };
    assert_eq!(order_query(&order_req).unwrap(), "symbol=BTCUSDT&side=BUY&type=MARKET&quantity=1.0");

    let exchange = BinanceExchange::new("test_key".to_string(), "test_secret".to_string())
        .with_base_url("http://127.0.0.1:1234".to_string());
    let result = exchange.create_order(&order_req, Ok(response()));
    assert_eq!(result, order_from_create_response(&order_req, &response()));

    assert!(result.is_ok());
    let order = result.unwrap();
    assert_eq!(order.symbol, "BTCUSDT");
    assert_eq!(order.status, OrderStatus::Filled);
    assert_eq!(order.amount, dec("1.0"));
    assert_eq!(order.id, "28");
    assert_eq!(order.filled, dec("1"));
    assert_eq!(order.remaining, Decimal::zero());
    assert_eq!(order.price, None);
    assert_eq!(order.created_at.millis, 1507725176000);
    assert_eq!(order.updated_at, order.created_at);
}

#[test]
fn the_signature_is_the_hmac_in_hexadecimal() {
    assert_eq!(
        signature("key", "The quick brown fox jumps over the lazy dog"),
        "f7bc83f430538424b13298e6aa6fb143ef4d59a14946175997479dbc2d1a3cd8"
    );
    assert_eq!(
        signature("", ""),
        "b613679a0814d9ec772f95d778c35fc5ff1697c493715653c6c712144292c5ad"
    );
}

#[test]
fn a_signed_query_carries_timestamp_and_signature() {
    let signed = sign_query("symbol=BTCUSDT", 1_700_000_000_123, "secret");
    let stamped = "symbol=BTCUSDT&timestamp=1700000000123";
    assert_eq!(signed, format!("{}&signature={}", stamped, signature("secret", stamped)));
    let bare = sign_query("", 5, "secret");
    assert_eq!(bare, format!("timestamp=5&signature={}", signature("secret", "timestamp=5")));
    assert_eq!(signed.len(), stamped.len() + "&signature=".len() + 64);
}

#[test]
fn queries_and_addresses() {
    assert_eq!(
        endpoint_url("https://api.binance.com", "/api/v3/order", "a=b"),
        "https://api.binance.com/api/v3/order?a=b"
    );
    assert_eq!(order_id_query("28"), "orderId=28");
    assert_eq!(symbol_query("BTCUSDT"), "symbol=BTCUSDT");
    assert_eq!(venue_error("Binance error: ", "-1013"), AppError::Exchange("Binance error: -1013".to_string()));
}

#[test]
fn the_query_of_an_order() {
    let mut request = OrderRequest {
        symbol: "ETHUSDT".to_string(),
        side: TradeSide::Sell,
        order_type: OrderType::Limit,
        amount: dec("0.50"),
        price: Some(dec("2000.10")),
    };
    assert_eq!(
        order_query(&request).unwrap(),
        "symbol=ETHUSDT&side=SELL&type=LIMIT&quantity=0.50&price=2000.10&timeInForce=GTC"
    );
    request.order_type = OrderType::Market;
    assert_eq!(order_query(&request).unwrap(), "symbol=ETHUSDT&side=SELL&type=MARKET&quantity=0.50");
    request.order_type = OrderType::StopLimit;
    assert_eq!(
        order_query(&request).unwrap(),
        "symbol=ETHUSDT&side=SELL&type=STOP_LOSS_LIMIT&quantity=0.50&price=2000.10&timeInForce=GTC"
    );
    request.price = None;
    request.order_type = OrderType::StopMarket;
    assert_eq!(order_query(&request).unwrap(), "symbol=ETHUSDT&side=SELL&type=STOP_LOSS&quantity=0.50");
    request.order_type = OrderType::Limit;
    assert_eq!(order_query(&request), Err(AppError::Exchange("Limit order requires price".to_string())));
}

#[test]
fn a_fetched_order_takes_everything_from_the_response() {
    let mut raw = response();
    raw.side = "SELL".to_string();
    raw.order_type = "STOP_LOSS".to_string();
    raw.status = "PARTIALLY_FILLED".to_string();
    raw.orig_qty = "2.5".to_string();
    raw.executed_qty = "1".to_string();
    raw.price = "101.5".to_string();
    let order = order_from_response(&raw).unwrap();
    assert_eq!(order.side, TradeSide::Sell);
    assert_eq!(order.order_type, OrderType::StopMarket);
    assert_eq!(order.status, OrderStatus::PartiallyFilled);
    assert_eq!(order.remaining, dec("1.5"));
    assert_eq!(order.filled.checked_add(order.remaining).unwrap(), order.amount);
    assert_eq!(order.price, Some(dec("101.5")));
    assert_eq!(order.created_at.millis, 1507725176000);
    assert_eq!(order.updated_at.millis, 1507725176000);

    raw.side = "??".to_string();
    raw.order_type = "??".to_string();
    raw.status = "??".to_string();
    raw.price = "??".to_string();
    let odd = order_from_response(&raw).unwrap();
    assert_eq!(odd.side, TradeSide::Buy);
    assert_eq!(odd.order_type, OrderType::Market);
    assert_eq!(odd.status, OrderStatus::New);
    assert_eq!(odd.price, Some(Decimal::zero()));

    let orders = orders_from_response(&vec![response(), raw]).unwrap();
    assert_eq!(orders.len(), 2);
    assert_eq!(orders[0].status, OrderStatus::Filled);
    assert_eq!(orders[1].status, OrderStatus::New);
}

#[test]
fn statuses_and_kinds_by_their_venue_names() {
    let statuses = [
        (OrderStatus::New, "NEW"),
        (OrderStatus::PartiallyFilled, "PARTIALLY_FILLED"),
        (OrderStatus::Filled, "FILLED"),
        (OrderStatus::Canceled, "CANCELED"),
        (OrderStatus::Rejected, "REJECTED"),
        (OrderStatus::Expired, "EXPIRED"),
    ];
    for (status, name) in statuses {
        assert_eq!(status.venue_name(), name);
        assert_eq!(OrderStatus::from_venue_name(name), status);
        assert_eq!(OrderStatus::parse(status.as_str()), Some(status));
    }
    let kinds = [
        (OrderType::Market, "MARKET"),
        (OrderType::Limit, "LIMIT"),
        (OrderType::StopLimit, "STOP_LOSS_LIMIT"),
        (OrderType::StopMarket, "STOP_LOSS"),
    ];
    for (kind, name) in kinds {
        assert_eq!(kind.venue_name(), name);
        assert_eq!(OrderType::from_venue_name(name), kind);
        assert_eq!(OrderType::parse(kind.as_str()), Some(kind));
    }
    assert_eq!(TradeSide::Buy.venue_name(), "BUY");
    assert_eq!(TradeSide::Sell.venue_name(), "SELL");
    assert_eq!(TradeSide::parse("sell"), Some(TradeSide::Sell));
    assert_eq!(TradeSide::parse("SELL"), None);
}

#[test]
fn a_final_order_status_does_not_change() {
    for last in [OrderStatus::Filled, OrderStatus::Canceled, OrderStatus::Rejected, OrderStatus::Expired] {
        assert!(last.is_terminal());
        for next in [OrderStatus::New, OrderStatus::PartiallyFilled, OrderStatus::Filled, OrderStatus::Canceled] {
            assert_eq!(last.advance(next), last);
            assert_eq!(last.can_become(next), next == last);
        }
    }
    assert!(!OrderStatus::New.is_terminal());
    assert_eq!(OrderStatus::New.advance(OrderStatus::PartiallyFilled), OrderStatus::PartiallyFilled);
    assert_eq!(OrderStatus::PartiallyFilled.advance(OrderStatus::Filled), OrderStatus::Filled);
    assert_eq!(OrderStatus::PartiallyFilled.advance(OrderStatus::New), OrderStatus::PartiallyFilled);
}

#[test]
fn numbers_and_instants_of_the_venue() {
    assert_eq!(decimal_or_zero("1.50"), dec("1.5"));
    assert_eq!(decimal_or_zero("n/a"), Decimal::zero());
    assert_eq!(instant_from_venue(1507725176595).millis, 1507725176000);
    assert_eq!(instant_from_venue(999).millis, 0);
    assert_eq!(instant_from_venue(-5).millis, 0);
}

#[test]
fn the_ticker_of_a_response() {
    let ticker = ticker_from_response(&RawTicker {
        symbol: Some("BTCUSDT".to_string()),
        last_price: Some("42000.5".to_string()),
        volume: None,
        price_change_percent: Some("bad".to_string()),
    });
    assert_eq!(ticker.symbol, "BTCUSDT");
    assert_eq!(ticker.price, dec("42000.5"));
    assert_eq!(ticker.volume_24h, Decimal::zero());
    assert_eq!(ticker.change_24h, Decimal::zero());
}

#[test]
fn candles_of_a_response_come_in_its_order() {
    let full = |t: i64, close: &str| RawKline {
        open_time: Some(t),
        open: Some("1".to_string()),
        high: Some("3".to_string()),
        low: Some("0.5".to_string()),
        close: Some(close.to_string()),
        volume: Some("10".to_string()),
    };
    let mut broken = full(2000, "9");
    broken.low = None;
    let candles = klines_from_response(&vec![full(1000, "2"), broken, full(3500, "2.5")]);
    assert_eq!(candles.len(), 2);
    assert_eq!(candles[0].timestamp.millis, 1000);
    assert_eq!(candles[0].close, dec("2"));
    assert_eq!(candles[1].timestamp.millis, 3000);
    assert_eq!(candles[1].close, dec("2.5"));
    assert!(candles[0].is_consistent());
}

#[test]
fn the_balance_is_free_plus_used() {
    let assets = vec![
        RawAsset { asset: "BTC".to_string(), free: "1.5".to_string(), locked: "0.5".to_string() },
        RawAsset { asset: "USDT".to_string(), free: "1000.0".to_string(), locked: "500.0".to_string() },
        RawAsset { asset: "USDT".to_string(), free: "1".to_string(), locked: "1".to_string() },
    ];
    let balance = balance_from_response(&assets, "USDT").unwrap();
    assert_eq!(balance.currency, "USDT");
    assert_eq!(balance.free, dec("1000"));
    assert_eq!(balance.used, dec("500"));
    assert_eq!(balance.total, dec("1500"));
    let none = balance_from_response(&assets, "ETH").unwrap();
    assert_eq!(none.currency, "ETH");
    assert_eq!(none.total, Decimal::zero());
}

#[test]
fn positions_are_the_entries_with_a_notional() {
    let entry = |symbol: &str, notional: &str| RawPosition {
        symbol: Some(symbol.to_string()),
        notional: Some(notional.to_string()),
        entry_price: Some("10".to_string()),
        mark_price: Some("11".to_string()),
        unrealized_profit: Some("1".to_string()),
    };
    let positions = positions_from_response(&vec![entry("A", "5"), entry("B", "0.00"), entry("C", "-2.5")]);
    assert_eq!(positions.len(), 2);
    assert_eq!(positions[0].symbol, "A");
    assert_eq!(positions[0].side, TradeSide::Buy);
    assert_eq!(positions[0].size, dec("5"));
    assert_eq!(positions[1].symbol, "C");
    assert_eq!(positions[1].side, TradeSide::Sell);
    assert_eq!(positions[1].size, dec("2.5"));
    assert_eq!(positions[1].entry_price, dec("10"));
    assert_eq!(positions[1].percentage, Decimal::zero());
}

#[test]
fn an_order_is_settled_by_the_reply_of_the_venue() {
    let exchange = BinanceExchange::new("key".to_string(), "secret".to_string());
    let market = OrderRequest {
        symbol: "BTCUSDT".to_string(),
        side: TradeSide::Sell,
        order_type: OrderType::Market,
        amount: dec("2"),
        price: None,
    };
    assert_eq!(
        exchange.create_order(&market, Err("{\"code\":-2010,\"msg\":\"insufficient balance\"}".to_string())),
        Err(AppError::Exchange("Binance error: {\"code\":-2010,\"msg\":\"insufficient balance\"}".to_string()))
    );

    let mut partly = response();
    partly.orig_qty = "2.00".to_string();
    partly.executed_qty = "0.75".to_string();
    partly.status = "PARTIALLY_FILLED".to_string();
    let order = exchange.create_order(&market, Ok(partly)).unwrap();
    assert_eq!(order.side, TradeSide::Sell);
    assert_eq!(order.order_type, OrderType::Market);
    assert_eq!(order.amount, dec("2"));
    assert_eq!(order.filled, dec("0.75"));
    assert_eq!(order.remaining, dec("1.25"));
    assert_eq!(order.filled.checked_add(order.remaining).unwrap(), order.amount);
    assert!(order.filled.le(&order.amount));
    assert_eq!(order.status, OrderStatus::PartiallyFilled);

    let limit = OrderRequest { order_type: OrderType::Limit, ..market.clone() };
    let refused = Err(AppError::Exchange("Limit order requires price".to_string()));
    assert_eq!(exchange.create_order(&limit, Ok(response())), refused);
    assert_eq!(exchange.create_order(&limit, Err("x".to_string())), refused);
    let priced = OrderRequest { price: Some(dec("50000")), ..limit };
    let order = exchange.create_order(&priced, Ok(response())).unwrap();
    assert_eq!(order.price, Some(dec("50000")));
    assert_eq!(order.order_type, OrderType::Limit);
}

#[test]
fn the_query_for_candles() {
    assert_eq!(klines_query("BTCUSDT", "1h", 500), "symbol=BTCUSDT&interval=1h&limit=500");
    assert_eq!(klines_query("ETHUSDT", "15m", 0), "symbol=ETHUSDT&interval=15m&limit=0");
    assert_eq!(klines_query("", "", 7), "symbol=&interval=&limit=7");
}
