use freqtrade_rs::decimal::Decimal;
use freqtrade_rs::error::AppError;
use freqtrade_rs::exchange::websocket::{
    apply_balance, build_url, frame_action, handle_message, handle_tagged, message_kind, note_status,
    order_from_update, parse_order_status, parse_order_type, parse_trade_side, AccountState, AttemptPlan,
    BalanceUpdate, BinanceStream, BinanceWebSocketMessage, ConnectionState, Frame, FrameAction, MessageKind,
    OrderMark, OrderUpdateParams, WebSocketConfig, WebSocketEvent, WebSocketManager, EVENT_CHANNEL_CAPACITY,
};
use freqtrade_rs::time::Timestamp;
use freqtrade_rs::types::{Balance, OrderStatus, OrderType, TradeSide};

fn dec(text: &str) -> Decimal {
    Decimal::parse(text).unwrap()
}

fn execution_report() -> OrderUpdateParams {
    OrderUpdateParams {
        s: "BTCUSDT".to_string(),
        c: "abc123".to_string(),
        S: "BUY".to_string(),
        o: "LIMIT".to_string(),
        f: "GTC".to_string(),
        p: "50000".to_string(),
        q: "1.0".to_string(),
        P: "49000".to_string(),
        d: "xyz789".to_string(),
        x: "NEW".to_string(),
        X: "FILLED".to_string(),
        i: 12345,
        l: "1.0".to_string(),
        n: "0.001".to_string(),
        N: Some("BTC".to_string()),
        T: 1234567890000,
        t: 67890,
        v: "NONE".to_string(),
        z: "1.0".to_string(),
    }
}

#[test]
fn test_websocket_manager_creation() {
    let config = WebSocketConfig::default();
    let manager = WebSocketManager::new(config);
    assert_eq!(manager.get_state(), ConnectionState::Disconnected);
}

#[test]
fn test_websocket_config_defaults() {
    let config = WebSocketConfig::default();
    assert_eq!(config.endpoint, "wss://stream.binance.com:9443/ws");
    assert_eq!(config.connect_timeout_secs, 10);
    assert_eq!(config.reconnect_delay_secs, 5);
    assert_eq!(config.max_reconnect_attempts, 5);
}

#[test]
fn test_build_account_url() {
    let config = WebSocketConfig { api_key: Some("dummy_key".to_string()), ..Default::default() };
    let streams = vec![BinanceStream::Account];
    let url = build_url(&config, &streams).unwrap();
    assert!(url.to_string().contains("streams="));
    assert!(url.to_string().contains("%21account%40balance"));
}

#[test]
fn test_build_order_url() {
    let config = WebSocketConfig { api_key: Some("dummy_key".to_string()), ..Default::default() };
    let streams = vec![BinanceStream::Orders];
    let url = build_url(&config, &streams).unwrap();
    assert!(url.to_string().contains("streams="));
    assert!(url.to_string().contains("%21order%400"));
}

#[test]
fn test_build_kline_url() {
    let config = WebSocketConfig::default();
    let streams = vec![BinanceStream::Kline("BTCUSDT".to_string(), "1m".to_string())];
    let url = build_url(&config, &streams).unwrap();
    assert!(url.to_string().contains("streams="));
    assert!(url.to_string().contains("btcusdt%40kline_1m"));
}

#[test]
fn test_parse_balance_update_message() {
    assert_eq!(message_kind("outboundAccountPosition"), MessageKind::AccountUpdate);
    let msg = BinanceWebSocketMessage::AccountUpdate {
        u: 1234567890,
        B: vec![
            BalanceUpdate { a: "BTC".to_string(), f: "1.5".to_string(), l: "0.5".to_string() },
            BalanceUpdate { a: "USDT".to_string(), f: "1000.0".to_string(), l: "500.0".to_string() },
        ],
    };
    match &msg {
        BinanceWebSocketMessage::AccountUpdate { u, B } => {
            assert_eq!(*u, 1234567890);
            assert_eq!(B.len(), 2);
            assert_eq!(B[0].a, "BTC");
            assert_eq!(B[1].a, "USDT");
        }
        _ => panic!("Expected AccountUpdate"),
    }
    let mut account = AccountState::default();
    let now = Timestamp::from_millis(5);
    let events = handle_message(msg, &mut account, now).unwrap();
    assert_eq!(events.len(), 2);
    match &events[1] {
        WebSocketEvent::BalanceUpdate(b) => {
            assert_eq!(b.currency, "USDT");
            assert_eq!(b.free, dec("1000"));
            assert_eq!(b.used, dec("500"));
            assert_eq!(b.total, dec("1500"));
        }
        _ => panic!("Expected BalanceUpdate"),
    }
    assert_eq!(account.balances.len(), 2);
    assert_eq!(account.balances[0].total, dec("2"));
    assert_eq!(account.last_update, Some(now));
}

#[test]
fn test_parse_order_update_message() {
    assert_eq!(message_kind("executionReport"), MessageKind::OrderUpdate);
    let msg = BinanceWebSocketMessage::OrderUpdate(Box::new(execution_report()));
    match &msg {
        BinanceWebSocketMessage::OrderUpdate(params) => {
            assert_eq!(params.s, "BTCUSDT");
            assert_eq!(params.X, "FILLED");
            assert_eq!(params.i, 12345);
        }
        _ => panic!("Expected OrderUpdate"),
    }
    let mut account = AccountState::default();
    let now = Timestamp::from_millis(1234567899999);
    let events = handle_message(msg, &mut account, now).unwrap();
    assert_eq!(events.len(), 1);
    match &events[0] {
        WebSocketEvent::OrderUpdate(order) => {
            assert_eq!(order.id, "12345");
            assert_eq!(order.symbol, "BTCUSDT");
            assert_eq!(order.side, TradeSide::Buy);
            assert_eq!(order.order_type, OrderType::Limit);
            assert_eq!(order.status, OrderStatus::Filled);
            assert_eq!(order.price, Some(dec("50000")));
            assert_eq!(order.amount, dec("1"));
            assert_eq!(order.filled, dec("1"));
            assert_eq!(order.remaining, Decimal::zero());
            assert_eq!(order.fee, Some(dec("0.001")));
            assert_eq!(order.created_at.millis, 1234567890000);
            assert_eq!(order.updated_at, now);
        }
        _ => panic!("Expected OrderUpdate"),
    }
    assert!(account.balances.is_empty());
    assert_eq!(account.last_update, None);
    assert_eq!(account.orders, vec![OrderMark { id: 12345, status: OrderStatus::Filled }]);
}

#[test]
fn test_parse_heartbeat_message() {
    assert_eq!(message_kind("ping"), MessageKind::Heartbeat);
    let msg = BinanceWebSocketMessage::Heartbeat { msg_type: None, timestamp: None };
    match &msg {
        BinanceWebSocketMessage::Heartbeat { msg_type, timestamp } => {
            assert!(msg_type.is_none());
            assert!(timestamp.is_none());
        }
        _ => panic!("Expected Heartbeat"),
    }
    let mut account = AccountState::default();
    assert_eq!(handle_message(msg, &mut account, Timestamp::from_millis(1)), Ok(Vec::new()));
    assert_eq!(account, AccountState::default());
}

#[test]
fn test_connection_state_transitions() {
    let config = WebSocketConfig::default();
    let manager = WebSocketManager::new(config);

    assert_eq!(manager.get_state(), ConnectionState::Disconnected);

    let mut manager2 = manager.clone();
    manager2.disconnect();
    assert_eq!(manager2.get_state(), ConnectionState::Disconnected);
}

#[test]
fn test_account_state_initial() {
    let config = WebSocketConfig::default();
    let manager = WebSocketManager::new(config);

    let state = manager.get_account_state();
    assert!(state.balances.is_empty());
    assert!(state.positions.is_empty());
    assert!(state.last_update.is_none());
}

#[test]
fn test_parse_order_status() {
    assert_eq!(parse_order_status("NEW"), OrderStatus::New);
    assert_eq!(parse_order_status("PARTIALLY_FILLED"), OrderStatus::PartiallyFilled);
    assert_eq!(parse_order_status("FILLED"), OrderStatus::Filled);
    assert_eq!(parse_order_status("CANCELED"), OrderStatus::Canceled);
    assert_eq!(parse_order_status("EXPIRED"), OrderStatus::Expired);
    assert_eq!(parse_order_status("REJECTED"), OrderStatus::Rejected);
    assert_eq!(parse_order_status("UNKNOWN"), OrderStatus::New);
}

#[test]
fn test_binance_stream_variants() {
    let streams = vec![
        BinanceStream::Account,
        BinanceStream::Orders,
        BinanceStream::AllOrders,
        BinanceStream::Trade,
        BinanceStream::Kline("BTCUSDT".to_string(), "1m".to_string()),
        BinanceStream::Ticker("ETHUSDT".to_string()),
        BinanceStream::Heartbeat,
    ];

    for stream in streams {
        let s: &'static str = stream.clone().name();
        assert!(!s.is_empty());
    }
}

#[test]
fn streams_by_their_descriptors() {
    assert_eq!(BinanceStream::Account.descriptor(), "!account@balance");
    assert_eq!(BinanceStream::Orders.descriptor(), "!order@0");
    assert_eq!(BinanceStream::AllOrders.descriptor(), "!allOrder@0");
    assert_eq!(BinanceStream::Trade.descriptor(), "!trade@0");
    assert_eq!(BinanceStream::Kline("BTCUSDT".to_string(), "1m".to_string()).descriptor(), "btcusdt@kline_1m");
    assert_eq!(BinanceStream::Ticker("EthUSDT".to_string()).descriptor(), "ethusdt@ticker");
    assert_eq!(BinanceStream::Heartbeat.descriptor(), "!heartbeat");
    assert!(BinanceStream::AllOrders.is_private());
    assert!(!BinanceStream::Trade.is_private());
    assert_eq!(BinanceStream::Kline("A".to_string(), "B".to_string()).name(), "Kline");
    assert_eq!(EVENT_CHANNEL_CAPACITY, 100);
}

#[test]
fn the_address_joins_the_streams() {
    let config = WebSocketConfig::default();
    let streams = vec![
        BinanceStream::Trade,
        BinanceStream::Ticker("BTCUSDT".to_string()),
        BinanceStream::Heartbeat,
    ];
    assert_eq!(
        build_url(&config, &streams).unwrap(),
        "wss://stream.binance.com:9443/ws?streams=%21trade%400%2Fbtcusdt%40ticker%2F%21heartbeat"
    );
}

#[test]
fn the_address_fails_as_a_config_error() {
    let config = WebSocketConfig::default();
    assert_eq!(
        build_url(&config, &Vec::new()),
        Err(AppError::Config("WebSocket streams cannot be empty".to_string()))
    );
    assert_eq!(
        build_url(&config, &vec![BinanceStream::Trade, BinanceStream::Orders]),
        Err(AppError::Config("API key (listen key) required for private Binance streams".to_string()))
    );
    let broken = WebSocketConfig { endpoint: "not a url".to_string(), ..Default::default() };
    assert!(matches!(build_url(&broken, &vec![BinanceStream::Trade]), Err(AppError::Config(_))));
}

#[test]
fn stream_order_kinds() {
    assert_eq!(parse_order_type("MARKET"), OrderType::Market);
    assert_eq!(parse_order_type("LIMIT"), OrderType::Limit);
    assert_eq!(parse_order_type("STOP_LOSS"), OrderType::StopLimit);
    assert_eq!(parse_order_type("STOP_LOSS_LIMIT"), OrderType::StopLimit);
    assert_eq!(parse_order_type("TAKE_PROFIT"), OrderType::StopLimit);
    assert_eq!(parse_order_type("TAKE_PROFIT_LIMIT"), OrderType::StopLimit);
    assert_eq!(parse_order_type("LIMIT_MAKER"), OrderType::Limit);
    assert_eq!(parse_order_type("??"), OrderType::Limit);
    assert_eq!(parse_trade_side("BUY"), TradeSide::Buy);
    assert_eq!(parse_trade_side("SELL"), TradeSide::Sell);
    assert_eq!(parse_trade_side("??"), TradeSide::Buy);
}

#[test]
fn unknown_tags_are_ignored_and_errors_fail() {
    assert_eq!(message_kind("trade"), MessageKind::Trade);
    assert_eq!(message_kind("Error"), MessageKind::Error);
    assert_eq!(message_kind("kline"), MessageKind::Unknown);
    assert_eq!(message_kind(""), MessageKind::Unknown);
    let mut account = AccountState::default();
    let failed = handle_message(
        BinanceWebSocketMessage::Error { msg: "bad key".to_string() },
        &mut account,
        Timestamp::from_millis(1),
    );
    assert_eq!(failed, Err(AppError::WebSocket("bad key".to_string())));
    let trade = BinanceWebSocketMessage::Trade {
        E: 1,
        s: "BTCUSDT".to_string(),
        t: 2,
        p: "1".to_string(),
        q: "1".to_string(),
        b: 3,
        a: 4,
        T: 5,
        m: false,
    };
    assert_eq!(handle_message(trade, &mut account, Timestamp::from_millis(1)), Ok(Vec::new()));
    assert_eq!(account, AccountState::default());
}

#[test]
fn a_reported_balance_replaces_that_of_its_currency() {
    let balance = |currency: &str, free: &str| Balance {
        currency: currency.to_string(),
        total: dec(free),
        free: dec(free),
        used: Decimal::zero(),
    };
    let mut balances = vec![balance("BTC", "1"), balance("USDT", "5")];
    apply_balance(&mut balances, balance("USDT", "7"));
    apply_balance(&mut balances, balance("ETH", "3"));
    let shown: Vec<(String, String)> = balances.iter().map(|b| (b.currency.clone(), b.free.to_text())).collect();
    assert_eq!(
        shown,
        vec![
            ("BTC".to_string(), "1".to_string()),
            ("USDT".to_string(), "7".to_string()),
            ("ETH".to_string(), "3".to_string())
        ]
    );
}

#[test]
fn what_remains_of_an_order_is_never_below_zero() {
    let mut report = execution_report();
    report.q = "1".to_string();
    report.z = "1.5".to_string();
    report.p = "?".to_string();
    let order = order_from_update(&report, Timestamp::from_millis(9)).unwrap();
    assert_eq!(order.remaining, Decimal::zero());
    assert_eq!(order.price, None);
    report.z = "0.25".to_string();
    let order = order_from_update(&report, Timestamp::from_millis(9)).unwrap();
    assert_eq!(order.remaining, dec("0.75"));
    assert_eq!(order.filled.checked_add(order.remaining).unwrap(), order.amount);
}

#[test]
fn frames_and_what_the_reader_does_with_them() {
    assert_eq!(frame_action(Frame::Text("{}".to_string())), FrameAction::Handle("{}".to_string()));
    assert_eq!(frame_action(Frame::Ping(vec![1, 2])), FrameAction::Pong(vec![1, 2]));
    assert_eq!(frame_action(Frame::Close), FrameAction::Leave);
    assert_eq!(frame_action(Frame::Other), FrameAction::Ignore);
    assert_eq!(
        frame_action(Frame::ReadError("reset".to_string())),
        FrameAction::ReportAndLeave("Read error: reset".to_string())
    );
}

#[test]
fn the_supervisor_reconnects_and_gives_up() {
    let config = WebSocketConfig { max_reconnect_attempts: 2, reconnect_delay_secs: 7, ..Default::default() };
    let mut manager = WebSocketManager::new(config);
    assert_eq!(manager.next_attempt(), AttemptPlan::Stop);
    let url = manager.connect(&vec![BinanceStream::Trade]).unwrap();
    assert!(url.ends_with("streams=%21trade%400"));
    assert!(manager.is_running());
    assert_eq!(
        manager.connect(&vec![BinanceStream::Trade]),
        Err(AppError::Config("WebSocket already running".to_string()))
    );

    assert_eq!(manager.next_attempt(), AttemptPlan::Connect(0));
    assert_eq!(manager.get_state(), ConnectionState::Connecting);
    manager.on_connected();
    assert!(manager.is_connected());
    manager.on_connection_lost();
    assert_eq!(manager.next_attempt(), AttemptPlan::Connect(7));
    assert_eq!(manager.get_state(), ConnectionState::Reconnecting);
    manager.on_connected();
    assert_eq!(manager.get_state(), ConnectionState::Connected);

    manager.on_connection_lost();
    assert_eq!(manager.next_attempt(), AttemptPlan::Connect(7));
    manager.on_connection_lost();
    assert_eq!(manager.next_attempt(), AttemptPlan::Connect(7));
    manager.on_connection_lost();
    assert_eq!(manager.next_attempt(), AttemptPlan::GiveUp);
    assert_eq!(manager.get_state(), ConnectionState::Failed);
    assert!(!manager.is_running());
    manager.finish();
    assert_eq!(manager.get_state(), ConnectionState::Failed);
    assert_eq!(manager.next_attempt(), AttemptPlan::Stop);
}

#[test]
fn a_disconnect_ends_the_supervisor() {
    let mut manager = WebSocketManager::new(WebSocketConfig::default());
    manager.connect(&vec![BinanceStream::Heartbeat]).unwrap();
    manager.next_attempt();
    manager.on_connected();
    manager.disconnect();
    assert_eq!(manager.get_state(), ConnectionState::Disconnected);
    assert!(!manager.is_running());
    manager.on_connection_lost();
    assert_eq!(manager.next_attempt(), AttemptPlan::Stop);
    manager.finish();
    assert_eq!(manager.get_state(), ConnectionState::Disconnected);
    let events = manager
        .receive(
            BinanceWebSocketMessage::AccountUpdate {
                u: 1,
                B: vec![BalanceUpdate { a: "BTC".to_string(), f: "1".to_string(), l: "x".to_string() }],
            },
            Timestamp::from_millis(3),
        )
        .unwrap();
    assert_eq!(events.len(), 1);
    assert_eq!(manager.get_account_state().balances[0].total, dec("1"));
    assert_eq!(manager.get_account_state().last_update, Some(Timestamp::from_millis(3)));
}

fn report(id: i64, status: &str) -> BinanceWebSocketMessage {
    let mut params = execution_report();
    params.i = id;
    params.X = status.to_string();
    BinanceWebSocketMessage::OrderUpdate(Box::new(params))
}

fn shown_status(events: &Vec<WebSocketEvent>) -> OrderStatus {
    assert_eq!(events.len(), 1);
    match &events[0] {
        WebSocketEvent::OrderUpdate(order) => order.status,
        _ => panic!("Expected OrderUpdate"),
    }
}

#[test]
fn a_final_order_state_is_never_left() {
    let now = Timestamp::from_millis(9);
    for last in ["FILLED", "CANCELED", "REJECTED", "EXPIRED"] {
        let mut account = AccountState::default();
        let first = handle_message(report(7, last), &mut account, now).unwrap();
        let kept = shown_status(&first);
        for next in ["NEW", "PARTIALLY_FILLED", "FILLED", "CANCELED", "REJECTED", "EXPIRED"] {
            let events = handle_message(report(7, next), &mut account, now).unwrap();
            assert_eq!(shown_status(&events), kept);
            assert_eq!(account.orders, vec![OrderMark { id: 7, status: kept }]);
        }
    }
}

#[test]
fn orders_are_followed_one_by_one() {
    let now = Timestamp::from_millis(9);
    let mut account = AccountState::default();
    assert_eq!(shown_status(&handle_message(report(1, "NEW"), &mut account, now).unwrap()), OrderStatus::New);
    assert_eq!(
        shown_status(&handle_message(report(2, "FILLED"), &mut account, now).unwrap()),
        OrderStatus::Filled
    );
    assert_eq!(
        shown_status(&handle_message(report(1, "PARTIALLY_FILLED"), &mut account, now).unwrap()),
        OrderStatus::PartiallyFilled
    );
    assert_eq!(
        shown_status(&handle_message(report(1, "NEW"), &mut account, now).unwrap()),
        OrderStatus::PartiallyFilled
    );
    assert_eq!(shown_status(&handle_message(report(2, "NEW"), &mut account, now).unwrap()), OrderStatus::Filled);
    assert_eq!(
        shown_status(&handle_message(report(1, "CANCELED"), &mut account, now).unwrap()),
        OrderStatus::Canceled
    );
    assert_eq!(
        account.orders,
        vec![
            OrderMark { id: 1, status: OrderStatus::Canceled },
            OrderMark { id: 2, status: OrderStatus::Filled },
        ]
    );
    let mut marks = account.orders.clone();
    assert_eq!(note_status(&mut marks, 3, OrderStatus::Expired), OrderStatus::Expired);
    assert_eq!(note_status(&mut marks, 3, OrderStatus::New), OrderStatus::Expired);
    assert_eq!(marks.len(), 3);
}

#[test]
fn a_frame_with_an_unknown_tag_is_passed_over() {
    let now = Timestamp::from_millis(9);
    let mut account = AccountState::default();
    handle_message(report(1, "NEW"), &mut account, now).unwrap();
    let before = account.clone();

    let kind = message_kind("kline");
    assert_eq!(handle_tagged(kind, None, &mut account, now), Ok(Vec::new()));
    assert_eq!(handle_tagged(kind, Some(report(1, "FILLED")), &mut account, now), Ok(Vec::new()));
    assert_eq!(account, before);

    assert_eq!(
        handle_tagged(message_kind("executionReport"), None, &mut account, now),
        Err(AppError::WebSocket("Failed to parse websocket message".to_string()))
    );
    assert_eq!(account, before);
    let events = handle_tagged(message_kind("executionReport"), Some(report(1, "FILLED")), &mut account, now);
    assert_eq!(shown_status(&events.unwrap()), OrderStatus::Filled);

    let mut manager = WebSocketManager::new(WebSocketConfig::default());
    assert_eq!(manager.receive_tagged(MessageKind::Unknown, None, now), Ok(Vec::new()));
    assert_eq!(manager.get_account_state(), &AccountState::default());
    let events = manager.receive_tagged(MessageKind::OrderUpdate, Some(report(4, "EXPIRED")), now).unwrap();
    assert_eq!(shown_status(&events), OrderStatus::Expired);
    assert_eq!(manager.get_account_state().orders, vec![OrderMark { id: 4, status: OrderStatus::Expired }]);
}

#[test]
fn a_supervisor_starts_exactly_where_its_address_can_be_built() {
    let now = Timestamp::from_millis(9);
    let mut manager = WebSocketManager::new(WebSocketConfig::default());
    assert!(manager.get_account_state().orders.is_empty());
    manager.receive(report(4, "FILLED"), now).unwrap();
    let account = manager.get_account_state().clone();

    assert_eq!(
        manager.connect(&Vec::new()),
        Err(AppError::Config("WebSocket streams cannot be empty".to_string()))
    );
    assert_eq!(
        manager.connect(&vec![BinanceStream::Trade, BinanceStream::Account]),
        Err(AppError::Config("API key (listen key) required for private Binance streams".to_string()))
    );
    assert!(!manager.is_running());
    assert_eq!(manager.get_account_state(), &account);

    let url = manager.connect(&vec![BinanceStream::Trade, BinanceStream::Heartbeat]).unwrap();
    assert_eq!(Ok(url), build_url(&WebSocketConfig::default(), &vec![BinanceStream::Trade, BinanceStream::Heartbeat]));
    assert!(manager.is_running());
    assert_eq!(manager.get_state(), ConnectionState::Disconnected);
    assert_eq!(manager.get_account_state(), &account);
    assert_eq!(
        manager.connect(&Vec::new()),
        Err(AppError::Config("WebSocket already running".to_string()))
    );

    let bad = WebSocketConfig { endpoint: "not a url".to_string(), ..Default::default() };
    let mut lost = WebSocketManager::new(bad);
    assert_eq!(
        lost.connect(&vec![BinanceStream::Trade]),
        Err(AppError::Config("Invalid WebSocket base URL: not a url".to_string()))
    );
    assert!(!lost.is_running());

    let keyed = WebSocketConfig { api_key: Some("listen".to_string()), ..Default::default() };
    let mut private = WebSocketManager::new(keyed);
    assert!(private.connect(&vec![BinanceStream::Account]).is_ok());
    assert!(private.is_running());
}
