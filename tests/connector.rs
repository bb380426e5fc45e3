use tradingview_rust_connector::engine::{Event, Reconciliation, Stage, Step};
use tradingview_rust_connector::error::{ConnectorError, ExchangeError};
use tradingview_rust_connector::hyperliquid::{
    asset_contract_rounding_size, cancel_requests, classify_size, live_position,
    round_down_size, venue_order, AssetMeta, AssetPosition, OpenOrder,
};
use tradingview_rust_connector::types::{Action, Order, Position};

const UNIT: u64 = 100_000_000;

fn order(ticker: &str, previous: Position, target: Position, contracts: u64) -> Order {
    Order {
        id: "sig-1".to_string(),
        action: Action::Buy,
        contracts: contracts * UNIT,
        ticker: ticker.to_string(),
        position: target,
        previous_position: previous,
        position_size: 2 * UNIT,
        price: 65_000 * UNIT,
        reduce: false,
    }
}

fn exchange_error(message: &str) -> ExchangeError {
    ExchangeError { message: message.to_string() }
}

#[test]
fn normalises_perpetual_usdt_ticker() {
    let o = order("BTC-USDT.P", Position::Flat, Position::Long, 1);
    assert_eq!(o.normalise_ticker("BTC-USDT.P"), Ok("BTC".to_string()));
}

#[test]
fn normalises_slash_usd_ticker() {
    let o = order("ETH/USD", Position::Flat, Position::Long, 1);
    assert_eq!(o.normalise_ticker("ETH/USD"), Ok("ETH".to_string()));
    assert_eq!(o.normalise_ticker("SOLUSDC"), Ok("SOL".to_string()));
}

#[test]
fn rejects_ticker_without_usd_marker() {
    let o = order("XRP", Position::Flat, Position::Long, 1);
    assert_eq!(o.normalise_ticker("XRP"), Err(ConnectorError::InvalidTicker));
}

#[test]
fn normalising_a_base_symbol_again_is_refused() {
    let o = order("BTC-USDT.P", Position::Flat, Position::Long, 1);
    let base = o.normalise_ticker("BTC-USDT.P").unwrap();
    assert_eq!(o.normalise_ticker(&base), Err(ConnectorError::InvalidTicker));
}

#[test]
fn flat_previous_position_never_closes() {
    for target in [Position::Long, Position::Short, Position::Flat] {
        let o = order("BTCUSD", Position::Flat, target, 1);
        assert!(!o.is_close_position());
    }
}

#[test]
fn each_transition_has_one_class() {
    let all = [Position::Long, Position::Short, Position::Flat];
    for previous in all {
        for target in all {
            let o = order("BTCUSD", previous, target, 1);
            let classes = [o.is_open_position(), o.is_close_position(), o.is_reverse_position()];
            let count = classes.iter().filter(|c| **c).count();
            assert!(count <= 1);
            assert_eq!(count == 0, previous == target);
        }
    }
    let o = order("BTCUSD", Position::Long, Position::Short, 1);
    assert!(o.is_reverse_position());
    assert!(!o.is_open_position());
    assert!(!o.is_close_position());
}

#[test]
fn is_buy_follows_action() {
    let mut o = order("BTCUSD", Position::Flat, Position::Long, 1);
    assert!(o.is_buy());
    o.action = Action::Sell;
    assert!(!o.is_buy());
}

#[test]
fn close_with_live_position_places_reduce_only() {
    let (mut rc, step) =
        Reconciliation::begin(order("BTC-USDT.P", Position::Long, Position::Flat, 5)).unwrap();
    assert_eq!(step, Step::CancelOrders);
    assert_eq!(rc.asset, "BTC");
    assert_eq!(rc.advance(Event::Cancelled(Ok(true))), Step::QueryPosition);
    assert_eq!(rc.advance(Event::Queried(Ok(Position::Long))), Step::PlaceOrder);
    assert!(rc.reduce_only());
    assert_eq!(rc.order.contracts, 5 * UNIT);
    assert_eq!(rc.advance(Event::Placed(Ok(()))), Step::Finish(Ok(())));
    assert_eq!(rc.stage, Stage::Done);
}

#[test]
fn close_when_already_flat_places_nothing() {
    let (mut rc, step) =
        Reconciliation::begin(order("BTC-USDT.P", Position::Long, Position::Flat, 5)).unwrap();
    assert_eq!(step, Step::CancelOrders);
    assert_eq!(rc.advance(Event::Cancelled(Ok(false))), Step::QueryPosition);
    assert_eq!(rc.advance(Event::Queried(Ok(Position::Flat))), Step::Finish(Ok(())));
    assert_eq!(rc.stage, Stage::Done);
}

#[test]
fn reversal_against_live_position_doubles_contracts() {
    let (mut rc, step) =
        Reconciliation::begin(order("ETH/USD", Position::Short, Position::Long, 3)).unwrap();
    assert_eq!(step, Step::QueryPosition);
    assert_eq!(rc.advance(Event::Queried(Ok(Position::Short))), Step::PlaceOrder);
    assert_eq!(rc.order.contracts, 6 * UNIT);
    assert!(!rc.reduce_only());
}

#[test]
fn reversal_already_on_target_keeps_contracts() {
    let (mut rc, _) =
        Reconciliation::begin(order("ETH/USD", Position::Short, Position::Long, 3)).unwrap();
    assert_eq!(rc.advance(Event::Queried(Ok(Position::Long))), Step::PlaceOrder);
    assert_eq!(rc.order.contracts, 3 * UNIT);
    let (mut rc, _) =
        Reconciliation::begin(order("ETH/USD", Position::Short, Position::Long, 3)).unwrap();
    assert_eq!(rc.advance(Event::Queried(Ok(Position::Flat))), Step::PlaceOrder);
    assert_eq!(rc.order.contracts, 3 * UNIT);
}

#[test]
fn open_places_directly() {
    let (mut rc, step) =
        Reconciliation::begin(order("SOLUSDC", Position::Flat, Position::Short, 2)).unwrap();
    assert_eq!(step, Step::PlaceOrder);
    assert_eq!(rc.asset, "SOL");
    assert!(!rc.reduce_only());
    assert_eq!(rc.advance(Event::Placed(Ok(()))), Step::Finish(Ok(())));
}

#[test]
fn same_side_signal_falls_through_to_placement() {
    let (_, step) =
        Reconciliation::begin(order("SOLUSDC", Position::Long, Position::Long, 2)).unwrap();
    assert_eq!(step, Step::PlaceOrder);
}

#[test]
fn invalid_ticker_stops_before_any_call() {
    let r = Reconciliation::begin(order("XRP", Position::Long, Position::Flat, 1));
    assert!(matches!(r, Err(ConnectorError::InvalidTicker)));
}

#[test]
fn exchange_failures_end_the_reconciliation() {
    let (mut rc, _) =
        Reconciliation::begin(order("BTCUSD", Position::Long, Position::Flat, 1)).unwrap();
    assert_eq!(
        rc.advance(Event::Cancelled(Err(exchange_error("auth")))),
        Step::Finish(Err(ConnectorError::Exchange(exchange_error("auth"))))
    );
    let (mut rc, _) =
        Reconciliation::begin(order("BTCUSD", Position::Short, Position::Long, 1)).unwrap();
    assert_eq!(
        rc.advance(Event::Queried(Err(exchange_error("timeout")))),
        Step::Finish(Err(ConnectorError::Exchange(exchange_error("timeout"))))
    );
    assert_eq!(rc.order.contracts, UNIT);
    let (mut rc, _) =
        Reconciliation::begin(order("BTCUSD", Position::Flat, Position::Long, 1)).unwrap();
    assert_eq!(
        rc.advance(Event::Placed(Err(exchange_error("rejected")))),
        Step::Finish(Err(ConnectorError::Exchange(exchange_error("rejected"))))
    );
}

fn universe() -> Vec<AssetMeta> {
    vec![
        AssetMeta { name: "BTC".to_string(), sz_decimals: 5 },
        AssetMeta { name: "SOL".to_string(), sz_decimals: 2 },
        AssetMeta { name: "HUGE".to_string(), sz_decimals: u32::MAX },
    ]
}

#[test]
fn precision_comes_from_metadata() {
    let u = Some(universe());
    assert_eq!(asset_contract_rounding_size(&u, "SOL"), 2);
    assert_eq!(asset_contract_rounding_size(&u, "BTC"), 5);
    assert_eq!(asset_contract_rounding_size(&u, "DOGE"), 0);
    assert_eq!(asset_contract_rounding_size(&u, "HUGE"), 0);
}

#[test]
fn failed_precision_lookup_rounds_to_whole_units() {
    let decimals = asset_contract_rounding_size(&None, "SOL");
    assert_eq!(decimals, 0);
    assert_eq!(round_down_size(123_456_789, decimals), 100_000_000);
    let o = order("SOLUSD", Position::Flat, Position::Long, 1);
    let mut o = o;
    o.position_size = 275_000_000;
    assert_eq!(venue_order(&o, "SOL", decimals).size, 200_000_000);
}

#[test]
fn rounding_goes_down_to_the_precision() {
    assert_eq!(round_down_size(123_456_789, 2), 123_000_000);
    assert_eq!(round_down_size(123_456_789, 5), 123_456_000);
    assert_eq!(round_down_size(123_456_789, 8), 123_456_789);
    assert_eq!(round_down_size(123_456_789, 12), 123_456_789);
    assert_eq!(round_down_size(123_456_789, -3), 100_000_000);
    assert_eq!(round_down_size(99_999_999, 0), 0);
    assert_eq!(round_down_size(u64::MAX, 0), u64::MAX - u64::MAX % UNIT);
}

#[test]
fn venue_order_carries_side_price_and_reduce_flag() {
    let mut o = order("BTC-USDT.P", Position::Long, Position::Flat, 1);
    o.action = Action::Sell;
    o.position_size = 123_456_789;
    let v = venue_order(&o, "BTC", 3);
    assert_eq!(v.asset, "BTC");
    assert!(!v.is_buy);
    assert_eq!(v.size, 123_400_000);
    assert_eq!(v.limit_price, 65_000 * UNIT);
    assert!(v.reduce_only);
    let o = order("BTCUSD", Position::Flat, Position::Long, 1);
    assert!(!venue_order(&o, "BTC", 3).reduce_only);
}

#[test]
fn cancels_only_orders_on_the_asset() {
    let open = vec![
        OpenOrder { coin: "BTC".to_string(), oid: 11 },
        OpenOrder { coin: "ETH".to_string(), oid: 12 },
        OpenOrder { coin: "BTC".to_string(), oid: 13 },
    ];
    let r = cancel_requests(&open, "BTC");
    assert_eq!(r.iter().map(|c| c.oid).collect::<Vec<_>>(), vec![11, 13]);
    assert!(r.iter().all(|c| c.asset == "BTC"));
    assert!(cancel_requests(&open, "SOL").is_empty());
}

#[test]
fn signed_sizes_classify_by_sign() {
    assert_eq!(classify_size("0.5"), Some(Position::Long));
    assert_eq!(classify_size("12"), Some(Position::Long));
    assert_eq!(classify_size("-1.25"), Some(Position::Short));
    assert_eq!(classify_size("0.000"), Some(Position::Flat));
    assert_eq!(classify_size("-0"), Some(Position::Flat));
    assert_eq!(classify_size(""), None);
    assert_eq!(classify_size("-"), None);
    assert_eq!(classify_size("."), None);
    assert_eq!(classify_size("1.2.3"), None);
    assert_eq!(classify_size("abc"), None);
}

#[test]
fn live_position_reads_the_first_listed_entry() {
    let positions = vec![
        AssetPosition { coin: "ETH".to_string(), szi: "-2.5".to_string() },
        AssetPosition { coin: "BTC".to_string(), szi: "0.01".to_string() },
        AssetPosition { coin: "SOL".to_string(), szi: "0.0".to_string() },
        AssetPosition { coin: "BAD".to_string(), szi: "n/a".to_string() },
    ];
    assert_eq!(live_position(&positions, "ETH"), Ok(Position::Short));
    assert_eq!(live_position(&positions, "BTC"), Ok(Position::Long));
    assert_eq!(live_position(&positions, "SOL"), Ok(Position::Flat));
    assert_eq!(live_position(&positions, "DOGE"), Ok(Position::Flat));
    assert!(live_position(&positions, "BAD").is_err());
}
