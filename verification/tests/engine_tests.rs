use trailing_orders::{
    Address, Error, Event, FundMove, OrderBook, OrderStatus, OrderType, PriceData, PriceOracle,
    SoroswapRouterTrait, SwapRequest,
};

struct FixedOracle {
    price: Option<i128>,
    decs: u32,
}

impl PriceOracle for FixedOracle {
    fn lastprice(&self, _oracle_ticker: u64) -> Option<PriceData> {
        self.price.map(|p| PriceData { price: p, timestamp: 0 })
    }

    fn decimals(&self) -> u32 {
        self.decs
    }
}

struct RecordingRouter {
    fill: Vec<i128>,
    calls: Vec<SwapRequest>,
}

impl RecordingRouter {
    fn filling(out: i128) -> RecordingRouter {
        RecordingRouter { fill: vec![out], calls: Vec::new() }
    }

    fn empty() -> RecordingRouter {
        RecordingRouter { fill: Vec::new(), calls: Vec::new() }
    }
}

impl SoroswapRouterTrait for RecordingRouter {
    fn swap_exact_tokens_for_tokens(&mut self, req: &SwapRequest) -> Vec<i128> {
        self.calls.push(*req);
        self.fill.clone()
    }
}

const ADMIN: Address = Address { id: 1 };
const ORACLE_ADDR: Address = Address { id: 2 };
const ROUTER_ADDR: Address = Address { id: 3 };
const OWNER: Address = Address { id: 10 };
const SELL: Address = Address { id: 20 };
const BUY: Address = Address { id: 21 };
const TICKER: u64 = 7;

fn initialized_book(decs: u32) -> OrderBook {
    let mut ob = OrderBook::new();
    let oracle = FixedOracle { price: Some(100), decs };
    assert_eq!(ob.initialize(&oracle, ADMIN, ORACLE_ADDR, ROUTER_ADDR), Ok(()));
    ob
}

#[test]
fn initialize_fixes_config_and_scale() {
    let ob = initialized_book(2);
    let c = ob.config.unwrap();
    assert_eq!(c.admin, ADMIN);
    assert_eq!(c.oracle, ORACLE_ADDR);
    assert_eq!(c.router, ROUTER_ADDR);
    assert_eq!(c.price_scale, 100);
}

#[test]
fn initialize_twice_fails_and_keeps_first_config() {
    let mut ob = initialized_book(2);
    let other = FixedOracle { price: Some(5), decs: 9 };
    let r = ob.initialize(
        &other,
        Address { id: 40 },
        Address { id: 41 },
        Address { id: 42 },
    );
    assert_eq!(r, Err(Error::AlreadyInitialized));
    let c = ob.config.unwrap();
    assert_eq!(c.admin, ADMIN);
    assert_eq!(c.oracle, ORACLE_ADDR);
    assert_eq!(c.router, ROUTER_ADDR);
    assert_eq!(c.price_scale, 100);
}

#[test]
fn created_ids_increase_and_escrow_is_recorded() {
    let mut ob = initialized_book(0);
    let oracle = FixedOracle { price: Some(100), decs: 0 };
    let id0 = ob.create_simple_trigger(OWNER, SELL, BUY, 1000, 50).unwrap();
    let id1 = ob
        .create_trailing_stop_loss(&oracle, OWNER, SELL, BUY, 250, 1000, TICKER)
        .unwrap();
    let id2 = ob.create_simple_trigger(OWNER, SELL, BUY, 7, 9).unwrap();
    assert_eq!(id0, 0);
    assert_eq!(id1, 1);
    assert_eq!(id2, 2);
    assert!(id0 < id1 && id1 < id2);
    assert_eq!(
        ob.moves,
        vec![
            FundMove::Escrow { owner: OWNER, asset: SELL, amount: 1000 },
            FundMove::Escrow { owner: OWNER, asset: SELL, amount: 250 },
            FundMove::Escrow { owner: OWNER, asset: SELL, amount: 7 },
        ]
    );
    assert_eq!(ob.next_order_id, 3);
}

#[test]
fn create_rejects_invalid_params() {
    let mut ob = initialized_book(0);
    let oracle = FixedOracle { price: Some(100), decs: 0 };
    assert_eq!(
        ob.create_simple_trigger(OWNER, SELL, BUY, 0, 50),
        Err(Error::InvalidParam)
    );
    assert_eq!(
        ob.create_simple_trigger(OWNER, SELL, BUY, -5, 50),
        Err(Error::InvalidParam)
    );
    assert_eq!(
        ob.create_simple_trigger(OWNER, SELL, BUY, 10, 0),
        Err(Error::InvalidParam)
    );
    assert_eq!(
        ob.create_trailing_stop_loss(&oracle, OWNER, SELL, BUY, 0, 1000, TICKER),
        Err(Error::InvalidParam)
    );
    assert_eq!(
        ob.create_trailing_stop_loss(&oracle, OWNER, SELL, BUY, 10, 0, TICKER),
        Err(Error::InvalidParam)
    );
    assert_eq!(
        ob.create_trailing_stop_loss(&oracle, OWNER, SELL, BUY, 10, 10_000, TICKER),
        Err(Error::InvalidParam)
    );
    assert!(ob.orders.is_empty());
    assert!(ob.moves.is_empty());
    assert!(ob.events.is_empty());
}

#[test]
fn create_trailing_without_quote_fails() {
    let mut ob = initialized_book(0);
    let oracle = FixedOracle { price: None, decs: 0 };
    assert_eq!(
        ob.create_trailing_stop_loss(&oracle, OWNER, SELL, BUY, 10, 1000, TICKER),
        Err(Error::PriceNotAvailable)
    );
    let zero = FixedOracle { price: Some(0), decs: 0 };
    assert_eq!(
        ob.create_trailing_stop_loss(&zero, OWNER, SELL, BUY, 10, 1000, TICKER),
        Err(Error::PriceNotAvailable)
    );
    assert!(ob.orders.is_empty());
}

#[test]
fn cancel_releases_escrow_once_and_is_final() {
    let mut ob = initialized_book(0);
    let id = ob.create_simple_trigger(OWNER, SELL, BUY, 1000, 50).unwrap();
    assert_eq!(ob.cancel_order(OWNER, id), Ok(()));
    assert_eq!(
        ob.moves.last(),
        Some(&FundMove::Release { to: OWNER, asset: SELL, amount: 1000 })
    );
    assert_eq!(
        ob.events.last(),
        Some(&Event::Cancelled { owner: OWNER, order_id: id })
    );
    assert_eq!(ob.get_order(id).unwrap().status, OrderStatus::Cancelled);
    let moves_before = ob.moves.len();
    assert_eq!(ob.cancel_order(OWNER, id), Err(Error::OrderNotActive));
    assert_eq!(ob.moves.len(), moves_before);
}

#[test]
fn cancel_checks_owner_and_existence() {
    let mut ob = initialized_book(0);
    let id = ob.create_simple_trigger(OWNER, SELL, BUY, 1000, 50).unwrap();
    assert_eq!(
        ob.cancel_order(Address { id: 99 }, id),
        Err(Error::Unauthorized)
    );
    assert_eq!(ob.cancel_order(OWNER, 5), Err(Error::OrderNotFound));
    assert_eq!(ob.get_order(id).unwrap().status, OrderStatus::Active);
}

#[test]
fn simple_trigger_above_threshold_stays_active() {
    let mut ob = initialized_book(0);
    let id = ob.create_simple_trigger(OWNER, SELL, BUY, 1000, 100).unwrap();
    let oracle = FixedOracle { price: Some(105), decs: 0 };
    let mut router = RecordingRouter::filling(1);
    let before = ob.get_order(id).unwrap();
    let r = ob.trigger_one(&oracle, &mut router, TICKER, id, 100, 0, 0, 3600);
    assert_eq!(r, Ok(()));
    assert_eq!(ob.get_order(id).unwrap(), before);
    assert!(router.calls.is_empty());
    assert_eq!(ob.events.len(), 1);
    assert_eq!(ob.moves.len(), 1);
}

#[test]
fn simple_trigger_fires_at_threshold() {
    let mut ob = initialized_book(0);
    let id = ob.create_simple_trigger(OWNER, SELL, BUY, 1000, 100).unwrap();
    let oracle = FixedOracle { price: Some(100), decs: 0 };
    let mut router = RecordingRouter::filling(97500);
    let r = ob.trigger_one(&oracle, &mut router, TICKER, id, 250, 0, 0, 3600);
    assert_eq!(r, Ok(()));
    assert_eq!(ob.get_order(id).unwrap().status, OrderStatus::Executed);
    // quoted = floor(1000 * 100 / 1) = 100000; min = floor(100000 * 9750 / 10000)
    assert_eq!(
        ob.events.last(),
        Some(&Event::Executed { owner: OWNER, order_id: id, price: 100, min_output: 97500 })
    );
}

#[test]
fn simple_trigger_fires_below_threshold_with_scale() {
    // two oracle decimals: price_scale = 100
    let mut ob = initialized_book(2);
    let id = ob.create_simple_trigger(OWNER, SELL, BUY, 333, 10_000).unwrap();
    let oracle = FixedOracle { price: Some(9_500), decs: 2 };
    let mut router = RecordingRouter::filling(1);
    let r = ob.trigger_one(&oracle, &mut router, TICKER, id, 100, 0, 0, 3600);
    assert_eq!(r, Ok(()));
    // quoted = floor(333 * 9500 / 100) = 31635; min = floor(31635 * 9900 / 10000) = 31318
    assert_eq!(
        ob.events.last(),
        Some(&Event::Executed { owner: OWNER, order_id: id, price: 9_500, min_output: 31_318 })
    );
    assert_eq!(router.calls.len(), 1);
    assert_eq!(router.calls[0].amount_in, 333);
    assert_eq!(router.calls[0].min_out, 31_318);
    assert_eq!(
        ob.swap_requests,
        vec![SwapRequest {
            amount_in: 333,
            min_out: 31_318,
            sell: SELL,
            buy: BUY,
            to: OWNER,
            deadline: 3600,
        }]
    );
}

#[test]
fn trailing_stop_tracks_peak_then_fires() {
    let mut ob = initialized_book(0);
    let oracle100 = FixedOracle { price: Some(100), decs: 0 };
    let id = ob
        .create_trailing_stop_loss(&oracle100, OWNER, SELL, BUY, 1000, 1000, TICKER)
        .unwrap();
    match ob.get_order(id).unwrap().order_type {
        OrderType::TrailingStopLoss { trail_bps, peak_price } => {
            assert_eq!(trail_bps, 1000);
            assert_eq!(peak_price, 100);
        }
        _ => panic!("expected a trailing order"),
    }
    let mut router = RecordingRouter::filling(1);
    // price rises to 120: the peak follows, nothing fires
    let oracle120 = FixedOracle { price: Some(120), decs: 0 };
    assert_eq!(
        ob.trigger_one(&oracle120, &mut router, TICKER, id, 100, 0, 0, 3600),
        Ok(())
    );
    let o = ob.get_order(id).unwrap();
    assert_eq!(o.status, OrderStatus::Active);
    assert!(matches!(
        o.order_type,
        OrderType::TrailingStopLoss { trail_bps: 1000, peak_price: 120 }
    ));
    assert!(router.calls.is_empty());
    assert_eq!(ob.events.len(), 1); // only the creation event
    // price falls to 90: threshold floor(120 * 9000 / 10000) = 108, 90 <= 108
    let oracle90 = FixedOracle { price: Some(90), decs: 0 };
    assert_eq!(
        ob.trigger_one(&oracle90, &mut router, TICKER, id, 100, 0, 0, 3600),
        Ok(())
    );
    assert_eq!(ob.get_order(id).unwrap().status, OrderStatus::Executed);
    // quoted = floor(1000 * 90 / 1) = 90000; min = floor(90000 * 9900 / 10000)
    assert_eq!(
        ob.events.last(),
        Some(&Event::Executed { owner: OWNER, order_id: id, price: 90, min_output: 89_100 })
    );
}

#[test]
fn trailing_stop_between_threshold_and_peak_does_nothing() {
    let mut ob = initialized_book(0);
    let oracle100 = FixedOracle { price: Some(100), decs: 0 };
    let id = ob
        .create_trailing_stop_loss(&oracle100, OWNER, SELL, BUY, 1000, 1000, TICKER)
        .unwrap();
    // threshold is floor(100 * 9000 / 10000) = 90; a price of 95 neither
    // fires nor raises the peak
    let oracle95 = FixedOracle { price: Some(95), decs: 0 };
    let mut router = RecordingRouter::filling(1);
    assert_eq!(
        ob.trigger_one(&oracle95, &mut router, TICKER, id, 100, 0, 0, 3600),
        Ok(())
    );
    let o = ob.get_order(id).unwrap();
    assert_eq!(o.status, OrderStatus::Active);
    assert!(matches!(
        o.order_type,
        OrderType::TrailingStopLoss { trail_bps: 1000, peak_price: 100 }
    ));
    assert!(router.calls.is_empty());
}

#[test]
fn evaluating_unknown_or_terminal_orders_fails() {
    let mut ob = initialized_book(0);
    let oracle = FixedOracle { price: Some(50), decs: 0 };
    let mut router = RecordingRouter::filling(1);
    assert_eq!(
        ob.trigger_one(&oracle, &mut router, TICKER, 3, 100, 0, 0, 3600),
        Err(Error::OrderNotFound)
    );
    // an executed order cannot be evaluated again
    let id = ob.create_simple_trigger(OWNER, SELL, BUY, 1000, 100).unwrap();
    assert_eq!(
        ob.trigger_one(&oracle, &mut router, TICKER, id, 100, 0, 0, 3600),
        Ok(())
    );
    assert_eq!(ob.get_order(id).unwrap().status, OrderStatus::Executed);
    assert_eq!(
        ob.trigger_one(&oracle, &mut router, TICKER, id, 100, 0, 0, 3600),
        Err(Error::OrderNotActive)
    );
    // a cancelled order cannot be evaluated either
    let id2 = ob.create_simple_trigger(OWNER, SELL, BUY, 1000, 100).unwrap();
    assert_eq!(ob.cancel_order(OWNER, id2), Ok(()));
    assert_eq!(
        ob.trigger_one(&oracle, &mut router, TICKER, id2, 100, 0, 0, 3600),
        Err(Error::OrderNotActive)
    );
}

#[test]
fn empty_fill_leaves_everything_untouched() {
    let mut ob = initialized_book(0);
    let id = ob.create_simple_trigger(OWNER, SELL, BUY, 1000, 100).unwrap();
    let oracle = FixedOracle { price: Some(95), decs: 0 };
    let mut router = RecordingRouter::empty();
    let events_before = ob.events.len();
    let moves_before = ob.moves.len();
    let r = ob.trigger_one(&oracle, &mut router, TICKER, id, 100, 0, 0, 3600);
    assert_eq!(r, Err(Error::SwapFailed));
    assert_eq!(ob.get_order(id).unwrap().status, OrderStatus::Active);
    assert_eq!(ob.events.len(), events_before);
    assert_eq!(ob.moves.len(), moves_before);
    // the request that got the empty fill is on record, and nothing else
    assert_eq!(ob.swap_requests.len(), 1);
    assert_eq!(router.calls, ob.swap_requests);
    // the caller may retry later; a filling router then settles it
    let mut filling = RecordingRouter::filling(1);
    assert_eq!(
        ob.trigger_one(&oracle, &mut filling, TICKER, id, 100, 0, 0, 3600),
        Ok(())
    );
    assert_eq!(ob.get_order(id).unwrap().status, OrderStatus::Executed);
}

#[test]
fn settlement_output_goes_to_owner_with_bounded_allowance() {
    let mut ob = initialized_book(0);
    let id = ob.create_simple_trigger(OWNER, SELL, BUY, 1000, 100).unwrap();
    let oracle = FixedOracle { price: Some(95), decs: 0 };
    let mut router = RecordingRouter::filling(1);
    // any keeper may call evaluation; the recipient is the owner
    let r = ob.trigger_one(&oracle, &mut router, TICKER, id, 100, 500, 77, 3600);
    assert_eq!(r, Ok(()));
    let req = &router.calls[0];
    assert_eq!(req.amount_in, 1000);
    assert_eq!((req.sell, req.buy), (SELL, BUY));
    assert_eq!(req.to, OWNER);
    assert_eq!(req.deadline, 500 + 3600);
    // the engine's own record matches what the router was handed
    assert_eq!(ob.swap_requests.last(), Some(req));
    assert_eq!(
        ob.moves.last(),
        Some(&FundMove::Authorize {
            spender: ROUTER_ADDR,
            asset: SELL,
            amount: 1000,
            valid_until: 77 + 200,
        })
    );
}

#[test]
fn excessive_slippage_is_rejected() {
    let mut ob = initialized_book(0);
    let id = ob.create_simple_trigger(OWNER, SELL, BUY, 1000, 100).unwrap();
    let oracle = FixedOracle { price: Some(95), decs: 0 };
    let mut router = RecordingRouter::filling(1);
    assert_eq!(
        ob.trigger_one(&oracle, &mut router, TICKER, id, 10_000, 0, 0, 3600),
        Err(Error::InvalidParam)
    );
    assert_eq!(ob.get_order(id).unwrap().status, OrderStatus::Active);
}

#[test]
fn unusable_quotes_fail_price_not_available() {
    let mut ob = initialized_book(0);
    let id = ob.create_simple_trigger(OWNER, SELL, BUY, 1000, 100).unwrap();
    let mut router = RecordingRouter::filling(1);
    let none = FixedOracle { price: None, decs: 0 };
    assert_eq!(
        ob.trigger_one(&none, &mut router, TICKER, id, 100, 0, 0, 3600),
        Err(Error::PriceNotAvailable)
    );
    let zero = FixedOracle { price: Some(0), decs: 0 };
    assert_eq!(
        ob.trigger_one(&zero, &mut router, TICKER, id, 100, 0, 0, 3600),
        Err(Error::PriceNotAvailable)
    );
    let negative = FixedOracle { price: Some(-5), decs: 0 };
    assert_eq!(
        ob.trigger_one(&negative, &mut router, TICKER, id, 100, 0, 0, 3600),
        Err(Error::PriceNotAvailable)
    );
    assert_eq!(ob.get_order(id).unwrap().status, OrderStatus::Active);
    assert!(router.calls.is_empty());
}

#[test]
fn large_products_settle_when_they_fit() {
    // twenty oracle decimals: price_scale = 10^20; amount * px reaches
    // 10^38 — beyond 10^34 but still inside i128 — and settles
    let mut ob = initialized_book(20);
    let amount: i128 = 100_000_000_000_000_000_000; // 10^20
    let px: i128 = 1_000_000_000_000_000_000; // 10^18
    let id = ob.create_simple_trigger(OWNER, SELL, BUY, amount, px).unwrap();
    let oracle = FixedOracle { price: Some(px), decs: 20 };
    let mut router = RecordingRouter::filling(1);
    assert_eq!(ob.trigger_one(&oracle, &mut router, TICKER, id, 100, 0, 0, 3600), Ok(()));
    assert_eq!(ob.get_order(id).unwrap().status, OrderStatus::Executed);
    // quoted = floor(10^20 * 10^18 / 10^20) = 10^18; min = floor(quoted * 9900 / 10000)
    assert_eq!(router.calls[0].min_out, 990_000_000_000_000_000);
}

#[test]
fn get_order_reports_missing_ids() {
    let ob = initialized_book(0);
    assert_eq!(ob.get_order(0), Err(Error::OrderNotFound));
}
