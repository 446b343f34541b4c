//! The order engine: creation, cancellation, trigger evaluation and
//! settlement of standing sell orders, over an explicit in-memory state
//! (configuration, order registry, event log, custodial fund moves).
//!
//! The price oracle and the exchange router are external collaborators,
//! consumed through the `PriceOracle` and `SoroswapRouterTrait`
//! capability traits; nothing is assumed of their behaviour, so every
//! contract here holds for every implementation of them.

use vstd::prelude::*;

use crate::model::{
    cancelled, executed, fires, min_output, quoted_output, raises_peak, swap_request_of, with_peak,
    Address, Config, Error, Event, FundMove, Order, OrderKind, OrderStatus, OrderType, PriceData,
    SwapRequest, MAX_SCALED,
};
use crate::math::{pow10, pow10_sat};

verus! {

/// External price oracle: supplies the latest known quote for a ticker,
/// and its decimal precision (read once, at initialization). Nothing is
/// promised of its answers.
pub trait PriceOracle {
    /// The latest known quote for `oracle_ticker`, or `None` when the
    /// oracle has no quote for it.
    fn lastprice(&self, oracle_ticker: u64) -> Option<PriceData>;

    /// The oracle's reported decimal precision.
    fn decimals(&self) -> u32;
}

/// External exchange router: executes the swap a `SwapRequest`
/// describes — `amount_in` along the path `[sell, buy]` for at least
/// `min_out`, paying `to`, before `deadline`. An empty returned
/// sequence is a failed fill. Nothing is promised of its answers; the
/// engine records in `swap_requests` exactly what it hands over.
pub trait SoroswapRouterTrait {
    fn swap_exact_tokens_for_tokens(&mut self, req: &SwapRequest) -> Vec<i128>;
}

/// The engine's whole state: the one-time configuration, the order
/// registry (order `id` = position in the registry), the monotone id
/// counter, and the committed outputs — observable events, custodial
/// fund movements, and the swap requests handed to the router, all
/// three append-only.
pub struct OrderBook {
    pub config: Option<Config>,
    pub orders: Vec<Order>,
    pub next_order_id: u64,
    pub events: Vec<Event>,
    pub moves: Vec<FundMove>,
    pub swap_requests: Vec<SwapRequest>,
}

impl OrderBook {
    /// Initialization has happened.
    pub open spec fn is_init(self) -> bool {
        self.config is Some
    }

    /// Well-formedness: ids are dense and equal to registry positions,
    /// the counter is the registry length, every stored order is valid,
    /// and the configured price scale is positive.
    pub open spec fn wf(self) -> bool {
        &&& self.next_order_id == self.orders@.len()
        &&& forall|i: int|
            0 <= i < self.orders@.len() ==> (#[trigger] self.orders@[i]).wf()
                && self.orders@[i].id == i
        &&& self.config matches Some(c) ==> c.price_scale >= 1
    }

    /// An order with this id has been issued.
    pub open spec fn has_order(self, order_id: u64) -> bool {
        (order_id as int) < self.orders@.len()
    }

    /// The stored record of an issued order.
    pub open spec fn order_at(self, order_id: u64) -> Order {
        self.orders@[order_id as int]
    }

    /// The configured price scale.
    pub open spec fn scale_of(self) -> int
        recommends
            self.is_init(),
    {
        self.config->Some_0.price_scale as int
    }

    /// The configured router identity.
    pub open spec fn router_of(self) -> Address
        recommends
            self.is_init(),
    {
        self.config->Some_0.router
    }
}

/// What a successful creation commits: the new record appended, the id
/// counter advanced, a creation event, and the escrow of the order's
/// full sell amount from its owner — and nothing else.
pub open spec fn created_post(pre: OrderBook, post: OrderBook, o: Order, kind: OrderKind) -> bool {
    &&& post.config == pre.config
    &&& post.orders@ == pre.orders@.push(o)
    &&& post.next_order_id == pre.next_order_id + 1
    &&& post.events@ == pre.events@.push(
        Event::Created { owner: o.owner, order_id: o.id, kind },
    )
    &&& post.moves@ == pre.moves@.push(
        FundMove::Escrow { owner: o.owner, asset: o.sell_asset, amount: o.amount_to_sell },
    )
    &&& post.swap_requests == pre.swap_requests
}

/// The two states agree on everything but the swap-request log: the
/// frame of a settlement that asked the router and got an empty fill.
pub open spec fn eq_except_swap_requests(pre: OrderBook, post: OrderBook) -> bool {
    &&& post.config == pre.config
    &&& post.orders == pre.orders
    &&& post.next_order_id == pre.next_order_id
    &&& post.events == pre.events
    &&& post.moves == pre.moves
}

/// What a firing settlement commits: the order marked Executed, a
/// settlement event carrying the evaluated price and the computed
/// minimum output, and a time-bounded allowance over exactly the
/// escrowed amount granted to the configured router — and nothing else.
pub open spec fn executed_post(
    pre: OrderBook,
    post: OrderBook,
    order_id: u64,
    px: i128,
    slippage_bps: u32,
    ledger_seq: u32,
) -> bool {
    let o = pre.order_at(order_id);
    let m = min_output(
        quoted_output(o.amount_to_sell as int, px as int, pre.scale_of()),
        slippage_bps as int,
    );
    &&& post.orders@ == pre.orders@.update(order_id as int, executed(o))
    &&& post.events@ == pre.events@.push(
        Event::Executed { owner: o.owner, order_id, price: px, min_output: m as i128 },
    )
    &&& post.moves@ == pre.moves@.push(
        FundMove::Authorize {
            spender: pre.router_of(),
            asset: o.sell_asset,
            amount: o.amount_to_sell,
            valid_until: (ledger_seq + 200) as u32,
        },
    )
}

/// Evaluation of an Active order at price `px`. If the condition does
/// not fire, the router is never asked and the only committed change is
/// a trailing peak raise (no event, no fund move). If it fires, exactly
/// one request — full escrowed amount in, slippage-bounded minimum out,
/// the order's own path, its owner as recipient, the caller's deadline
/// — is handed to the router and recorded; then either the swap filled
/// and the executed transition is committed, or the fill was empty and
/// nothing beyond the recorded request is committed (`SwapFailed`).
pub open spec fn settle_active_post(
    pre: OrderBook,
    post: OrderBook,
    order_id: u64,
    px: i128,
    slippage_bps: u32,
    now: u64,
    ledger_seq: u32,
    deadline_seconds: u64,
    r: Result<(), Error>,
) -> bool {
    let o = pre.order_at(order_id);
    if fires(o.order_type, px as int) {
        &&& post.swap_requests@ == pre.swap_requests@.push(
            swap_request_of(
                o,
                px as int,
                pre.scale_of(),
                slippage_bps as int,
                (now + deadline_seconds) as u64,
            ),
        )
        &&& {
            ||| (r == Ok::<(), Error>(()) && executed_post(
                pre,
                post,
                order_id,
                px,
                slippage_bps,
                ledger_seq,
            ))
            ||| (r == Err::<(), Error>(Error::SwapFailed) && eq_except_swap_requests(pre, post))
        }
    } else {
        &&& r == Ok::<(), Error>(())
        &&& post.events == pre.events
        &&& post.moves == pre.moves
        &&& post.swap_requests == pre.swap_requests
        &&& if raises_peak(o.order_type, px as int) {
            post.orders@ == pre.orders@.update(order_id as int, with_peak(o, px))
        } else {
            post == pre
        }
    }
}

/// The whole settlement relation, for any outcome: exact error
/// discrimination, no committed change on any error (beyond the record
/// of a request the router answered with an empty fill), and the
/// evaluation semantics on an Active order.
pub open spec fn settle_post(
    pre: OrderBook,
    post: OrderBook,
    order_id: u64,
    px: i128,
    slippage_bps: u32,
    now: u64,
    ledger_seq: u32,
    deadline_seconds: u64,
    r: Result<(), Error>,
) -> bool {
    &&& post.config == pre.config
    &&& post.next_order_id == pre.next_order_id
    &&& (r is Err && r != Err::<(), Error>(Error::SwapFailed) ==> post == pre)
    &&& (r is Err ==> eq_except_swap_requests(pre, post))
    &&& (r is Err ==> r == Err::<(), Error>(Error::InvalidParam) || r == Err::<(), Error>(
        Error::OrderNotFound,
    ) || r == Err::<(), Error>(Error::OrderNotActive) || r == Err::<(), Error>(Error::SwapFailed))
    &&& (r == Err::<(), Error>(Error::InvalidParam) <==> slippage_bps >= 10_000)
    &&& (r == Err::<(), Error>(Error::OrderNotFound) <==> slippage_bps < 10_000 && !pre.has_order(
        order_id,
    ))
    &&& (r == Err::<(), Error>(Error::OrderNotActive) <==> slippage_bps < 10_000 && pre.has_order(
        order_id,
    ) && pre.order_at(order_id).status != OrderStatus::Active)
    &&& (slippage_bps < 10_000 && pre.has_order(order_id) && pre.order_at(order_id).status
        == OrderStatus::Active ==> settle_active_post(
        pre,
        post,
        order_id,
        px,
        slippage_bps,
        now,
        ledger_seq,
        deadline_seconds,
        r,
    ))
}

impl OrderBook {
    /// A fresh, uninitialized engine with no orders, no events, no fund
    /// movements and no swap requests.
    pub fn new() -> (ob: OrderBook)
        ensures
            ob.wf(),
            !ob.is_init(),
            ob.orders@.len() == 0,
            ob.next_order_id == 0,
            ob.events@.len() == 0,
            ob.moves@.len() == 0,
            ob.swap_requests@.len() == 0,
    {
        OrderBook {
            config: None,
            orders: Vec::new(),
            next_order_id: 0,
            events: Vec::new(),
            moves: Vec::new(),
            swap_requests: Vec::new(),
        }
    }

    /// One-time setup: fixes the admin, the oracle and router
    /// identities, and the price scale `10^d` where `d` is the decimal
    /// precision the oracle reports. A second call fails
    /// `AlreadyInitialized` and changes nothing.
    pub fn initialize<O: PriceOracle>(
        &mut self,
        oracle: &O,
        admin: Address,
        oracle_address: Address,
        router_address: Address,
    ) -> (r: Result<(), Error>)
        requires
            old(self).wf(),
        ensures
            final(self).wf(),
            (r == Err::<(), Error>(Error::AlreadyInitialized) <==> old(self).is_init()),
            (r is Ok <==> !old(self).is_init()),
            r is Err ==> *final(self) == *old(self),
            r is Ok ==> {
                &&& final(self).config matches Some(c)
                &&& c.admin == admin
                &&& c.oracle == oracle_address
                &&& c.router == router_address
                &&& exists|d: nat| c.price_scale == #[trigger] pow10_sat(d)
                &&& final(self).orders == old(self).orders
                &&& final(self).next_order_id == old(self).next_order_id
                &&& final(self).events == old(self).events
                &&& final(self).moves == old(self).moves
                &&& final(self).swap_requests == old(self).swap_requests
            },
    {
        if self.config.is_some() {
            return Err(Error::AlreadyInitialized);
        }
        let dec = oracle.decimals();
        let scale = pow10(dec);
        self.config = Some(
            Config { admin, oracle: oracle_address, router: router_address, price_scale: scale },
        );
        proof {
            assert(self.config->Some_0.price_scale == pow10_sat(dec as nat));
        }
        Ok(())
    }

    /// Creates an Active simple-trigger order: validates the parameters,
    /// escrows the full sell amount from `owner`, stores the record
    /// under the next id, advances the counter and emits the creation
    /// event. Returns the new id. Proof that the caller is `owner` is
    /// the adapter's concern, established before this is reached.
    pub fn create_simple_trigger(
        &mut self,
        owner: Address,
        sell_asset: Address,
        buy_asset: Address,
        amount_to_sell: i128,
        trigger_price: i128,
    ) -> (r: Result<u64, Error>)
        requires
            old(self).wf(),
            old(self).is_init(),
            old(self).next_order_id < u64::MAX,
        ensures
            final(self).wf(),
            final(self).is_init(),
            (r == Err::<u64, Error>(Error::InvalidParam) <==> amount_to_sell <= 0 || trigger_price
                <= 0),
            r is Err ==> *final(self) == *old(self),
            r is Ok <==> amount_to_sell > 0 && trigger_price > 0,
            r is Ok ==> r == Ok::<u64, Error>(old(self).next_order_id) && created_post(
                *old(self),
                *final(self),
                crate::model::simple_order(
                    old(self).next_order_id,
                    owner,
                    sell_asset,
                    buy_asset,
                    amount_to_sell,
                    trigger_price,
                ),
                OrderKind::Simple,
            ),
    {
        if amount_to_sell <= 0 || trigger_price <= 0 {
            return Err(Error::InvalidParam);
        }
        let id: u64 = self.next_order_id;
        let o = Order {
            id,
            owner,
            sell_asset,
            buy_asset,
            amount_to_sell,
            order_type: OrderType::SimpleTrigger { trigger_price },
            status: OrderStatus::Active,
        };
        self.orders.push(o);
        self.next_order_id = id + 1;
        self.moves.push(FundMove::Escrow { owner, asset: sell_asset, amount: amount_to_sell });
        self.events.push(Event::Created { owner, order_id: id, kind: OrderKind::Simple });
        Ok(id)
    }

    /// Creates an Active trailing-stop-loss order: validates the
    /// parameters, reads the current price of `oracle_ticker` as the
    /// initial peak, escrows the full sell amount, stores the record and
    /// emits the creation event. A missing quote — or one outside the
    /// positive range the settlement arithmetic accepts — fails
    /// `PriceNotAvailable` and changes nothing.
    pub fn create_trailing_stop_loss<O: PriceOracle>(
        &mut self,
        oracle: &O,
        owner: Address,
        sell_asset: Address,
        buy_asset: Address,
        amount_to_sell: i128,
        trail_bps: u32,
        oracle_ticker: u64,
    ) -> (r: Result<u64, Error>)
        requires
            old(self).wf(),
            old(self).is_init(),
            old(self).next_order_id < u64::MAX,
        ensures
            final(self).wf(),
            final(self).is_init(),
            (r == Err::<u64, Error>(Error::InvalidParam) <==> amount_to_sell <= 0 || trail_bps == 0
                || trail_bps >= 10_000),
            r is Err ==> *final(self) == *old(self),
            r is Err ==> r == Err::<u64, Error>(Error::InvalidParam) || r == Err::<u64, Error>(
                Error::PriceNotAvailable,
            ),
            r is Ok ==> r == Ok::<u64, Error>(old(self).next_order_id) && exists|px: i128|
                1 <= px <= MAX_SCALED && created_post(
                    *old(self),
                    *final(self),
                    #[trigger] crate::model::trailing_order(
                        old(self).next_order_id,
                        owner,
                        sell_asset,
                        buy_asset,
                        amount_to_sell,
                        trail_bps,
                        px,
                    ),
                    OrderKind::Trail,
                ),
    {
        if amount_to_sell <= 0 || trail_bps == 0 || trail_bps >= 10_000 {
            return Err(Error::InvalidParam);
        }
        let quote = oracle.lastprice(oracle_ticker);
        let px: i128 = match quote {
            None => {
                return Err(Error::PriceNotAvailable);
            },
            Some(q) => q.price,
        };
        if px < 1 || px > MAX_SCALED {
            return Err(Error::PriceNotAvailable);
        }
        let id: u64 = self.next_order_id;
        let o = Order {
            id,
            owner,
            sell_asset,
            buy_asset,
            amount_to_sell,
            order_type: OrderType::TrailingStopLoss { trail_bps, peak_price: px },
            status: OrderStatus::Active,
        };
        self.orders.push(o);
        self.next_order_id = id + 1;
        self.moves.push(FundMove::Escrow { owner, asset: sell_asset, amount: amount_to_sell });
        self.events.push(Event::Created { owner, order_id: id, kind: OrderKind::Trail });
        proof {
            assert(o == crate::model::trailing_order(
                old(self).next_order_id,
                owner,
                sell_asset,
                buy_asset,
                amount_to_sell,
                trail_bps,
                px,
            ));
        }
        Ok(id)
    }

    /// Cancels an Active order owned by `owner`: releases the full
    /// escrowed amount back to the owner, marks the record Cancelled —
    /// a terminal state — and emits the cancellation event. Exactly one
    /// release ever happens per order. Proof that the caller is `owner`
    /// is the adapter's concern; a mismatch with the record's owner
    /// still fails `Unauthorized` here.
    pub fn cancel_order(&mut self, owner: Address, order_id: u64) -> (r: Result<(), Error>)
        requires
            old(self).wf(),
            old(self).is_init(),
        ensures
            final(self).wf(),
            final(self).is_init(),
            (r == Err::<(), Error>(Error::OrderNotFound) <==> !old(self).has_order(order_id)),
            (r == Err::<(), Error>(Error::Unauthorized) <==> old(self).has_order(order_id) && old(
                self,
            ).order_at(order_id).owner != owner),
            (r == Err::<(), Error>(Error::OrderNotActive) <==> old(self).has_order(order_id) && old(
                self,
            ).order_at(order_id).owner == owner && old(self).order_at(order_id).status
                != OrderStatus::Active),
            (r is Ok <==> old(self).has_order(order_id) && old(self).order_at(order_id).owner
                == owner && old(self).order_at(order_id).status == OrderStatus::Active),
            r is Err ==> *final(self) == *old(self),
            r is Ok ==> {
                let o = old(self).order_at(order_id);
                &&& final(self).config == old(self).config
                &&& final(self).next_order_id == old(self).next_order_id
                &&& final(self).orders@ == old(self).orders@.update(order_id as int, cancelled(o))
                &&& final(self).moves@ == old(self).moves@.push(
                    FundMove::Release { to: owner, asset: o.sell_asset, amount: o.amount_to_sell },
                )
                &&& final(self).events@ == old(self).events@.push(
                    Event::Cancelled { owner, order_id },
                )
                &&& final(self).swap_requests == old(self).swap_requests
            },
    {
        let n = self.orders.len();
        if order_id >= n as u64 {
            return Err(Error::OrderNotFound);
        }
        let idx = order_id as usize;
        let o: Order = self.orders[idx];
        if o.owner != owner {
            return Err(Error::Unauthorized);
        }
        if o.status != OrderStatus::Active {
            return Err(Error::OrderNotActive);
        }
        self.orders.set(idx, Order { status: OrderStatus::Cancelled, ..o });
        self.moves.push(
            FundMove::Release { to: owner, asset: o.sell_asset, amount: o.amount_to_sell },
        );
        self.events.push(Event::Cancelled { owner, order_id });
        Ok(())
    }

    /// Whether the order's condition fires at `px` — the executable
    /// counterpart of the `fires` spec.
    fn fires_at(o: &Order, px: i128) -> (r: bool)
        requires
            o.wf(),
            1 <= px,
        ensures
            r == fires(o.order_type, px as int),
    {
        match o.order_type {
            OrderType::SimpleTrigger { trigger_price } => px <= trigger_price,
            OrderType::TrailingStopLoss { trail_bps, peak_price } => {
                if px > peak_price {
                    false
                } else {
                    assert(0 <= peak_price * (10_000 - trail_bps as i128) <= MAX_SCALED * 10_000)
                        by (nonlinear_arith)
                        requires
                            1 <= peak_price <= MAX_SCALED,
                            0 < trail_bps < 10_000,
                    ;
                    px <= peak_price * (10_000 - trail_bps as i128) / 10_000
                }
            },
        }
    }

    /// Evaluates one Active order against the price `px` and settles it
    /// if its condition fires: grants the configured router a
    /// time-bounded allowance over exactly the escrowed amount, hands it
    /// one recorded request — escrowed amount in, slippage-bounded
    /// minimum out, the order's owner as recipient — and commits the
    /// Executed transition only on a non-empty fill. An empty fill fails
    /// `SwapFailed` with nothing committed beyond the recorded request.
    /// A non-firing evaluation commits at most a trailing peak raise.
    /// The preconditions on `px` are exactly what keeps the settlement
    /// arithmetic inside `i128`; `trigger_one` establishes them from a
    /// live quote.
    pub fn settle<R: SoroswapRouterTrait>(
        &mut self,
        router: &mut R,
        order_id: u64,
        px: i128,
        slippage_bps: u32,
        now: u64,
        ledger_seq: u32,
        deadline_seconds: u64,
    ) -> (r: Result<(), Error>)
        requires
            old(self).wf(),
            old(self).is_init(),
            1 <= px,
            old(self).has_order(order_id) && old(self).order_at(order_id).status
                == OrderStatus::Active ==> {
                let o = old(self).order_at(order_id);
                &&& (o.order_type is TrailingStopLoss ==> px <= MAX_SCALED)
                &&& (slippage_bps < 10_000 && fires(o.order_type, px as int) ==> {
                    &&& o.amount_to_sell * px <= i128::MAX
                    &&& quoted_output(o.amount_to_sell as int, px as int, old(self).scale_of()) * (
                    10_000 - slippage_bps as int) <= i128::MAX
                })
            },
            now + deadline_seconds <= u64::MAX,
            ledger_seq + 200 <= u32::MAX,
        ensures
            final(self).wf(),
            final(self).is_init(),
            settle_post(
                *old(self),
                *final(self),
                order_id,
                px,
                slippage_bps,
                now,
                ledger_seq,
                deadline_seconds,
                r,
            ),
    {
        if slippage_bps >= 10_000 {
            return Err(Error::InvalidParam);
        }
        let n = self.orders.len();
        if order_id >= n as u64 {
            return Err(Error::OrderNotFound);
        }
        let idx = order_id as usize;
        let o: Order = self.orders[idx];
        if o.status != OrderStatus::Active {
            return Err(Error::OrderNotActive);
        }
        proof {
            assert(old(self).orders@[order_id as int].wf());
        }
        let scale = self.config.unwrap().price_scale;
        let mut fire = false;
        match o.order_type {
            OrderType::SimpleTrigger { trigger_price } => {
                if px <= trigger_price {
                    fire = true;
                }
            },
            OrderType::TrailingStopLoss { trail_bps, peak_price } => {
                if px > peak_price {
                    let upd = Order {
                        order_type: OrderType::TrailingStopLoss { trail_bps, peak_price: px },
                        ..o
                    };
                    self.orders.set(idx, upd);
                    proof {
                        assert(upd == with_peak(o, px));
                        assert forall|i: int|
                            0 <= i < self.orders@.len() implies (#[trigger] self.orders@[i]).wf()
                            && self.orders@[i].id == i by {
                            if i != order_id as int {
                                assert(self.orders@[i] == old(self).orders@[i]);
                            }
                        }
                    }
                    return Ok(());
                } else {
                    assert(0 <= peak_price * (10_000 - trail_bps as i128) <= MAX_SCALED * 10_000)
                        by (nonlinear_arith)
                        requires
                            1 <= peak_price <= MAX_SCALED,
                            0 < trail_bps < 10_000,
                    ;
                    let th = peak_price * (10_000 - trail_bps as i128) / 10_000;
                    if px <= th {
                        fire = true;
                    }
                }
            },
        }
        if !fire {
            return Ok(());
        }
        assert(fires(o.order_type, px as int));
        assert(0 <= o.amount_to_sell * px) by (nonlinear_arith)
            requires
                1 <= o.amount_to_sell,
                1 <= px,
        ;
        let prod = o.amount_to_sell * px;
        assert(0 <= prod / scale) by (nonlinear_arith)
            requires
                0 <= prod,
                1 <= scale,
        ;
        let quoted = prod / scale;
        let rem = 10_000 - slippage_bps as i128;
        assert(0 <= quoted * rem) by (nonlinear_arith)
            requires
                0 <= quoted,
                0 <= rem,
        ;
        let min_out = quoted * rem / 10_000;
        let req = SwapRequest {
            amount_in: o.amount_to_sell,
            min_out,
            sell: o.sell_asset,
            buy: o.buy_asset,
            to: o.owner,
            deadline: now + deadline_seconds,
        };
        self.swap_requests.push(req);
        proof {
            assert(req == swap_request_of(
                o,
                px as int,
                old(self).scale_of(),
                slippage_bps as int,
                (now + deadline_seconds) as u64,
            ));
        }
        let amounts = router.swap_exact_tokens_for_tokens(&req);
        if amounts.len() == 0 {
            return Err(Error::SwapFailed);
        }
        let router_addr = self.config.unwrap().router;
        self.orders.set(idx, Order { status: OrderStatus::Executed, ..o });
        self.events.push(
            Event::Executed { owner: o.owner, order_id, price: px, min_output: min_out },
        );
        self.moves.push(
            FundMove::Authorize {
                spender: router_addr,
                asset: o.sell_asset,
                amount: o.amount_to_sell,
                valid_until: ledger_seq + 200,
            },
        );
        proof {
            assert forall|i: int|
                0 <= i < self.orders@.len() implies (#[trigger] self.orders@[i]).wf()
                && self.orders@[i].id == i by {
                if i != order_id as int {
                    assert(self.orders@[i] == old(self).orders@[i]);
                }
            }
        }
        Ok(())
    }

    /// Evaluates and settles one order against the oracle's current
    /// quote for `oracle_ticker`. Deliberately callable by anyone — a
    /// keeper gains no custody, because the swap request is hard-wired
    /// to pay the order's owner. A missing quote, a non-positive one, or
    /// one under which the order would fire but the settlement
    /// arithmetic could not fit an `i128` (where the original ledger
    /// arithmetic would trap), fails `PriceNotAvailable` and changes
    /// nothing; otherwise the outcome is exactly a settlement at some
    /// positive quoted price.
    pub fn trigger_one<O: PriceOracle, R: SoroswapRouterTrait>(
        &mut self,
        oracle: &O,
        router: &mut R,
        oracle_ticker: u64,
        order_id: u64,
        slippage_bps: u32,
        now: u64,
        ledger_seq: u32,
        deadline_seconds: u64,
    ) -> (r: Result<(), Error>)
        requires
            old(self).wf(),
            old(self).is_init(),
            now + deadline_seconds <= u64::MAX,
            ledger_seq + 200 <= u32::MAX,
        ensures
            final(self).wf(),
            final(self).is_init(),
            final(self).config == old(self).config,
            final(self).next_order_id == old(self).next_order_id,
            r is Err ==> final(self).orders == old(self).orders && final(self).events == old(
                self,
            ).events && final(self).moves == old(self).moves,
            r == Err::<(), Error>(Error::PriceNotAvailable) ==> *final(self) == *old(self),
            r != Err::<(), Error>(Error::PriceNotAvailable) ==> exists|px: i128|
                1 <= px && #[trigger] settle_post(
                    *old(self),
                    *final(self),
                    order_id,
                    px,
                    slippage_bps,
                    now,
                    ledger_seq,
                    deadline_seconds,
                    r,
                ),
    {
        let quote = oracle.lastprice(oracle_ticker);
        let px: i128 = match quote {
            None => {
                return Err(Error::PriceNotAvailable);
            },
            Some(q) => q.price,
        };
        if px < 1 {
            return Err(Error::PriceNotAvailable);
        }
        let n = self.orders.len();
        if order_id < n as u64 {
            let o: Order = self.orders[order_id as usize];
            proof {
                assert(old(self).orders@[order_id as int].wf());
            }
            if o.status == OrderStatus::Active {
                match o.order_type {
                    OrderType::SimpleTrigger { .. } => {},
                    OrderType::TrailingStopLoss { .. } => {
                        if px > MAX_SCALED {
                            return Err(Error::PriceNotAvailable);
                        }
                    },
                }
                if slippage_bps < 10_000 && Self::fires_at(&o, px) {
                    if o.amount_to_sell > i128::MAX / px {
                        return Err(Error::PriceNotAvailable);
                    }
                    assert(o.amount_to_sell * px <= i128::MAX) by (nonlinear_arith)
                        requires
                            1 <= px,
                            0 <= o.amount_to_sell,
                            o.amount_to_sell <= i128::MAX / px,
                    ;
                    let prod = o.amount_to_sell * px;
                    let scale = self.config.unwrap().price_scale;
                    assert(0 <= prod / scale) by (nonlinear_arith)
                        requires
                            0 <= prod,
                            1 <= scale,
                    ;
                    let quoted = prod / scale;
                    let rem = 10_000 - slippage_bps as i128;
                    if quoted > i128::MAX / rem {
                        return Err(Error::PriceNotAvailable);
                    }
                    assert(quoted * rem <= i128::MAX) by (nonlinear_arith)
                        requires
                            1 <= rem,
                            0 <= quoted,
                            quoted <= i128::MAX / rem,
                    ;
                }
            }
        }
        let r = self.settle(router, order_id, px, slippage_bps, now, ledger_seq, deadline_seconds);
        proof {
            assert(settle_post(
                *old(self),
                *self,
                order_id,
                px,
                slippage_bps,
                now,
                ledger_seq,
                deadline_seconds,
                r,
            ));
        }
        r
    }

    /// Reads the stored record of an order.
    pub fn get_order(&self, order_id: u64) -> (r: Result<Order, Error>)
        ensures
            (r is Ok <==> self.has_order(order_id)),
            r is Ok ==> r == Ok::<Order, Error>(self.order_at(order_id)),
            r is Err ==> r == Err::<Order, Error>(Error::OrderNotFound),
    {
        let n = self.orders.len();
        if order_id >= n as u64 {
            return Err(Error::OrderNotFound);
        }
        Ok(self.orders[order_id as usize])
    }
}

} // verus!
