//! Data model of the order engine: identities, orders, the order state
//! machine, emitted events, custodial fund movements, and the spec-level
//! trigger and settlement arithmetic.

use vstd::prelude::*;

verus! {

/// The largest price (and the largest `amount * price` product) the
/// settlement arithmetic accepts: `i128::MAX / 10_000`, so that a
/// basis-point rescaling of any admitted value still fits an `i128`.
pub const MAX_SCALED: i128 = 17014118346046923173168730371588410;

/// An identity on the ledger: an account, an asset contract, the oracle
/// or the router. The engine only ever compares identities for equality
/// and hands them through, so a plain numeric handle carries all it reads.
#[derive(Clone, Copy, Debug, PartialEq, Eq, Structural)]
pub struct Address {
    pub id: u64,
}

/// A quote from the price oracle: the latest known price at the scale
/// fixed at initialization, and the time it was observed.
#[derive(Clone, Copy, Debug, PartialEq, Eq, Structural)]
pub struct PriceData {
    pub price: i128,
    pub timestamp: u64,
}

/// Failure codes reported by the engine. Every error aborts the whole
/// operation with no committed side effect.
#[derive(Clone, Copy, Debug, PartialEq, Eq, Structural)]
pub enum Error {
    AlreadyInitialized,
    Unauthorized,
    OrderNotFound,
    OrderNotActive,
    InvalidParam,
    PriceNotAvailable,
    SwapFailed,
}

/// The kind of a standing order, with the data that only that kind
/// carries: a fixed trigger threshold, or a trailing distance with the
/// highest price observed so far.
#[derive(Clone, Copy, Debug, PartialEq, Eq, Structural)]
pub enum OrderType {
    SimpleTrigger { trigger_price: i128 },
    TrailingStopLoss { trail_bps: u32, peak_price: i128 },
}

/// Per-order lifecycle: `Active` is initial; `Executed` and `Cancelled`
/// are terminal.
#[derive(Clone, Copy, Debug, PartialEq, Eq, Structural)]
pub enum OrderStatus {
    Active,
    Executed,
    Cancelled,
}

/// One standing sell order. While Active, `amount_to_sell` of
/// `sell_asset` is held in escrow for it.
#[derive(Clone, Copy, Debug, PartialEq, Eq, Structural)]
pub struct Order {
    pub id: u64,
    pub owner: Address,
    pub sell_asset: Address,
    pub buy_asset: Address,
    pub amount_to_sell: i128,
    pub order_type: OrderType,
    pub status: OrderStatus,
}

/// Tag carried by creation events: which kind of order was created.
#[derive(Clone, Copy, Debug, PartialEq, Eq, Structural)]
pub enum OrderKind {
    Simple,
    Trail,
}

/// Externally observable events, appended in order.
#[derive(Clone, Copy, Debug, PartialEq, Eq, Structural)]
pub enum Event {
    Created { owner: Address, order_id: u64, kind: OrderKind },
    Cancelled { owner: Address, order_id: u64 },
    Executed { owner: Address, order_id: u64, price: i128, min_output: i128 },
}

/// Custodial fund movements the engine commits, appended in order: an
/// escrow taken from an owner, a release back to an owner, or a
/// time-bounded spend allowance granted to the router.
#[derive(Clone, Copy, Debug, PartialEq, Eq, Structural)]
pub enum FundMove {
    Escrow { owner: Address, asset: Address, amount: i128 },
    Release { to: Address, asset: Address, amount: i128 },
    Authorize { spender: Address, asset: Address, amount: i128, valid_until: u32 },
}

/// The exact request a firing settlement hands the exchange router:
/// sell `amount_in` (the full escrowed amount) along the two-hop path
/// `[sell, buy]`, pay the proceeds to `to` — always the order's owner,
/// whoever triggered the evaluation — accept no less than `min_out`,
/// and expire at `deadline`.
#[derive(Clone, Copy, Debug, PartialEq, Eq, Structural)]
pub struct SwapRequest {
    pub amount_in: i128,
    pub min_out: i128,
    pub sell: Address,
    pub buy: Address,
    pub to: Address,
    pub deadline: u64,
}

/// Process-wide configuration, set exactly once at initialization.
#[derive(Clone, Copy, Debug, PartialEq, Eq, Structural)]
pub struct Config {
    pub admin: Address,
    pub oracle: Address,
    pub router: Address,
    pub price_scale: i128,
}

impl Order {
    /// Validity of a stored order: positive escrowed amount, a positive
    /// fixed threshold for a simple trigger, and for a trailing order a
    /// trail distance strictly inside (0, 10000) bps with a positive,
    /// arithmetic-safe peak price.
    pub open spec fn wf(self) -> bool {
        &&& self.amount_to_sell > 0
        &&& match self.order_type {
            OrderType::SimpleTrigger { trigger_price } => trigger_price > 0,
            OrderType::TrailingStopLoss { trail_bps, peak_price } => {
                &&& 0 < trail_bps < 10_000
                &&& 1 <= peak_price <= MAX_SCALED
            },
        }
    }

    /// The peak price a trailing order tracks; a simple trigger tracks none.
    pub open spec fn peak_of(self) -> int {
        match self.order_type {
            OrderType::SimpleTrigger { trigger_price } => 0,
            OrderType::TrailingStopLoss { trail_bps, peak_price } => peak_price as int,
        }
    }
}

/// The trailing-stop threshold: the peak price lowered by `trail_bps`
/// basis points, rounded down.
pub open spec fn trail_threshold(peak_price: int, trail_bps: int) -> int {
    peak_price * (10_000 - trail_bps) / 10_000
}

/// Whether an order's condition fires at price `px`. A simple trigger
/// fires at or below its threshold. A trailing stop fires at or below
/// the trailing threshold of its recorded peak; a price above the peak
/// never fires (it raises the peak instead).
pub open spec fn fires(t: OrderType, px: int) -> bool {
    match t {
        OrderType::SimpleTrigger { trigger_price } => px <= trigger_price,
        OrderType::TrailingStopLoss { trail_bps, peak_price } => {
            px <= peak_price && px <= trail_threshold(peak_price as int, trail_bps as int)
        },
    }
}

/// Whether evaluating at `px` raises a trailing order's peak.
pub open spec fn raises_peak(t: OrderType, px: int) -> bool {
    t matches OrderType::TrailingStopLoss { trail_bps, peak_price } && px > peak_price
}

/// The order with its trailing peak replaced by `px`.
pub open spec fn with_peak(o: Order, px: i128) -> Order {
    Order {
        order_type: OrderType::TrailingStopLoss {
            trail_bps: o.order_type->TrailingStopLoss_trail_bps,
            peak_price: px,
        },
        ..o
    }
}

/// The order marked settled.
pub open spec fn executed(o: Order) -> Order {
    Order { status: OrderStatus::Executed, ..o }
}

/// The order marked cancelled.
pub open spec fn cancelled(o: Order) -> Order {
    Order { status: OrderStatus::Cancelled, ..o }
}

/// A freshly created Active simple-trigger record.
pub open spec fn simple_order(
    id: u64,
    owner: Address,
    sell_asset: Address,
    buy_asset: Address,
    amount_to_sell: i128,
    trigger_price: i128,
) -> Order {
    Order {
        id,
        owner,
        sell_asset,
        buy_asset,
        amount_to_sell,
        order_type: OrderType::SimpleTrigger { trigger_price },
        status: OrderStatus::Active,
    }
}

/// A freshly created Active trailing-stop-loss record with its peak at
/// the creation-time price.
pub open spec fn trailing_order(
    id: u64,
    owner: Address,
    sell_asset: Address,
    buy_asset: Address,
    amount_to_sell: i128,
    trail_bps: u32,
    peak_price: i128,
) -> Order {
    Order {
        id,
        owner,
        sell_asset,
        buy_asset,
        amount_to_sell,
        order_type: OrderType::TrailingStopLoss { trail_bps, peak_price },
        status: OrderStatus::Active,
    }
}

/// The output a firing order is quoted at price `px`:
/// `floor(amount_to_sell * px / price_scale)`.
pub open spec fn quoted_output(amount: int, px: int, scale: int) -> int {
    amount * px / scale
}

/// The least acceptable swap output: the quote lowered by the caller's
/// slippage tolerance in basis points, rounded down.
pub open spec fn min_output(quoted: int, slippage_bps: int) -> int {
    quoted * (10_000 - slippage_bps) / 10_000
}

/// The one swap request a settlement of order `o`, fired at price `px`,
/// may hand the router: the full escrowed amount in, the
/// slippage-bounded minimum out, the order's own two-hop path, the
/// order's owner as recipient, and the caller-chosen deadline.
pub open spec fn swap_request_of(
    o: Order,
    px: int,
    scale: int,
    slippage_bps: int,
    deadline: u64,
) -> SwapRequest {
    SwapRequest {
        amount_in: o.amount_to_sell,
        min_out: min_output(quoted_output(o.amount_to_sell as int, px, scale), slippage_bps) as i128,
        sell: o.sell_asset,
        buy: o.buy_asset,
        to: o.owner,
        deadline,
    }
}

} // verus!
