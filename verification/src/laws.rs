//! Engine-wide laws: properties that relate the public operations to
//! each other and to the state machine, proved once and for all from
//! the operations' contracts and the state's well-formedness.

use vstd::prelude::*;

use crate::engine::{created_post, settle_post, OrderBook};
use crate::model::{cancelled, FundMove, Order, OrderKind, OrderStatus};

verus! {

/// Law: the id a creation returns is strictly greater than every
/// previously issued id. Creation returns `next_order_id`, and in a
/// well-formed book every issued id lies strictly below the counter.
pub proof fn lemma_created_id_exceeds_issued(pre: OrderBook, id: u64)
    requires
        pre.wf(),
        id == pre.next_order_id,
    ensures
        forall|i: int| 0 <= i < pre.orders@.len() ==> (#[trigger] pre.orders@[i]).id < id,
{
}

/// Law: a creation commits exactly one custodial movement — the escrow
/// of the new order's full sell amount, taken from its owner.
pub proof fn lemma_created_escrows_exactly(
    pre: OrderBook,
    post: OrderBook,
    o: Order,
    kind: OrderKind,
)
    requires
        created_post(pre, post, o, kind),
    ensures
        post.moves@.len() == pre.moves@.len() + 1,
        post.moves@.last() == (FundMove::Escrow {
            owner: o.owner,
            asset: o.sell_asset,
            amount: o.amount_to_sell,
        }),
{
}

/// Law: cancellation is final. In the state a successful cancellation
/// leaves, the order is Cancelled, not Active, so by `cancel_order`'s
/// contract a second cancellation of the same order must fail
/// `OrderNotActive`, and no second release of escrow can happen.
pub proof fn lemma_cancel_is_final(pre: OrderBook, post: OrderBook, order_id: u64)
    requires
        pre.has_order(order_id),
        post.orders@ == pre.orders@.update(order_id as int, cancelled(pre.order_at(order_id))),
    ensures
        post.has_order(order_id),
        post.order_at(order_id).status == OrderStatus::Cancelled,
        post.order_at(order_id).status != OrderStatus::Active,
{
}

/// Law: Executed and Cancelled are terminal under evaluation — a
/// settlement, whatever price it evaluated and whatever the router
/// answered, never changes any order that was not Active.
pub proof fn lemma_settle_preserves_terminal(
    pre: OrderBook,
    post: OrderBook,
    order_id: u64,
    px: i128,
    slippage_bps: u32,
    now: u64,
    ledger_seq: u32,
    deadline_seconds: u64,
    r: Result<(), crate::model::Error>,
    j: u64,
)
    requires
        settle_post(pre, post, order_id, px, slippage_bps, now, ledger_seq, deadline_seconds, r),
        pre.has_order(j),
        pre.order_at(j).status != OrderStatus::Active,
    ensures
        post.has_order(j),
        post.order_at(j) == pre.order_at(j),
{
    if r is Err {
        assert(post.orders == pre.orders);
    } else {
        if slippage_bps < 10_000 && pre.has_order(order_id) && pre.order_at(order_id).status
            == OrderStatus::Active {
            assert(j != order_id);
        }
    }
}

/// Law: a trailing order's peak price never decreases across an
/// evaluation, whatever price was quoted and whatever the router
/// answered; a simple trigger carries no peak and is unaffected.
pub proof fn lemma_settle_peak_nondecreasing(
    pre: OrderBook,
    post: OrderBook,
    order_id: u64,
    px: i128,
    slippage_bps: u32,
    now: u64,
    ledger_seq: u32,
    deadline_seconds: u64,
    r: Result<(), crate::model::Error>,
    j: u64,
)
    requires
        settle_post(pre, post, order_id, px, slippage_bps, now, ledger_seq, deadline_seconds, r),
        pre.has_order(j),
    ensures
        post.has_order(j),
        pre.order_at(j).peak_of() <= post.order_at(j).peak_of(),
{
    if r is Err {
        assert(post.orders == pre.orders);
    }
}

/// Law: the swap request of a firing settlement is bound to the order,
/// not to whoever triggered the evaluation — exactly one request is
/// recorded, selling the full escrowed amount along the order's own
/// two-hop path, demanding at least the slippage-bounded minimum
/// output, and paying the order's owner.
pub proof fn lemma_swap_request_bound_to_owner(
    pre: OrderBook,
    post: OrderBook,
    order_id: u64,
    px: i128,
    slippage_bps: u32,
    now: u64,
    ledger_seq: u32,
    deadline_seconds: u64,
    r: Result<(), crate::model::Error>,
)
    requires
        settle_post(pre, post, order_id, px, slippage_bps, now, ledger_seq, deadline_seconds, r),
        slippage_bps < 10_000,
        pre.has_order(order_id),
        pre.order_at(order_id).status == OrderStatus::Active,
        crate::model::fires(pre.order_at(order_id).order_type, px as int),
    ensures
        post.swap_requests@ == pre.swap_requests@.push(
            crate::model::swap_request_of(
                pre.order_at(order_id),
                px as int,
                pre.scale_of(),
                slippage_bps as int,
                (now + deadline_seconds) as u64,
            ),
        ),
        post.swap_requests@.last().to == pre.order_at(order_id).owner,
        post.swap_requests@.last().amount_in == pre.order_at(order_id).amount_to_sell,
        post.swap_requests@.last().sell == pre.order_at(order_id).sell_asset,
        post.swap_requests@.last().buy == pre.order_at(order_id).buy_asset,
{
}

} // verus!
