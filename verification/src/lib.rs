//! A conditional-order execution engine: standing sell orders (price
//! triggers and trailing stop-losses) held against escrowed funds, with
//! trigger evaluation against an external price oracle and settlement
//! through an external exchange router.

pub mod engine;
pub mod laws;
pub mod math;
pub mod model;

pub use engine::{OrderBook, PriceOracle, SoroswapRouterTrait};
pub use math::pow10;
pub use model::{
    Address, Config, Error, Event, FundMove, Order, OrderKind, OrderStatus, OrderType, PriceData,
    SwapRequest,
};
