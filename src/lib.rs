//! Translation of trading-strategy signals into exchange actions: the order
//! model, ticker normalisation, the reconciliation state machine and the
//! venue-side decisions of the Hyperliquid adapter.

pub mod engine;
pub mod error;
pub mod hyperliquid;
pub mod ticker;
pub mod types;
