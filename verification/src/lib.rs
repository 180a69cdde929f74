//! A bilateral, escrow-style asset-swap engine.
//!
//! A maker opens an order by depositing an asset balance and naming the exact
//! balance a taker must deposit in return; any eligible taker closes the order
//! by depositing that balance, which atomically produces the two settlement
//! transfers that exchange the deposits.

pub mod contract;
pub mod error;
pub mod msg;
pub mod state;
