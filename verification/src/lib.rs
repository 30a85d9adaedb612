//! A constant-product exchange engine with pooled reserves, liquidity
//! accounting and an administrative gate, written for a Soroban host.
//!
//! Every operation is a function from the engine's state and plain arguments
//! to a new state and the instructions (asset transfers, an event) that the
//! surrounding contract carries out afterwards. The state is mutated before
//! any instruction is handed out, so a transfer never observes stale reserves.

pub mod address;
pub mod dex;
pub mod error;
pub mod host;
pub mod laws;
pub mod model;
pub mod picoin;
pub mod pricing;
pub mod state;
pub mod tally;
pub mod wide;

pub use address::Address;
pub use dex::{DEXEvent, Party, Settlement, Transfer, DEX};
pub use error::DEXError;
pub use model::{DexModel, Pool};
pub use picoin::{CoinAction, PiCoin, PiCoinError, PiCoinEvent, PiCoinState};
pub use state::DEXState;
