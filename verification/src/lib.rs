//! Verified core of an automated multi-symbol trading agent.
//!
//! Prices, quantities and balances are modelled as unsigned integers counting
//! fixed base units (for example hundredths of a dollar for prices, millionths
//! of a contract for quantities).  A notional value is then a product of a
//! quantity and a price and is counted in quantity-unit times price-unit.
//! Callers pick the scales; every function here is exact over the units.
//!
//! The crate holds the decision logic of the agent: exchange quantization and
//! notional rules, order sizing, selection of an authoritative position,
//! technical indicators over price history, the account-cache read policy and
//! reconnect backoff of the push stream, the per-cycle orchestration rules,
//! and the request signing used by authenticated exchange calls.  All I/O --
//! HTTP, websockets, the decision providers -- lives outside, feeding these
//! functions plain values and acting on their results.

pub mod account;
pub mod constraints;
pub mod execution;
pub mod indicators;
pub mod logging;
pub mod performance;
pub mod pipeline;
pub mod position;
pub mod providers;
pub mod retry;
pub mod signing;
pub mod stream;
pub mod sizing;
pub mod types;
