//! A benchmarking harness for algebraic groups.
//!
//! The harness times a fixed battery of micro-operations (scalar addition,
//! point doubling, point addition, scalar-point multiplication, encoding and
//! decoding) over any group that implements [`group::GroupElement`], and
//! reports one wall-clock figure per battery. Five elliptic-curve groups are
//! provided in [`curves`]; their arithmetic is delegated to established
//! curve libraries, and what the proofs in this crate take for granted about
//! those libraries is spelled out on each delegating function.
//!
//! Reading the clock and consuming results are the only effects performed
//! here; printing is left to the caller, who receives the finished lines.

pub mod battery;
pub mod curves;
pub mod driver;
pub mod field;
pub mod group;
pub mod runner;
pub mod timing;
