//! Host diagnostics and a small network probe: unit conversions, exact
//! throughput and latency figures, their two-decimal rendering, and the
//! decision logic that sequences the network measurements.

pub mod fixed;
pub mod host;
pub mod measure;
pub mod probe;
pub mod units;
