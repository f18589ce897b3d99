//! Constant-product bonding-curve market maker and a nonce-sequenced service
//! payment protocol, as verified state transitions over plain values.
pub mod agent;
pub mod bonding_curve;
pub mod errors;
pub mod factory;
pub mod fees;
pub mod trade;
pub mod x402;
