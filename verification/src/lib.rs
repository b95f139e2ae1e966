//! A threshold taproot wallet engine: key material, descriptor composition,
//! balance-gated decisions and the drain transaction pipeline.

pub mod balance;
pub mod config;
pub mod descriptor;
pub mod drain;
pub mod engine;
pub mod fee;
pub mod keys;
pub mod network;
pub mod pipeline;
pub mod store;
pub mod text;
