//! Core of a brokerage trading gateway: session lifecycle, live-price cache,
//! best-performer ranking and order execution, each with verified contracts.

pub mod checksum;
pub mod market_data;
pub mod order;
pub mod ranking;
pub mod reconnect;
pub mod responses;
pub mod session;
mod text;
