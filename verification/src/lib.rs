//! Verified core of an algorithmic trading system: market calendar, order
//! routing and position bookkeeping, rule-engine decisions, configuration
//! parsing and the streaming-data bookkeeping.
pub mod clock;
pub mod market;
pub mod text;
pub mod config;
pub mod types;
pub mod broker;
pub mod lightspeed;
pub mod store;
pub mod rules;
pub mod portfolio;
pub mod json;
pub mod stream;
pub mod data;
pub mod polygon;
pub mod metrics;
pub mod web;
pub mod realtime;
pub mod engine;
