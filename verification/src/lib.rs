//! Message service, connection lifecycle and broadcast fan-out of a small
//! real-time chat backend, as verified decision logic over plain values.

pub mod config;
pub mod connection;
pub mod decimal;
pub mod delivery;
pub mod dispatch;
pub mod local;
pub mod metrics;
pub mod outside;
pub mod payload;
pub mod posting;
pub mod routing;
pub mod run;
pub mod service;
pub mod store;
pub mod text;
pub mod types;
pub mod validation;
