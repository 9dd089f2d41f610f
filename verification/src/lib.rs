//! Adaptive fan-speed control: a per-device controller that turns a stream of
//! temperature samples into fan-speed requests, together with the value types,
//! backend protocols and configuration rules it is driven by.

pub mod conf;
pub mod config;
pub mod device;
pub mod dnv;
pub mod dsys;
pub mod history;
pub mod karlson;
pub mod pattern;
pub mod policy;
pub mod settings;
pub mod text;
