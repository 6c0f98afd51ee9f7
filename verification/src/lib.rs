//! A collaborative pixel-canvas service core: a packed canvas bitmap with
//! per-cell color fields, a partitioned durable-store model for per-user
//! cooldown records and per-cell placement history, a broadcast hub that
//! fans accepted placements out to live viewer connections, and the
//! coordinator that ties validation, cooldown and the dual write together.

pub mod canvas;
pub mod codec;
pub mod cooldown;
pub mod errors;
pub mod hub;
pub mod models;
pub mod service;
pub mod store;

pub use errors::VpError;
