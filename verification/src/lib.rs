//! Data-access core of a livestreaming service: read-through caches kept
//! consistent with writes, and slot-capacity bookings that never overbook.

pub mod account;
pub mod booking;
pub mod cache;
pub mod clock;
pub mod config;
pub mod effect;
pub mod entity;
pub mod error;
pub mod flow;
pub mod history;
pub mod icon;
pub mod invalidation;
pub mod policy;
pub mod query;
pub mod response;
pub mod session;
pub mod snapshot;
pub mod statistics;
pub mod store;
pub mod text;
pub mod typed;
