//! Bridges space-occupancy status endpoints to a message bus: entity-name
//! normalisation, registry construction and per-space change detection.

pub mod config;
pub mod normalize;
pub mod poller;
pub mod registry;
pub mod space;
pub mod status;
