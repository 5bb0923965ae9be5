//! Frame-engine core of an HDR display test viewer: frame-slot fencing,
//! deferred resize, the upload arena, font-atlas streaming, resource-state
//! tracking for the draw and composite passes, the 16:9 viewport, and the
//! page navigation state.
pub mod viewport;
pub mod error;
pub mod arena;
pub mod atlas;
pub mod engine;
pub mod pages;
pub mod app_state;
pub mod adapter;
