//! Graphics bootstrap core: surface negotiation, the graphics context's size
//! and configuration state, and the decisions of the per-frame loop.
//!
//! The library holds no GPU or window handle. The caller owns those, feeds
//! the library plain values (sizes, capability lists, events, render
//! outcomes) and carries out the actions that the library answers with.

pub mod format;
pub mod surface;
pub mod event;
pub mod context;
pub mod driver;
pub mod trace;
