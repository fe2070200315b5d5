//! Verified core of a browser game engine: asset lists, scene layer
//! bookkeeping, keyboard state tracking, colour parsing and the integer
//! side of sprite rendering. The browser glue (WebGL, the script engine,
//! timers) lives outside this crate and hands plain values in and out.

pub mod asset;
pub mod element;
pub mod engine_api;
pub mod game;
pub mod lockable_asset;
pub mod renderer;
pub mod text;
