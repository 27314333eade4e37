//! Core of a terminal frame loop: an input normalizer that turns raw key
//! signals into edge-triggered logical events, a two-variant stage state
//! machine, a per-frame scene builder, a renderer cache keyed by the stage's
//! variant, and a compositor that merges map, side-panel and bottom-panel
//! buffers into one root buffer under explicit size constraints.

pub mod buffer;
pub mod game_renderer;
pub mod input;
pub mod rendering;
pub mod scene;
pub mod stage;
pub mod text;
pub mod ui;
