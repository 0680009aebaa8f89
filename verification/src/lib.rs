//! SwiftType: the verified core of a keystroke-interception and
//! text-replacement engine.
//!
//! The library holds the rolling keyword buffer, the snippet matcher with
//! its keyword normalization, the date/time template formatter, and the
//! input-synthesis planner with its fallback chain. The process around it
//! (the OS keyboard hook, the synthetic-input calls, the settings window
//! and the tray icon) lives outside the library and only exchanges plain
//! values with it.

pub mod config;
pub mod keyboard;
pub mod replacement;
pub mod text;
pub mod ui;
pub mod utils;
