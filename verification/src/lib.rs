//! Lum: warmth and brightness that follow the sun.
use vstd::prelude::*;

pub mod appdetect;
pub mod autostart;
pub mod config;
pub mod ddcci;
pub mod engine;
pub mod gamma;
pub mod hotkeys;
pub mod switch;
pub mod text;
pub mod theme;
pub mod tray;

verus! {
} // verus!
