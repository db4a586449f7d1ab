//! Rendering backend for an immediate-mode GUI: it turns the GUI library's
//! per-frame paint jobs into GPU draw plans, keeps the font atlas resident on
//! the GPU, schedules redraws, translates platform input events, and persists
//! window geometry between runs.
//!
//! The crate computes *plans* (draw lists, upload requests, wait policies) as
//! plain data; a thin platform layer executes them against the window system
//! and the GPU.

pub mod backend;
pub mod geometry;
pub mod input;
pub mod painter;
pub mod record;
pub mod storage;
pub mod timing;
pub mod units;
