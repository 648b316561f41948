//! Verified core of a Ratatui backend that renders fixed-width bitmap fonts onto an
//! `embedded-graphics` draw target: blinking animation cycles, cursor bookkeeping, cell caches,
//! color lookup, and the pixel geometry of cells, cursors, and cleared regions.

pub mod blink;
pub mod builder;
pub mod geometry;
pub mod backend;
pub mod style;
pub mod buffer;
pub mod layout;
pub mod error;
pub mod color;
pub mod wrapper;
pub mod cursor;
