//! The values that the cursor layer carries across frames.

use vstd::prelude::*;

use super::cache::{Cache, CacheKey};
use crate::buffer::Cell;
use crate::layout::Position;

verus! {

/// The last known content of every cell, the frame count of the cursor animation, and what has
/// changed about the cursor since it was last drawn.
#[derive(Debug)]
pub struct State {
    /// The last known content of every cell position.
    pub cache: Cache,
    /// The frame count.
    pub ticks: usize,
    /// Whether drawing advances the animation.
    pub blinking: bool,
    /// The position that the cursor has left since it was last drawn, if it has moved.
    pub cursor_position_changed: Option<Position>,
    /// Whether the cursor is hidden.
    pub cursor_hidden: bool,
    /// Present when the cursor has been hidden or shown since it was last drawn.
    pub cursor_hidden_toggled: Option<()>,
    /// Whether the appearance of the cursor has changed since it was last drawn.
    pub cursor_changed: bool,
}

impl State {
    /// Creates the state of a layer that has drawn nothing: an empty cache, frame zero, the
    /// animation not driven by drawing, a visible cursor that has not moved, and an appearance
    /// that is yet to be drawn.
    pub fn new() -> (r: Self)
        ensures
            r.cache@ == Map::<CacheKey, Cell>::empty(),
            r.ticks == 0,
            !r.blinking,
            r.cursor_position_changed is None,
            !r.cursor_hidden,
            r.cursor_hidden_toggled is None,
            r.cursor_changed,
    {
        State {
            cache: Cache::new(),
            ticks: 0,
            blinking: false,
            cursor_position_changed: None,
            cursor_hidden: false,
            cursor_hidden_toggled: None,
            cursor_changed: true,
        }
    }
}

impl Default for State {
    fn default() -> (r: Self)
        ensures
            r.cache@ == Map::<CacheKey, Cell>::empty(),
            r.ticks == 0,
            !r.blinking,
            r.cursor_position_changed is None,
            !r.cursor_hidden,
            r.cursor_hidden_toggled is None,
            r.cursor_changed,
    {
        Self::new()
    }
}

} // verus!
