//! The values that the blink layer carries across frames.

use vstd::prelude::*;

use super::cache::Cache;

verus! {

/// The cells set to blink, the frame count of the blinking animations, and whether drawing drives
/// the animations.
#[derive(Debug)]
pub struct State {
    /// The cells that are set to blink, by position.
    pub cache: Cache,
    /// The frame count.
    pub ticks: usize,
    /// Whether drawing advances the animations.
    pub blinking: bool,
}

impl State {
    /// Creates the state of a layer that has drawn nothing: an empty cache, frame zero, and the
    /// animations not driven by drawing.
    pub fn new() -> (r: Self)
        ensures
            r.cache@ == Map::<super::cache::CacheKey, super::cache::CacheItem>::empty(),
            r.cache.items().len() == 0,
            r.ticks == 0,
            !r.blinking,
    {
        State { cache: Cache::new(), ticks: 0, blinking: false }
    }
}

impl Default for State {
    fn default() -> (r: Self)
        ensures
            r.cache@ == Map::<super::cache::CacheKey, super::cache::CacheItem>::empty(),
            r.cache.items().len() == 0,
            r.ticks == 0,
            !r.blinking,
    {
        Self::new()
    }
}

} // verus!
