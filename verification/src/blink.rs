//! Types for specifying how to render text that should blink.

use vstd::prelude::*;

use crate::error::AdvanceCursorBlinkingError;

verus! {

/// Blinked state representation. If the inner value is `true`, then text should be hidden, `false`
/// means that text is visible and drawn to the target because it has not _blinked_.
#[derive(Debug, Clone, Copy, PartialEq, Eq, Structural)]
pub struct Blinked(pub bool);

/// Blink animation definition. At the moment, blinking is always a 50%–50% split between frames of
/// text being visible and hidden, where the odd frame is added to the delay, when text is visible.
#[derive(Debug, Clone, Copy)]
pub enum Blink {
    /// A period split into two parts, the first part is a delay before having _blinked_, while the
    /// second one is the remainder of the period, when text has _blinked_.
    Repeat(usize, usize),
}

/// The frame count `n` frames after frame `ticks`, wrapping around.
pub open spec fn tick_after(ticks: usize, n: usize) -> usize {
    if ticks + n > usize::MAX {
        (ticks + n - usize::MAX - 1) as usize
    } else {
        (ticks + n) as usize
    }
}

impl Blink {
    /// The number of frames at the start of the cycle during which text is visible.
    pub open spec fn delay(self) -> int {
        match self {
            Blink::Repeat(delay, _) => delay as int,
        }
    }

    /// The number of frames at the end of the cycle during which text has _blinked_.
    pub open spec fn hidden(self) -> int {
        match self {
            Blink::Repeat(_, blink) => blink as int,
        }
    }

    /// Whether text has _blinked_ in frame `index`: the frame is reduced modulo the period when
    /// the period fits in `usize`, a zero period having _blinked_ in every frame.
    pub open spec fn blinked_at(self, index: int) -> bool {
        let period = self.delay() + self.hidden();
        if period > usize::MAX {
            index >= self.delay()
        } else if period == 0 {
            true
        } else {
            index % period >= self.delay()
        }
    }

    /// Creates a new blink animation cycle with the specified period, where text is first visible,
    /// then hidden for a duration that is half the period, possibly one frame less than the first,
    /// where `period` is a number that measures frame count.
    pub fn with_period(period: usize) -> (result: Self)
        ensures
            result == Blink::Repeat((period - period / 2) as usize, period / 2),
    {
        let blink = period / 2;
        let delay = period - blink;

        Blink::Repeat(delay, blink)
    }

    /// Returns whether text has _blinked_ in a given frame, specified with a zero-based index from
    /// the beginning of the animation cycle, wrapping if greater than or equal to the period.
    pub fn get(&self, index: usize) -> (result: Blinked)
        ensures
            result.0 == self.blinked_at(index as int),
    {
        match *self {
            Blink::Repeat(delay, blink) => {
                if let Some(period) = delay.checked_add(blink) {
                    if let Some(index) = index.checked_rem(period) {
                        Blinked(index >= delay)
                    } else {
                        Blinked(true)
                    }
                } else {
                    Blinked(index >= delay)
                }
            },
        }
    }
}

/// Blinking animation controls. Useful in case a terminal draws a varying number of times per
/// frame, or just more than once per what should count as one frame.
pub trait ControlBlinking {
    /// Returns `true` if drawing also advances the blinking animation every time.
    fn blinking(&self) -> bool;

    /// Starts driving the blinking animation, stepping by one frame at the end of each draw. This
    /// is the default behavior.
    fn start_blinking(&mut self);

    /// Stops the blinking animation being driven by drawing, meaning that the animation needs to
    /// be advanced explicitly every frame.
    fn stop_blinking(&mut self);
}

/// Blinking animation controls for a cursor. Useful for revealing the cursor at its new position
/// whenever it moves.
pub trait ControlCursorBlinking {
    /// Advances the blink animation cycle for the cursor if its _blinked_ state does not match the
    /// specified state, stepping forward until it does, or returning an error if there is no match
    /// in any of the frames.
    fn advance_cursor_blink_to(&mut self, blinked: Blinked) -> Result<(), AdvanceCursorBlinkingError>;
}

/// A cycle made with [`Blink::with_period`] spans exactly `period` frames, of which the visible part
/// is at most one frame longer than the hidden part.
pub proof fn with_period_splits_in_half(period: usize)
    ensures
        ({
            let blink = Blink::Repeat((period - period / 2) as usize, period / 2);
            &&& blink.delay() + blink.hidden() == period
            &&& 0 <= blink.delay() - blink.hidden() <= 1
        }),
{
}

/// Within one cycle of a blink animation, text is visible for the first `delay` frames and has
/// _blinked_ for the remaining frames; the frame after the last one starts the cycle over.
pub proof fn blink_cycle_shape(blink: Blink, index: int)
    requires
        0 < blink.delay() + blink.hidden() <= usize::MAX,
        0 <= index,
    ensures
        index < blink.delay() + blink.hidden() ==> (blink.blinked_at(index) <==> index
            >= blink.delay()),
        blink.blinked_at(index + blink.delay() + blink.hidden()) == blink.blinked_at(index),
{
    let period = blink.delay() + blink.hidden();
    assert((index + period) % period == index % period) by {
        vstd::arithmetic::div_mod::lemma_mod_add_multiples_vanish(index, period);
    }
    if index < period {
        vstd::arithmetic::div_mod::lemma_small_mod(index as nat, period as nat);
    }
}

/// A blink animation with a period of zero frames has _blinked_ in every frame; for a cursor,
/// this is a cursor that is solid on.
pub proof fn zero_period_always_blinked(index: int)
    ensures
        Blink::Repeat(0, 0).blinked_at(index),
{
}

} // verus!
