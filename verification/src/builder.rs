//! Builder for the lookup tables of 256-color palettes, assembled from the 16 named colors (the
//! head), the 6×6×6 color cube (the body), and the grayscale ramp (the tail), in any order.

use vstd::prelude::*;

verus! {

/// Builder for a palette for looking up colors of type `T`, where `T` is the color associated with
/// the draw target for the backend.
///
/// The methods of this type provide a fluent-style interface for building 256-color lookup tables,
/// which are intended to be used for creating [`Ansi256`](crate::color::Palette::Ansi256) palettes
/// without having to keep track of whether a given subset of colors have been initialized. The
/// number `N` of colors added so far tells which of the three parts have been added.
#[derive(Debug, Clone)]
pub struct PaletteBuilder<T, const N: usize>(pub [T; N]);

/// The colors of `s` with the colors of `c` inserted at position `mid`.
pub open spec fn spliced<T>(s: Seq<T>, mid: int, c: Seq<T>) -> Seq<T> {
    s.take(mid) + c + s.skip(mid)
}

impl<T, const N: usize> PaletteBuilder<T, N> {
    /// The colors added so far, in palette order.
    pub open spec fn view(&self) -> Seq<T> {
        self.0@
    }
}

/// Copies the colors of `array` with the colors of `colors` inserted at position `mid` into a new
/// array.
fn splice<T: Copy, const M: usize, const K: usize, const N: usize>(
    array: &[T; M],
    mid: usize,
    colors: &[T; K],
) -> (r: [T; N])
    requires
        M + K == N,
        mid <= M,
        K > 0,
    ensures
        r@ == spliced(array@, mid as int, colors@),
{
    let mut out: [T; N] = [colors[0]; N];
    let mut i: usize = 0;
    while i < N
        invariant
            M + K == N,
            mid <= M,
            0 <= i <= N,
            out@.len() == N,
            forall|j: int| 0 <= j < i ==> out@[j] == spliced(array@, mid as int, colors@)[j],
        decreases N - i,
    {
        let v = if i < mid {
            array[i]
        } else if i < mid + K {
            colors[i - mid]
        } else {
            array[i - K]
        };
        out[i] = v;
        i = i + 1;
    }
    assert(out@ =~= spliced(array@, mid as int, colors@));
    out
}

impl<T: Copy> PaletteBuilder<T, 0> {
    /// Creates a new, empty builder with an empty array of colors having type `T`.
    pub fn new() -> (r: Self)
        ensures
            r@ == Seq::<T>::empty(),
    {
        let r = PaletteBuilder([]);
        assert(r@ =~= Seq::<T>::empty());
        r
    }

    /// Adds the 16 named colors at the start.
    pub fn head(self, colors: &[T; 16]) -> (r: PaletteBuilder<T, 16>)
        ensures
            r@ == spliced(self@, 0, colors@),
    {
        PaletteBuilder(splice(&self.0, 0, colors))
    }

    /// Adds the 216 colors of the color cube after the named colors, if any.
    pub fn body(self, colors: &[T; 216]) -> (r: PaletteBuilder<T, 216>)
        ensures
            r@ == spliced(self@, 0, colors@),
    {
        PaletteBuilder(splice(&self.0, 0, colors))
    }

    /// Adds the 24 colors of the grayscale ramp at the end.
    pub fn tail(self, colors: &[T; 24]) -> (r: PaletteBuilder<T, 24>)
        ensures
            r@ == spliced(self@, 0, colors@),
    {
        PaletteBuilder(splice(&self.0, 0, colors))
    }
}

impl<T: Copy> PaletteBuilder<T, 16> {
    /// Adds the 216 colors of the color cube after the named colors.
    pub fn body(self, colors: &[T; 216]) -> (r: PaletteBuilder<T, 232>)
        ensures
            r@ == spliced(self@, 16, colors@),
    {
        PaletteBuilder(splice(&self.0, 16, colors))
    }

    /// Adds the 24 colors of the grayscale ramp at the end.
    pub fn tail(self, colors: &[T; 24]) -> (r: PaletteBuilder<T, 40>)
        ensures
            r@ == spliced(self@, 16, colors@),
    {
        PaletteBuilder(splice(&self.0, 16, colors))
    }
}

impl<T: Copy> PaletteBuilder<T, 24> {
    /// Adds the 16 named colors at the start.
    pub fn head(self, colors: &[T; 16]) -> (r: PaletteBuilder<T, 40>)
        ensures
            r@ == spliced(self@, 0, colors@),
    {
        PaletteBuilder(splice(&self.0, 0, colors))
    }

    /// Adds the 216 colors of the color cube at the start, before the grayscale ramp.
    pub fn body(self, colors: &[T; 216]) -> (r: PaletteBuilder<T, 240>)
        ensures
            r@ == spliced(self@, 0, colors@),
    {
        PaletteBuilder(splice(&self.0, 0, colors))
    }
}

impl<T: Copy> PaletteBuilder<T, 40> {
    /// Adds the 216 colors of the color cube between the named colors and the grayscale ramp.
    pub fn body(self, colors: &[T; 216]) -> (r: PaletteBuilder<T, 256>)
        ensures
            r@ == spliced(self@, 16, colors@),
    {
        PaletteBuilder(splice(&self.0, 16, colors))
    }
}

impl<T: Copy> PaletteBuilder<T, 216> {
    /// Adds the 16 named colors at the start.
    pub fn head(self, colors: &[T; 16]) -> (r: PaletteBuilder<T, 232>)
        ensures
            r@ == spliced(self@, 0, colors@),
    {
        PaletteBuilder(splice(&self.0, 0, colors))
    }

    /// Adds the 24 colors of the grayscale ramp at the end.
    pub fn tail(self, colors: &[T; 24]) -> (r: PaletteBuilder<T, 240>)
        ensures
            r@ == spliced(self@, 216, colors@),
    {
        PaletteBuilder(splice(&self.0, 216, colors))
    }
}

impl<T: Copy> PaletteBuilder<T, 232> {
    /// Adds the 24 colors of the grayscale ramp at the end.
    pub fn tail(self, colors: &[T; 24]) -> (r: PaletteBuilder<T, 256>)
        ensures
            r@ == spliced(self@, 232, colors@),
    {
        PaletteBuilder(splice(&self.0, 232, colors))
    }
}

impl<T: Copy> PaletteBuilder<T, 240> {
    /// Adds the 16 named colors at the start.
    pub fn head(self, colors: &[T; 16]) -> (r: PaletteBuilder<T, 256>)
        ensures
            r@ == spliced(self@, 0, colors@),
    {
        PaletteBuilder(splice(&self.0, 0, colors))
    }
}

impl<T: Copy> PaletteBuilder<T, 256> {
    /// Consumes the builder, returning the array of colors having type `T`.
    ///
    /// This method is only available after all 256 colors have been added.
    pub fn build(self) -> (r: [T; 256])
        ensures
            r@ == self@,
    {
        self.0
    }
}

impl<T: Copy> Default for PaletteBuilder<T, 0> {
    fn default() -> (r: Self)
        ensures
            r@ == Seq::<T>::empty(),
    {
        Self::new()
    }
}


/// Whatever order the named colors, the color cube, and the grayscale ramp are added in, the built
/// palette holds the named colors at indices `0..16`, the color cube at `16..232`, and the
/// grayscale ramp at `232..256`.
pub proof fn build_order_is_irrelevant<T>(head: Seq<T>, body: Seq<T>, tail: Seq<T>)
    requires
        head.len() == 16,
        body.len() == 216,
        tail.len() == 24,
    ensures
        ({
            let e = Seq::<T>::empty();
            let all = head + body + tail;
            &&& spliced(spliced(spliced(e, 0, head), 16, body), 232, tail) == all
            &&& spliced(spliced(spliced(e, 0, head), 16, tail), 16, body) == all
            &&& spliced(spliced(spliced(e, 0, body), 0, head), 232, tail) == all
            &&& spliced(spliced(spliced(e, 0, body), 216, tail), 0, head) == all
            &&& spliced(spliced(spliced(e, 0, tail), 0, head), 16, body) == all
            &&& spliced(spliced(spliced(e, 0, tail), 0, body), 0, head) == all
        }),
{
    let e = Seq::<T>::empty();
    let all = head + body + tail;
    let h = spliced(e, 0, head);
    let b = spliced(e, 0, body);
    let t = spliced(e, 0, tail);
    assert(h =~= head);
    assert(b =~= body);
    assert(t =~= tail);
    assert(spliced(h, 16, body) =~= head + body);
    assert(spliced(head + body, 232, tail) =~= all);
    assert(spliced(h, 16, tail) =~= head + tail);
    assert(spliced(head + tail, 16, body) =~= all);
    assert(spliced(b, 0, head) =~= head + body);
    assert(spliced(b, 216, tail) =~= body + tail);
    assert(spliced(body + tail, 0, head) =~= all);
    assert(spliced(t, 0, head) =~= head + tail);
    assert(spliced(t, 0, body) =~= body + tail);
}

} // verus!
