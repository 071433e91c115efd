use vstd::prelude::*;

verus! {

/// An axis-aligned rectangle given by two corners, `(x1, y1)` and `(x2, y2)`.
///
/// No ordering between the corners is required: an inverted or empty
/// rectangle is carried through as it is.
#[derive(Clone, Copy, Debug, PartialEq, Eq)]
pub struct Rect<T> {
    pub x1: T,
    pub y1: T,
    pub x2: T,
    pub y2: T,
}

impl<T> Rect<T> {
    pub fn new(x1: T, y1: T, x2: T, y2: T) -> (r: Rect<T>)
        ensures
            r == (Rect { x1, y1, x2, y2 }),
    {
        Rect { x1, y1, x2, y2 }
    }
}

impl Rect<i32> {
    /// Whether both corners lie in `[0, w] x [0, h]`.
    pub open spec fn within(self, w: int, h: int) -> bool {
        &&& 0 <= self.x1 <= w
        &&& 0 <= self.x2 <= w
        &&& 0 <= self.y1 <= h
        &&& 0 <= self.y2 <= h
    }
}

/// An exact fraction `num / den`, used for normalized texture coordinates.
#[derive(Clone, Copy, Debug, PartialEq, Eq, Structural)]
pub struct Frac {
    pub num: i32,
    pub den: u32,
}

impl Frac {
    /// Whether the fraction is defined and lies in `[0, 1]`.
    pub open spec fn in_unit(self) -> bool {
        0 < self.den && 0 <= self.num <= self.den
    }

    /// Whether the fraction equals `a / b`.
    pub open spec fn equals(self, a: int, b: int) -> bool {
        self.num * b == a * self.den
    }
}

/// A vertex of the sprite mesh: a position `(x, y)` with depth `z`, and a
/// texture coordinate `(u, v)` normalized by the texture's size.
#[derive(Clone, Copy, Debug, PartialEq, Eq)]
pub struct Vertex<D, Z> {
    pub x: D,
    pub y: D,
    pub z: Z,
    pub u: Frac,
    pub v: Frac,
}

} // verus!
