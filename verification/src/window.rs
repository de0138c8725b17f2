//! The pixel grid of a window, and where each of its points lies in the
//! buffer that is drawn.
//!
//! Window coordinates are counted from the centre of the window, with `y`
//! growing upward. Buffer coordinates are counted from the top left corner,
//! with rows growing downward.

use crate::error::SceneError;
use vstd::prelude::*;

verus! {

/// A place on a grid of pixels.
#[derive(Clone, Copy, PartialEq, Eq, Structural, Debug)]
pub struct Dot {
    pub x: i32,
    pub y: i32,
}

impl Dot {
    /// The place at column `x` and row `y`.
    pub fn new(x: i32, y: i32) -> (d: Dot)
        ensures
            d == (Dot { x, y }),
    {
        Dot { x, y }
    }
}

/// The pixel grid of a window of a given width and height.
pub struct Window {
    width: u32,
    height: u32,
}

impl Window {
    #[verifier::type_invariant]
    spec fn sized(self) -> bool {
        0 < self.width <= i32::MAX && 0 < self.height <= i32::MAX
    }

    /// The number of columns.
    pub closed spec fn width(self) -> int {
        self.width as int
    }

    /// The number of rows.
    pub closed spec fn height(self) -> int {
        self.height as int
    }

    /// The buffer column of the window column `x`.
    pub open spec fn buffer_x(self, x: int) -> int {
        x + self.width() / 2
    }

    /// The buffer row of the window row `y`.
    pub open spec fn buffer_y(self, y: int) -> int {
        self.height() - (y + self.height() / 2)
    }

    /// Whether the window point `(x, y)` falls on the buffer.
    pub open spec fn on_buffer(self, x: int, y: int) -> bool {
        0 <= self.buffer_x(x) < self.width() && 0 <= self.buffer_y(y) < self.height()
    }

    /// The grid of a window of the given width and height in pixels. Both
    /// must be positive and small enough for a signed coordinate.
    pub fn new(width: u32, height: u32) -> (r: Result<Window, SceneError>)
        ensures
            r is Ok <==> 0 < width <= i32::MAX && 0 < height <= i32::MAX,
            r matches Ok(w) ==> w.width() == width && w.height() == height,
            r matches Err(e) ==> e == SceneError::InvalidConfiguration,
    {
        if width == 0 || width > i32::MAX as u32 || height == 0 || height > i32::MAX as u32 {
            return Err(SceneError::InvalidConfiguration);
        }
        Ok(Window { width, height })
    }

    /// The last column, counted from the centre.
    pub fn get_max_x(&self) -> (x: i32)
        ensures
            x == self.width() / 2,
    {
        proof {
            use_type_invariant(self);
        }
        (self.width / 2) as i32
    }

    /// The first column, counted from the centre.
    pub fn get_min_x(&self) -> (x: i32)
        ensures
            x == -(self.width() / 2),
    {
        proof {
            use_type_invariant(self);
        }
        -((self.width / 2) as i32)
    }

    /// The last row, counted from the centre.
    pub fn get_max_y(&self) -> (y: i32)
        ensures
            y == self.height() / 2,
    {
        proof {
            use_type_invariant(self);
        }
        (self.height / 2) as i32
    }

    /// The first row, counted from the centre.
    pub fn get_min_y(&self) -> (y: i32)
        ensures
            y == -(self.height() / 2),
    {
        proof {
            use_type_invariant(self);
        }
        -((self.height / 2) as i32)
    }

    /// The place in the buffer of a point of the window, which may lie off
    /// the buffer.
    pub fn to_buffer_cord(&self, dot: Dot) -> (r: Dot)
        requires
            i32::MIN <= self.buffer_x(dot.x as int) <= i32::MAX,
            i32::MIN <= self.buffer_y(dot.y as int) <= i32::MAX,
            i32::MIN <= dot.y + self.height() / 2 <= i32::MAX,
        ensures
            r.x == self.buffer_x(dot.x as int),
            r.y == self.buffer_y(dot.y as int),
    {
        proof {
            use_type_invariant(self);
        }
        let width: i32 = self.width as i32;
        let height: i32 = self.height as i32;
        let x = dot.x + width / 2;
        let y = height - (dot.y + height / 2);
        Dot::new(x, y)
    }

    /// The place in the buffer at which the window point `(x, y)` is drawn,
    /// or nothing for a point that falls off the buffer.
    pub fn buffer_point(&self, x: i32, y: i32) -> (r: Option<Dot>)
        ensures
            r == if self.on_buffer(x as int, y as int) {
                Some(Dot { x: self.buffer_x(x as int) as i32, y: self.buffer_y(y as int) as i32 })
            } else {
                None
            },
    {
        proof {
            use_type_invariant(self);
        }
        let half_width: i64 = (self.width / 2) as i64;
        let half_height: i64 = (self.height / 2) as i64;
        let column: i64 = x as i64 + half_width;
        let row: i64 = self.height as i64 - (y as i64 + half_height);
        if column < 0 || column >= self.width as i64 {
            return None;
        }
        if row < 0 || row >= self.height as i64 {
            return None;
        }
        Some(self.to_buffer_cord(Dot::new(x, y)))
    }
}

/// Every place on the buffer is the place of a window point within the
/// window's first and last column, and, in a window of even height, within
/// its first and last row. (In a window of odd height the top row of the
/// buffer belongs to the row above the last.)
pub proof fn lemma_buffer_is_covered(w: Window, column: int, row: int)
    requires
        0 <= column < w.width(),
        0 <= row < w.height(),
    ensures
        ({
            let x = column - w.width() / 2;
            let y = w.height() - row - w.height() / 2;
            &&& w.buffer_x(x) == column
            &&& w.buffer_y(y) == row
            &&& w.on_buffer(x, y)
            &&& -(w.width() / 2) <= x <= w.width() / 2
            &&& -(w.height() / 2) <= y <= w.height() / 2 + 1
            &&& w.height() % 2 == 0 ==> y <= w.height() / 2
        }),
{
}

/// No two window points share a place on the buffer.
pub proof fn lemma_buffer_places_differ(w: Window, x1: int, y1: int, x2: int, y2: int)
    requires
        w.buffer_x(x1) == w.buffer_x(x2),
        w.buffer_y(y1) == w.buffer_y(y2),
    ensures
        x1 == x2,
        y1 == y2,
{
}

} // verus!
