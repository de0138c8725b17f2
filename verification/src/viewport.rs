//! The image plane through which rays are cast.

use crate::error::SceneError;
use crate::scalar::Scalar;
use crate::vector::Vector;
use vstd::prelude::*;

verus! {

/// A square image plane of side `size`, at distance `size` in front of the
/// camera, with the steps by which one pixel moves a point on it.
#[derive(Clone, Copy, PartialEq, Eq, Structural, Debug)]
pub struct Viewport {
    pub size: Scalar,
    pub width_coeff: Scalar,
    pub height_coeff: Scalar,
}

impl Viewport {
    /// The point of the plane that the pixel `(x, y)` of the window looks
    /// through.
    pub open spec fn project(self, x: int, y: int) -> Vector {
        Vector {
            x: self.width_coeff.product(Scalar::whole(x)),
            y: self.height_coeff.product(Scalar::whole(y)),
            z: self.size,
        }
    }

    /// The viewport of side `size` for a window of the given width and
    /// height in pixels. All three must be positive.
    pub fn new(size: Scalar, window_width: u32, window_height: u32) -> (r: Result<
        Viewport,
        SceneError,
    >)
        ensures
            r is Ok <==> size.raw > 0 && window_width > 0 && window_height > 0,
            r matches Ok(v) ==> v == (Viewport {
                size,
                width_coeff: size.ratio(Scalar::whole(window_width as int)),
                height_coeff: size.ratio(Scalar::whole(window_height as int)),
            }),
            r matches Err(e) ==> e == SceneError::InvalidConfiguration,
    {
        if size.raw <= 0 || window_width == 0 || window_height == 0 {
            return Err(SceneError::InvalidConfiguration);
        }
        let width_coeff = size / Scalar::from_int(window_width as i64);
        let height_coeff = size / Scalar::from_int(window_height as i64);
        Ok(Viewport { size, width_coeff, height_coeff })
    }

    /// The point of the plane that the pixel `(x, y)` looks through.
    pub fn get_vector_on_viewport(&self, x: i32, y: i32) -> (v: Vector)
        ensures
            v == self.project(x as int, y as int),
    {
        let x = self.width_coeff * Scalar::from_int(x as i64);
        let y = self.height_coeff * Scalar::from_int(y as i64);
        Vector::new(x, y, self.size)
    }
}

} // verus!
