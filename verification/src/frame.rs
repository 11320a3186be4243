//! A captured frame: owned BGR pixels plus dimensions, decoupled from GStreamer
//! and OpenCV types so it can cross thread boundaries cheaply.
use crate::state::Point;
use vstd::prelude::*;

verus! {

#[derive(Debug, Clone)]
pub struct Frame {
    /// Tightly packed BGR pixels, row-major, length `width * height * 3`.
    pub bgr: Vec<u8>,
    pub width: u32,
    pub height: u32,
}

/// The center of a `width` × `height` frame (exact: in thousandths of a pixel).
pub open spec fn frame_center(width: u32, height: u32) -> Point {
    Point { x: (width * 500) as i64, y: (height * 500) as i64 }
}

/// The exact center of a `width` × `height` frame.
pub fn center_of(width: u32, height: u32) -> (p: Point)
    ensures
        p == frame_center(width, height),
{
    Point { x: width as i64 * 500, y: height as i64 * 500 }
}

impl Frame {
    pub fn new(bgr: Vec<u8>, width: u32, height: u32) -> (f: Self)
        ensures
            f.bgr@ == bgr@,
            f.width == width,
            f.height == height,
    {
        Frame { bgr, width, height }
    }

    /// Frame center in frame coordinates (bobbers nearest it are preferred).
    pub fn center(&self) -> (p: Point)
        ensures
            p == frame_center(self.width, self.height),
    {
        center_of(self.width, self.height)
    }

}

} // verus!
