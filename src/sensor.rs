//! The camera's sensor: a rectangle of pixels that rays are cast through.

use vstd::prelude::*;

verus! {

/// The side of the sensor that a field-of-view angle spans.
#[derive(Debug, Clone, Copy, PartialEq, Eq, Structural)]
pub enum FovAxis {
    Horizontal,
    Vertical,
}

/// Size of a sensor in pixels.
pub struct SensorView {
    pub width: nat,
    pub height: nat,
}

impl SensorView {
    /// Both sides hold at least one pixel.
    pub open spec fn wf(&self) -> bool {
        self.width > 0 && self.height > 0
    }

    /// Pixel `(x, y)` lies on the sensor; column 0 is on the left, row 0 on top.
    pub open spec fn contains(&self, x: int, y: int) -> bool {
        0 <= x < self.width && 0 <= y < self.height
    }

    /// Where pixel `(x, y)` lies on the render plane, if it is on the sensor:
    /// relative to the sensor's middle, with `y` pointing up.
    pub open spec fn render_pos(&self, x: int, y: int) -> Option<(int, int)> {
        if self.contains(x, y) {
            Some((x - self.width / 2, -(y - self.height / 2)))
        } else {
            None
        }
    }

    /// Half the extent of the side that `axis` names, rounded down.
    pub open spec fn half_extent(&self, axis: FovAxis) -> nat {
        match axis {
            FovAxis::Horizontal => self.width / 2,
            FovAxis::Vertical => self.height / 2,
        }
    }
}

/// A sensor of `width` by `height` pixels.
#[derive(Clone, Copy, Debug)]
pub struct Sensor {
    width: u32,
    height: u32,
}

impl View for Sensor {
    type V = SensorView;

    closed spec fn view(&self) -> SensorView {
        SensorView { width: self.width as nat, height: self.height as nat }
    }
}

impl Sensor {
    /// A sensor of `width` by `height` pixels; both must be positive.
    pub fn new(width: u32, height: u32) -> (s: Self)
        requires
            width > 0,
            height > 0,
        ensures
            s@ == (SensorView { width: width as nat, height: height as nat }),
            s@.wf(),
    {
        Sensor { width, height }
    }

    /// Half the width or half the height, rounded down: the distance from the
    /// sensor's middle to its edge along `axis`.
    pub fn half_extent(&self, axis: FovAxis) -> (h: u32)
        ensures
            h == self@.half_extent(axis),
    {
        match axis {
            FovAxis::Horizontal => self.width / 2,
            FovAxis::Vertical => self.height / 2,
        }
    }

    /// Whether pixel `(x, y)` lies on the sensor.
    pub fn has_pixel(&self, x: u32, y: u32) -> (b: bool)
        ensures
            b == self@.contains(x as int, y as int),
    {
        x < self.width && y < self.height
    }

    /// Position of pixel `(x, y)` on the render plane, or `None` where the
    /// pixel is not on the sensor.
    pub fn pixel_pos_to_render_pos(&self, x: i32, y: i32) -> (p: Option<(i32, i32)>)
        ensures
            p matches Some((rx, ry)) ==> self@.render_pos(x as int, y as int) == Some((rx as int, ry as int)),
            p is None ==> self@.render_pos(x as int, y as int) is None,
    {
        if x < 0 || y < 0 || !self.has_pixel(x as u32, y as u32) {
            None
        } else {
            let half_w = (self.width / 2) as i64;
            let half_h = (self.height / 2) as i64;
            let rx = (x as i64 - half_w) as i32;
            let ry = (half_h - y as i64) as i32;
            Some((rx, ry))
        }
    }
}

impl Default for Sensor {
    /// A sensor of 512 by 512 pixels.
    fn default() -> (s: Self)
        ensures
            s@ == (SensorView { width: 512, height: 512 }),
    {
        Sensor::new(512, 512)
    }
}

/// No pixel left of the first column, and none at the corner just past the last
/// column and row, lies on any sensor.
pub proof fn lemma_pixels_outside_have_no_position(s: Sensor)
    ensures
        s@.render_pos(-1, 0) is None,
        s@.render_pos(s@.width as int, s@.height as int) is None,
{
}

} // verus!
