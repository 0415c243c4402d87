use vstd::prelude::*;

verus! {

/// A point in pixel space.
#[derive(Clone, Copy, Debug, PartialEq, Eq, Structural)]
pub struct Point {
    pub x: i64,
    pub y: i64,
}

/// Bound on the viewport's origin within which a scroll step or a layout
/// computation cannot leave the `i64` range.
pub const ORIGIN_LIMIT: i64 = 0x4000_0000_0000_0000;

/// Bound on the viewport's width and height.
pub const SIZE_LIMIT: i64 = 0x1_0000_0000;

/// Bound on the viewport's scale.
pub const SCALE_LIMIT: i64 = 0x1_0000;

pub open spec fn fits_i64(v: int) -> bool {
    i64::MIN <= v <= i64::MAX
}

/// The camera: a scrollable frame over the world, with an origin in world
/// pixels, a size in screen pixels, a scale in pixels per logical unit and a
/// padding around its bounds for culling.
#[derive(Clone, Copy, Debug, PartialEq, Eq, Structural)]
pub struct ViewPort {
    pub origin: Point,
    pub pad_x: i64,
    pub pad_y: i64,
    pub width: i64,
    pub height: i64,
    pub scale_x: i64,
    pub scale_y: i64,
}

impl ViewPort {
    /// The viewport's coordinates sit well inside the `i64` range: a move of
    /// one tile, or the layout of a dialog box, stays representable.
    pub open spec fn in_range(&self) -> bool {
        &&& -ORIGIN_LIMIT <= self.origin.x <= ORIGIN_LIMIT
        &&& -ORIGIN_LIMIT <= self.origin.y <= ORIGIN_LIMIT
        &&& 0 <= self.width <= SIZE_LIMIT
        &&& 0 <= self.height <= SIZE_LIMIT
        &&& 0 <= self.scale_x <= SCALE_LIMIT
        &&& 0 <= self.scale_y <= SCALE_LIMIT
    }

    /// Tests `in_range`.
    pub fn is_in_range(&self) -> (r: bool)
        ensures
            r == self.in_range(),
    {
        -ORIGIN_LIMIT <= self.origin.x && self.origin.x <= ORIGIN_LIMIT && -ORIGIN_LIMIT <= self.origin.y
            && self.origin.y <= ORIGIN_LIMIT && 0 <= self.width && self.width <= SIZE_LIMIT && 0 <= self.height
            && self.height <= SIZE_LIMIT && 0 <= self.scale_x && self.scale_x <= SCALE_LIMIT && 0 <= self.scale_y
            && self.scale_y <= SCALE_LIMIT
    }

    /// The viewport with its origin moved by `(dx, dy)` logical units.
    pub open spec fn moved(self, dx: int, dy: int) -> ViewPort {
        ViewPort {
            origin: Point {
                x: (self.origin.x + dx * self.scale_x) as i64,
                y: (self.origin.y + dy * self.scale_y) as i64,
            },
            ..self
        }
    }

    /// Whether a point, taken relative to the origin, lies within the
    /// viewport widened by its padding.
    pub open spec fn spec_within_bounds(&self, pt: Point) -> bool {
        let tx = pt.x - self.origin.x;
        let ty = pt.y - self.origin.y;
        !(tx > self.width || tx + self.pad_x < 0 || ty > self.height || ty + self.pad_y < 0)
    }

    /// The all-zero viewport.
    pub open spec fn new_spec() -> ViewPort {
        ViewPort {
            origin: Point { x: 0, y: 0 },
            pad_x: 0,
            pad_y: 0,
            width: 0,
            height: 0,
            scale_x: 0,
            scale_y: 0,
        }
    }

    /// Everything zero.
    pub fn new() -> (r: ViewPort)
        ensures
            r == ViewPort::new_spec(),
    {
        ViewPort {
            origin: Point { x: 0, y: 0 },
            pad_x: 0,
            pad_y: 0,
            width: 0,
            height: 0,
            scale_x: 0,
            scale_y: 0,
        }
    }

    /// The same viewport with its origin at `pt`.
    pub fn origin(self, pt: Point) -> (r: Self)
        ensures
            r == (ViewPort { origin: pt, ..self }),
    {
        ViewPort { origin: pt, ..self }
    }

    /// Moves the origin by `(dx, dy)` logical units, scaled to pixels.
    pub fn move_origin(&mut self, dx: i64, dy: i64)
        requires
            fits_i64(dx * old(self).scale_x),
            fits_i64(dy * old(self).scale_y),
            fits_i64(old(self).origin.x + dx * old(self).scale_x),
            fits_i64(old(self).origin.y + dy * old(self).scale_y),
        ensures
            *final(self) == old(self).moved(dx as int, dy as int),
    {
        self.origin.x = self.origin.x + dx * self.scale_x;
        self.origin.y = self.origin.y + dy * self.scale_y;
    }

    /// The same viewport sized to a drawable area of `width` by `height`
    /// pixels, at three pixels per logical unit.
    pub fn init(self, width: i64, height: i64) -> (r: Self)
        ensures
            r == (ViewPort { width, height, scale_x: 3, scale_y: 3, ..self }),
    {
        ViewPort { width, height, scale_x: 3, scale_y: 3, ..self }
    }

    /// The same viewport with a padding of `(pad_x, pad_y)` logical units.
    pub fn padding(self, pad_x: i64, pad_y: i64) -> (r: Self)
        requires
            fits_i64(pad_x * self.scale_x),
            fits_i64(pad_y * self.scale_y),
        ensures
            r == (ViewPort {
                pad_x: (pad_x * self.scale_x) as i64,
                pad_y: (pad_y * self.scale_y) as i64,
                ..self
            }),
    {
        ViewPort { pad_x: pad_x * self.scale_x, pad_y: pad_y * self.scale_y, ..self }
    }

    /// A world point relative to the origin.
    pub fn translate(self, pt: Point) -> (r: Point)
        requires
            fits_i64(pt.x - self.origin.x),
            fits_i64(pt.y - self.origin.y),
        ensures
            r.x == pt.x - self.origin.x,
            r.y == pt.y - self.origin.y,
    {
        Point { x: pt.x - self.origin.x, y: pt.y - self.origin.y }
    }

    /// Whether a point should be drawn: false when it lies wholly outside the
    /// viewport, on either axis, even allowing for the padding.
    pub fn within_bounds(&self, pt: Point) -> (r: bool)
        ensures
            r == self.spec_within_bounds(pt),
    {
        let tx = pt.x as i128 - self.origin.x as i128;
        let ty = pt.y as i128 - self.origin.y as i128;
        if tx > self.width as i128 || tx + (self.pad_x as i128) < 0 {
            false
        } else if ty > self.height as i128 || ty + (self.pad_y as i128) < 0 {
            false
        } else {
            true
        }
    }
}

} // verus!
