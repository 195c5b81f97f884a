use vstd::prelude::*;
use crate::gpu::Rect;

verus! {

/// The size of the drawing surface: the largest it can get (fixed once
/// known), its current size, and whether the size has changed.
pub struct WholeScreen {
    max_width: i32,
    max_height: i32,
    width: i32,
    height: i32,
    is_size_changed: bool,
}

/// What a `WholeScreen` holds, as spec values.
pub struct ScreenModel {
    pub max_width: i32,
    pub max_height: i32,
    pub width: i32,
    pub height: i32,
    pub is_size_changed: bool,
}

impl View for WholeScreen {
    type V = ScreenModel;

    closed spec fn view(&self) -> ScreenModel {
        ScreenModel {
            max_width: self.max_width,
            max_height: self.max_height,
            width: self.width,
            height: self.height,
            is_size_changed: self.is_size_changed,
        }
    }
}

/// `(max - size) / 2`, rounded toward zero.
pub open spec fn centered(max: i32, size: i32) -> int {
    let d = max - size;
    if d >= 0 {
        d / 2
    } else {
        -((-d) / 2)
    }
}

fn centered_offset(max: i32, size: i32) -> (r: i32)
    ensures
        r == centered(max, size),
{
    let d: i64 = (max as i64) - (size as i64);
    if d >= 0 {
        (d / 2) as i32
    } else {
        (-((-d) / 2)) as i32
    }
}

impl WholeScreen {
    /// A screen of the given largest size; the current size starts at 1×1
    /// and counts as changed.
    pub fn new(max_width: i32, max_height: i32) -> (r: WholeScreen)
        ensures
            r@ == (ScreenModel { max_width, max_height, width: 1, height: 1, is_size_changed: true }),
    {
        WholeScreen { max_width, max_height, width: 1, height: 1, is_size_changed: true }
    }

    pub fn max_width(&self) -> (r: i32)
        ensures
            r == self@.max_width,
    {
        self.max_width
    }

    pub fn max_height(&self) -> (r: i32)
        ensures
            r == self@.max_height,
    {
        self.max_height
    }

    pub fn width(&self) -> (r: i32)
        ensures
            r == self@.width,
    {
        self.width
    }

    pub fn height(&self) -> (r: i32)
        ensures
            r == self@.height,
    {
        self.height
    }

    pub fn is_size_changed(&self) -> (r: bool)
        ensures
            r == self@.is_size_changed,
    {
        self.is_size_changed
    }

    /// The current size, centered in the largest size.
    pub fn viewport(&self) -> (r: Rect)
        ensures
            r.x == centered(self@.max_width, self@.width),
            r.y == centered(self@.max_height, self@.height),
            r.width == self@.width,
            r.height == self@.height,
    {
        Rect {
            x: centered_offset(self.max_width, self.width),
            y: centered_offset(self.max_height, self.height),
            width: self.width,
            height: self.height,
        }
    }

    /// The largest size, at the origin.
    pub fn max_viewport(&self) -> (r: Rect)
        ensures
            r == (Rect { x: 0, y: 0, width: self@.max_width, height: self@.max_height }),
    {
        Rect { x: 0, y: 0, width: self.max_width, height: self.max_height }
    }

    /// Records a new current size; a size different from the current one
    /// marks the size as changed, the same size changes nothing.
    pub fn update_size(&mut self, width: i32, height: i32)
        ensures
            (width == old(self)@.width && height == old(self)@.height) ==> final(self)@ == old(self)@,
            !(width == old(self)@.width && height == old(self)@.height) ==> final(self)@ == (
            ScreenModel { width, height, is_size_changed: true, ..old(self)@ }),
    {
        if self.width == width && self.height == height {
            return;
        }
        self.width = width;
        self.height = height;
        self.is_size_changed = true;
    }
}

} // verus!
