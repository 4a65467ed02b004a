//! Axis-aligned boxes with integer corners.
use crate::ivec3::{IVec3, Int3};
use vstd::prelude::*;

verus! {

/// The mathematical value of a box: its two corners as integer triples.
pub struct Box3 {
    pub min: Int3,
    pub max: Int3,
}

impl Box3 {
    /// The box of the given size around `center`. The lower corner takes the half
    /// of `size` rounded down, so an odd size puts its extra unit on the `max` side.
    pub open spec fn centered(center: Int3, size: Int3) -> Box3 {
        Box3 { min: center.minus(size.half()), max: center.plus(size.minus(size.half())) }
    }

    /// The extent of the box on each axis.
    pub open spec fn size(self) -> Int3 {
        self.max.minus(self.min)
    }

    /// True when `min` is at most `max` on every axis.
    pub open spec fn non_inverted(self) -> bool {
        self.min.le(self.max)
    }

    /// True when both corners can be held in `i32` components.
    pub open spec fn fits_i32(self) -> bool {
        self.min.fits_i32() && self.max.fits_i32()
    }

    /// True when `other` lies wholly inside this box.
    pub open spec fn contains(self, other: Box3) -> bool {
        self.min.le(other.min) && other.max.le(self.max)
    }

    /// The smallest box that holds both boxes.
    pub open spec fn merge(self, other: Box3) -> Box3 {
        Box3 { min: self.min.lower(other.min), max: self.max.upper(other.max) }
    }

    /// The box moved outwards by `amount` on both sides of each axis.
    pub open spec fn grow(self, amount: Int3) -> Box3 {
        Box3 { min: self.min.minus(amount), max: self.max.plus(amount) }
    }

    /// The box moved inwards by `amount` on both sides of each axis.
    pub open spec fn shrink(self, amount: Int3) -> Box3 {
        Box3 { min: self.min.plus(amount), max: self.max.minus(amount) }
    }

    /// The middle of the box, rounded towards zero on each axis.
    pub open spec fn center(self) -> Int3 {
        self.min.plus(self.max).half()
    }

    /// The surface of the three faces that meet in one corner.
    pub open spec fn visible_area(self) -> int {
        let size = self.size();
        size.x * (size.y + size.z) + size.y * size.z
    }

    /// True when the visible area, and each sum and product on the way to it, can
    /// be held in an `i32`.
    pub open spec fn visible_area_fits_i32(self) -> bool {
        let size = self.size();
        &&& size.fits_i32()
        &&& i32::MIN <= size.y + size.z <= i32::MAX
        &&& i32::MIN <= size.x * (size.y + size.z) <= i32::MAX
        &&& i32::MIN <= size.y * size.z <= i32::MAX
        &&& i32::MIN <= self.visible_area() <= i32::MAX
    }
}

/// An axis-aligned box in cell coordinates, from `min` to `max`.
#[derive(Clone, Copy, Debug, PartialEq, Eq, Structural)]
pub struct IBounds3 {
    pub min: IVec3,
    pub max: IVec3,
}

impl View for IBounds3 {
    type V = Box3;

    open spec fn view(&self) -> Box3 {
        Box3 { min: self.min@, max: self.max@ }
    }
}

impl Default for IBounds3 {
    /// The empty box at the origin.
    fn default() -> (bounds: IBounds3)
        ensures
            bounds.min == (IVec3 { x: 0, y: 0, z: 0 }),
            bounds.max == (IVec3 { x: 0, y: 0, z: 0 }),
    {
        IBounds3 { min: IVec3::splat(0), max: IVec3::splat(0) }
    }
}

impl IBounds3 {
    /// The box of size `size` around `center`. No component of `size` is negative.
    pub fn new(center: IVec3, size: IVec3) -> (bounds: IBounds3)
        requires
            size.x >= 0 && size.y >= 0 && size.z >= 0,
            Box3::centered(center@, size@).fits_i32(),
        ensures
            bounds@ == Box3::centered(center@, size@),
            bounds@.size() == size@,
            bounds@.non_inverted(),
    {
        let half_size = size.half();
        IBounds3 { min: center - half_size, max: center + (size - half_size) }
    }

    /// The extent of the box on each axis.
    pub fn size(&self) -> (size: IVec3)
        requires
            self@.size().fits_i32(),
        ensures
            size@ == self@.size(),
    {
        self.max - self.min
    }

    /// The extent of the box on each axis, or `None` where an extent is too large
    /// or too small for an `i32`.
    pub fn checked_size(&self) -> (size: Option<IVec3>)
        ensures
            size is Some <==> self@.size().fits_i32(),
            size matches Some(s) ==> s@ == self@.size(),
    {
        match (
            self.max.x.checked_sub(self.min.x),
            self.max.y.checked_sub(self.min.y),
            self.max.z.checked_sub(self.min.z),
        ) {
            (Some(x), Some(y), Some(z)) => Some(IVec3::new(x, y, z)),
            _ => None,
        }
    }

    /// The middle of the box, rounded towards zero on each axis.
    pub fn center(&self) -> (center: IVec3)
        requires
            self.min@.plus(self.max@).fits_i32(),
        ensures
            center@ == self@.center(),
    {
        (self.min + self.max).half()
    }

    /// Half the extent of the box on each axis, rounded towards zero.
    pub fn half_size(&self) -> (half_size: IVec3)
        requires
            self@.size().fits_i32(),
        ensures
            half_size@ == self@.size().half(),
    {
        self.size().half()
    }

    /// The surface of the three faces of the box that meet in one corner, in cell
    /// faces.
    pub fn visible_area(&self) -> (area: i32)
        requires
            self@.visible_area_fits_i32(),
        ensures
            area == self@.visible_area(),
    {
        let b = self.size();
        b.x * (b.y + b.z) + b.y * b.z
    }

    /// True when `other` lies wholly inside this box.
    pub fn contains(&self, other: &IBounds3) -> (inside: bool)
        ensures
            inside == self@.contains(other@),
    {
        other.min.x >= self.min.x && other.min.y >= self.min.y && other.min.z >= self.min.z
            && other.max.x <= self.max.x && other.max.y <= self.max.y && other.max.z
            <= self.max.z
    }

    /// The smallest box that holds both boxes.
    pub fn merge(&self, other: &IBounds3) -> (merged: IBounds3)
        ensures
            merged@ == self@.merge(other@),
    {
        IBounds3 { min: self.min.min(other.min), max: self.max.max(other.max) }
    }

    /// Moves both corners outwards by `amount`. The result must not be inverted.
    pub fn grow(&self, amount: IVec3) -> (grown: IBounds3)
        requires
            self@.grow(amount@).fits_i32(),
            self@.grow(amount@).non_inverted(),
        ensures
            grown@ == self@.grow(amount@),
    {
        IBounds3 { min: self.min - amount, max: self.max + amount }
    }

    /// Moves both corners inwards by `amount`. The result must not be inverted.
    pub fn shrink(&self, amount: IVec3) -> (shrunk: IBounds3)
        requires
            self@.shrink(amount@).fits_i32(),
            self@.shrink(amount@).non_inverted(),
        ensures
            shrunk@ == self@.shrink(amount@),
    {
        IBounds3 { min: self.min + amount, max: self.max - amount }
    }
}

/// Growing a box and then shrinking it by the same amount gives the box back:
/// where a box that is not inverted may be grown by `amount`, the grown box may be
/// shrunk by `amount`, and the result is the first box.
pub proof fn lemma_grow_then_shrink(bounds: IBounds3, amount: IVec3)
    requires
        bounds@.non_inverted(),
        bounds@.grow(amount@).fits_i32(),
        bounds@.grow(amount@).non_inverted(),
    ensures
        bounds@.grow(amount@).shrink(amount@).fits_i32(),
        bounds@.grow(amount@).shrink(amount@).non_inverted(),
        bounds@.grow(amount@).shrink(amount@) == bounds@,
{
}

} // verus!
