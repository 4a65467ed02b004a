//! The coordinate spaces of the grid, each with a type of its own so that one is
//! never taken for another.
//!
//! *Cell coordinates* are absolute positions in the frame of the map. *Cell
//! indices* are cell coordinates counted from the lower corner of a bounds box and
//! address the cell array. *Axis-oriented coordinates* are cell coordinates with
//! the y and z axes turned round, as the placement of meshes wants them.
use crate::ibounds3::IBounds3;
use crate::ivec3::{IVec3, Int3};
use vstd::prelude::*;
use vstd::std_specs::convert::FromSpecImpl;
use vstd::std_specs::ops::{AddSpecImpl, NegSpecImpl, SubSpecImpl};

verus! {

/// The sign that each axis of the map has in axis-oriented coordinates.
pub open spec fn axis_orientation() -> Int3 {
    Int3 { x: 1, y: -1, z: -1 }
}

/// The absolute position of a cell in the frame of the map.
#[derive(Debug, Clone, Copy)]
pub struct CellCoords {
    pub x: i32,
    pub y: i32,
    pub z: i32,
}

impl View for CellCoords {
    type V = Int3;

    open spec fn view(&self) -> Int3 {
        Int3 { x: self.x as int, y: self.y as int, z: self.z as int }
    }
}

impl CellCoords {
    /// True when the cell lies between the two corners of `bounds`, both included.
    pub open spec fn within(self, bounds: IBounds3) -> bool {
        bounds.min@.le(self@) && self@.le(bounds.max@)
    }

    /// Creates cell coordinates from their components.
    #[inline]
    pub fn new(x: i32, y: i32, z: i32) -> (coords: Self)
        ensures
            coords.x == x,
            coords.y == y,
            coords.z == z,
    {
        Self { x, y, z }
    }

    /// Takes the components of `value` as cell coordinates.
    #[inline]
    pub fn from_ivec3(value: IVec3) -> (coords: Self)
        ensures
            coords@ == value@,
    {
        Self::new(value.x, value.y, value.z)
    }

    /// The cell that the indices `value` name in `bounds`: the indices counted from
    /// the lower corner of the box.
    pub fn from_cell_indices(value: IVec3, bounds: &IBounds3) -> (coords: Self)
        requires
            value@.plus(bounds.min@).fits_i32(),
        ensures
            coords@ == value@.plus(bounds.min@),
    {
        Self::from_ivec3(value + bounds.min)
    }

    /// The components as a vector.
    #[inline]
    pub fn as_ivec3(&self) -> (value: IVec3)
        ensures
            value@ == self@,
    {
        IVec3::new(self.x, self.y, self.z)
    }

    /// Tests whether the cell lies between the two corners of `bounds`, both
    /// included.
    pub fn is_within(&self, bounds: &IBounds3) -> (inside: bool)
        ensures
            inside == self.within(*bounds),
    {
        bounds.min.x <= self.x && bounds.min.y <= self.y && bounds.min.z <= self.z && self.x
            <= bounds.max.x && self.y <= bounds.max.y && self.z <= bounds.max.z
    }

    /// The indices of the cell in `bounds`: its coordinates less the lower corner of
    /// the box. The cell lies within the box.
    #[inline]
    pub fn as_cell_indices(&self, bounds: IBounds3) -> (indices: IVec3)
        requires
            self.within(bounds),
            bounds@.size().fits_i32(),
        ensures
            indices@ == self@.minus(bounds.min@),
            (Int3 { x: 0, y: 0, z: 0 }).le(indices@),
            indices@.le(bounds@.size()),
    {
        self.as_ivec3() - bounds.min
    }
}

impl FromSpecImpl<IVec3> for CellCoords {
    open spec fn obeys_from_spec() -> bool {
        true
    }

    open spec fn from_spec(value: IVec3) -> CellCoords {
        CellCoords { x: value.x, y: value.y, z: value.z }
    }
}

impl From<IVec3> for CellCoords {
    #[inline]
    fn from(value: IVec3) -> (coords: CellCoords) {
        Self::from_ivec3(value)
    }
}

impl FromSpecImpl<CellCoords> for IVec3 {
    open spec fn obeys_from_spec() -> bool {
        true
    }

    open spec fn from_spec(value: CellCoords) -> IVec3 {
        IVec3 { x: value.x, y: value.y, z: value.z }
    }
}

impl From<CellCoords> for IVec3 {
    #[inline]
    fn from(value: CellCoords) -> (vector: IVec3) {
        value.as_ivec3()
    }
}

impl AddSpecImpl for CellCoords {
    open spec fn obeys_add_spec() -> bool {
        true
    }

    open spec fn add_req(self, rhs: CellCoords) -> bool {
        self@.plus(rhs@).fits_i32()
    }

    open spec fn add_spec(self, rhs: CellCoords) -> CellCoords {
        CellCoords {
            x: (self.x + rhs.x) as i32,
            y: (self.y + rhs.y) as i32,
            z: (self.z + rhs.z) as i32,
        }
    }
}

impl core::ops::Add for CellCoords {
    type Output = CellCoords;

    /// Componentwise sum; the caller shows that no component overflows.
    fn add(self, rhs: CellCoords) -> (sum: CellCoords)
        ensures
            sum@ == self@.plus(rhs@),
    {
        CellCoords { x: self.x + rhs.x, y: self.y + rhs.y, z: self.z + rhs.z }
    }
}

impl SubSpecImpl for CellCoords {
    open spec fn obeys_sub_spec() -> bool {
        true
    }

    open spec fn sub_req(self, rhs: CellCoords) -> bool {
        self@.minus(rhs@).fits_i32()
    }

    open spec fn sub_spec(self, rhs: CellCoords) -> CellCoords {
        CellCoords {
            x: (self.x - rhs.x) as i32,
            y: (self.y - rhs.y) as i32,
            z: (self.z - rhs.z) as i32,
        }
    }
}

impl core::ops::Sub for CellCoords {
    type Output = CellCoords;

    /// Componentwise difference; the caller shows that no component overflows.
    fn sub(self, rhs: CellCoords) -> (difference: CellCoords)
        ensures
            difference@ == self@.minus(rhs@),
    {
        CellCoords { x: self.x - rhs.x, y: self.y - rhs.y, z: self.z - rhs.z }
    }
}

/// Cell indices and cell coordinates convert into each other without loss: for a
/// cell within `bounds`, the indices that `as_cell_indices` gives are accepted by
/// `from_cell_indices`, which gives the cell back.
pub proof fn lemma_cell_indices_round_trip(coords: CellCoords, bounds: IBounds3)
    requires
        coords.within(bounds),
    ensures
        coords@.minus(bounds.min@).plus(bounds.min@).fits_i32(),
        coords@.minus(bounds.min@).plus(bounds.min@) == coords@,
{
}

/// The position of a cell with the axes of the map turned to those of the world:
/// x is kept, y and z change sign.
#[derive(Debug, Clone, Copy)]
pub struct AxisOrientedCellCoords {
    pub x: i32,
    pub y: i32,
    pub z: i32,
}

impl View for AxisOrientedCellCoords {
    type V = Int3;

    open spec fn view(&self) -> Int3 {
        Int3 { x: self.x as int, y: self.y as int, z: self.z as int }
    }
}

impl AxisOrientedCellCoords {
    /// Creates axis-oriented coordinates from their components.
    #[inline]
    pub fn new(x: i32, y: i32, z: i32) -> (coords: Self)
        ensures
            coords.x == x,
            coords.y == y,
            coords.z == z,
    {
        Self { x, y, z }
    }

    /// Creates axis-oriented coordinates with all components set to `v`.
    #[inline]
    #[must_use]
    pub fn splat(v: i32) -> (coords: Self)
        ensures
            coords.x == v,
            coords.y == v,
            coords.z == v,
    {
        Self { x: v, y: v, z: v }
    }

    /// Takes the components of `value` as axis-oriented coordinates.
    #[inline]
    pub fn from_ivec3(value: IVec3) -> (coords: Self)
        ensures
            coords@ == value@,
    {
        Self::new(value.x, value.y, value.z)
    }

    /// Turns cell coordinates into axis-oriented ones: each component times its
    /// sign in `axis_orientation`. Neither `y` nor `z` is `i32::MIN`, which has no
    /// negative.
    #[inline]
    pub fn from_cell_coords(cell_coords: CellCoords) -> (coords: Self)
        requires
            cell_coords@.times(axis_orientation()).fits_i32(),
        ensures
            coords@ == cell_coords@.times(axis_orientation()),
            coords.x == cell_coords.x,
            coords.y == -cell_coords.y,
            coords.z == -cell_coords.z,
    {
        let pos = cell_coords.as_ivec3() * IVec3::new(1, -1, -1);
        Self::from_ivec3(pos)
    }
}

impl FromSpecImpl<IVec3> for AxisOrientedCellCoords {
    open spec fn obeys_from_spec() -> bool {
        true
    }

    open spec fn from_spec(value: IVec3) -> AxisOrientedCellCoords {
        AxisOrientedCellCoords { x: value.x, y: value.y, z: value.z }
    }
}

impl From<IVec3> for AxisOrientedCellCoords {
    #[inline]
    fn from(ivec3: IVec3) -> (coords: AxisOrientedCellCoords) {
        Self::from_ivec3(ivec3)
    }
}

impl AddSpecImpl for AxisOrientedCellCoords {
    open spec fn obeys_add_spec() -> bool {
        true
    }

    open spec fn add_req(self, rhs: AxisOrientedCellCoords) -> bool {
        self@.plus(rhs@).fits_i32()
    }

    open spec fn add_spec(self, rhs: AxisOrientedCellCoords) -> AxisOrientedCellCoords {
        AxisOrientedCellCoords {
            x: (self.x + rhs.x) as i32,
            y: (self.y + rhs.y) as i32,
            z: (self.z + rhs.z) as i32,
        }
    }
}

impl core::ops::Add for AxisOrientedCellCoords {
    type Output = AxisOrientedCellCoords;

    /// Componentwise sum; the caller shows that no component overflows.
    fn add(self, rhs: AxisOrientedCellCoords) -> (sum: AxisOrientedCellCoords)
        ensures
            sum@ == self@.plus(rhs@),
    {
        AxisOrientedCellCoords { x: self.x + rhs.x, y: self.y + rhs.y, z: self.z + rhs.z }
    }
}

impl SubSpecImpl for AxisOrientedCellCoords {
    open spec fn obeys_sub_spec() -> bool {
        true
    }

    open spec fn sub_req(self, rhs: AxisOrientedCellCoords) -> bool {
        self@.minus(rhs@).fits_i32()
    }

    open spec fn sub_spec(self, rhs: AxisOrientedCellCoords) -> AxisOrientedCellCoords {
        AxisOrientedCellCoords {
            x: (self.x - rhs.x) as i32,
            y: (self.y - rhs.y) as i32,
            z: (self.z - rhs.z) as i32,
        }
    }
}

impl core::ops::Sub for AxisOrientedCellCoords {
    type Output = AxisOrientedCellCoords;

    /// Componentwise difference; the caller shows that no component overflows.
    fn sub(self, rhs: AxisOrientedCellCoords) -> (difference: AxisOrientedCellCoords)
        ensures
            difference@ == self@.minus(rhs@),
    {
        AxisOrientedCellCoords { x: self.x - rhs.x, y: self.y - rhs.y, z: self.z - rhs.z }
    }
}

impl NegSpecImpl for AxisOrientedCellCoords {
    open spec fn obeys_neg_spec() -> bool {
        true
    }

    open spec fn neg_req(self) -> bool {
        self@.negated().fits_i32()
    }

    open spec fn neg_spec(self) -> AxisOrientedCellCoords {
        AxisOrientedCellCoords { x: (-self.x) as i32, y: (-self.y) as i32, z: (-self.z) as i32 }
    }
}

impl core::ops::Neg for AxisOrientedCellCoords {
    type Output = AxisOrientedCellCoords;

    /// Every component negated; the caller shows that none is `i32::MIN`.
    fn neg(self) -> (negated: AxisOrientedCellCoords)
        ensures
            negated@ == self@.negated(),
    {
        AxisOrientedCellCoords { x: -self.x, y: -self.y, z: -self.z }
    }
}

} // verus!
