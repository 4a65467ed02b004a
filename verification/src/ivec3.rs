//! Integer vectors with three components.
use vstd::prelude::*;
use vstd::std_specs::ops::{AddSpecImpl, MulSpecImpl, NegSpecImpl, SubSpecImpl};

verus! {

/// Half of `v`, rounded towards zero: what `/ 2` gives on a machine integer.
pub open spec fn half_towards_zero(v: int) -> int {
    if v >= 0 {
        v / 2
    } else {
        -((-v) / 2)
    }
}

/// A triple of mathematical integers: the value of a vector, free of machine limits.
pub struct Int3 {
    pub x: int,
    pub y: int,
    pub z: int,
}

impl Int3 {
    /// Componentwise sum.
    pub open spec fn plus(self, rhs: Int3) -> Int3 {
        Int3 { x: self.x + rhs.x, y: self.y + rhs.y, z: self.z + rhs.z }
    }

    /// Componentwise difference.
    pub open spec fn minus(self, rhs: Int3) -> Int3 {
        Int3 { x: self.x - rhs.x, y: self.y - rhs.y, z: self.z - rhs.z }
    }

    /// Componentwise product.
    pub open spec fn times(self, rhs: Int3) -> Int3 {
        Int3 { x: self.x * rhs.x, y: self.y * rhs.y, z: self.z * rhs.z }
    }

    /// Every component negated.
    pub open spec fn negated(self) -> Int3 {
        Int3 { x: -self.x, y: -self.y, z: -self.z }
    }

    /// True when every component is at most the matching component of `rhs`.
    pub open spec fn le(self, rhs: Int3) -> bool {
        self.x <= rhs.x && self.y <= rhs.y && self.z <= rhs.z
    }

    /// Componentwise minimum.
    pub open spec fn lower(self, rhs: Int3) -> Int3 {
        Int3 {
            x: if self.x <= rhs.x { self.x } else { rhs.x },
            y: if self.y <= rhs.y { self.y } else { rhs.y },
            z: if self.z <= rhs.z { self.z } else { rhs.z },
        }
    }

    /// Componentwise maximum.
    pub open spec fn upper(self, rhs: Int3) -> Int3 {
        Int3 {
            x: if self.x >= rhs.x { self.x } else { rhs.x },
            y: if self.y >= rhs.y { self.y } else { rhs.y },
            z: if self.z >= rhs.z { self.z } else { rhs.z },
        }
    }

    /// Every component halved, rounding towards zero.
    pub open spec fn half(self) -> Int3 {
        Int3 { x: half_towards_zero(self.x), y: half_towards_zero(self.y), z: half_towards_zero(self.z) }
    }

    /// True when every component can be held in an `i32`.
    pub open spec fn fits_i32(self) -> bool {
        &&& i32::MIN <= self.x <= i32::MAX
        &&& i32::MIN <= self.y <= i32::MAX
        &&& i32::MIN <= self.z <= i32::MAX
    }
}

/// A vector of three `i32` components.
#[derive(Clone, Copy, Debug, PartialEq, Eq, Structural, Hash)]
pub struct IVec3 {
    pub x: i32,
    pub y: i32,
    pub z: i32,
}

impl View for IVec3 {
    type V = Int3;

    open spec fn view(&self) -> Int3 {
        Int3 { x: self.x as int, y: self.y as int, z: self.z as int }
    }
}

impl IVec3 {
    /// The vector whose mathematical value is `v`, for a `v` that fits.
    pub open spec fn of(v: Int3) -> IVec3
        recommends
            v.fits_i32(),
    {
        IVec3 { x: v.x as i32, y: v.y as i32, z: v.z as i32 }
    }

    /// Creates a vector from its components.
    pub fn new(x: i32, y: i32, z: i32) -> (v: Self)
        ensures
            v == (IVec3 { x, y, z }),
    {
        IVec3 { x, y, z }
    }

    /// The smaller of the two vectors on each axis.
    pub fn min(self, rhs: IVec3) -> (lowest: IVec3)
        ensures
            lowest@ == self@.lower(rhs@),
    {
        IVec3 {
            x: if self.x <= rhs.x { self.x } else { rhs.x },
            y: if self.y <= rhs.y { self.y } else { rhs.y },
            z: if self.z <= rhs.z { self.z } else { rhs.z },
        }
    }

    /// The larger of the two vectors on each axis.
    pub fn max(self, rhs: IVec3) -> (highest: IVec3)
        ensures
            highest@ == self@.upper(rhs@),
    {
        IVec3 {
            x: if self.x >= rhs.x { self.x } else { rhs.x },
            y: if self.y >= rhs.y { self.y } else { rhs.y },
            z: if self.z >= rhs.z { self.z } else { rhs.z },
        }
    }

    /// Every component halved, rounding towards zero.
    pub fn half(self) -> (halved: IVec3)
        ensures
            halved@ == self@.half(),
    {
        IVec3 { x: self.x / 2, y: self.y / 2, z: self.z / 2 }
    }

    /// Creates a vector with all components set to `v`.
    pub fn splat(v: i32) -> (r: Self)
        ensures
            r == (IVec3 { x: v, y: v, z: v }),
    {
        IVec3 { x: v, y: v, z: v }
    }
}

impl AddSpecImpl for IVec3 {
    open spec fn obeys_add_spec() -> bool {
        true
    }

    open spec fn add_req(self, rhs: IVec3) -> bool {
        self@.plus(rhs@).fits_i32()
    }

    open spec fn add_spec(self, rhs: IVec3) -> IVec3 {
        IVec3::of(self@.plus(rhs@))
    }
}

impl core::ops::Add for IVec3 {
    type Output = IVec3;

    /// Componentwise sum; the caller shows that no component overflows.
    fn add(self, rhs: IVec3) -> (sum: IVec3)
        ensures
            sum@ == self@.plus(rhs@),
    {
        IVec3 { x: self.x + rhs.x, y: self.y + rhs.y, z: self.z + rhs.z }
    }
}

impl SubSpecImpl for IVec3 {
    open spec fn obeys_sub_spec() -> bool {
        true
    }

    open spec fn sub_req(self, rhs: IVec3) -> bool {
        self@.minus(rhs@).fits_i32()
    }

    open spec fn sub_spec(self, rhs: IVec3) -> IVec3 {
        IVec3::of(self@.minus(rhs@))
    }
}

impl core::ops::Sub for IVec3 {
    type Output = IVec3;

    /// Componentwise difference; the caller shows that no component overflows.
    fn sub(self, rhs: IVec3) -> (difference: IVec3)
        ensures
            difference@ == self@.minus(rhs@),
    {
        IVec3 { x: self.x - rhs.x, y: self.y - rhs.y, z: self.z - rhs.z }
    }
}

impl MulSpecImpl for IVec3 {
    open spec fn obeys_mul_spec() -> bool {
        true
    }

    open spec fn mul_req(self, rhs: IVec3) -> bool {
        self@.times(rhs@).fits_i32()
    }

    open spec fn mul_spec(self, rhs: IVec3) -> IVec3 {
        IVec3::of(self@.times(rhs@))
    }
}

impl core::ops::Mul for IVec3 {
    type Output = IVec3;

    /// Componentwise product; the caller shows that no component overflows.
    fn mul(self, rhs: IVec3) -> (product: IVec3)
        ensures
            product@ == self@.times(rhs@),
    {
        IVec3 { x: self.x * rhs.x, y: self.y * rhs.y, z: self.z * rhs.z }
    }
}

impl NegSpecImpl for IVec3 {
    open spec fn obeys_neg_spec() -> bool {
        true
    }

    open spec fn neg_req(self) -> bool {
        self@.negated().fits_i32()
    }

    open spec fn neg_spec(self) -> IVec3 {
        IVec3::of(self@.negated())
    }
}

impl core::ops::Neg for IVec3 {
    type Output = IVec3;

    /// Every component negated; the caller shows that none is `i32::MIN`.
    fn neg(self) -> (negated: IVec3)
        ensures
            negated@ == self@.negated(),
    {
        IVec3 { x: -self.x, y: -self.y, z: -self.z }
    }
}

} // verus!
