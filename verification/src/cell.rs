//! Direction flags: which of the six faces of a cell are open.
use vstd::prelude::*;

verus! {

/// The direction flags of one cell, one bit for each face that is open to the
/// neighbouring cell. A value may have several bits set.
pub type Type = u8;

/// No face is open: the cell is solid.
pub const EMPTY: Type = 0b00_0000;

/// Open towards the neighbour at `x - 1`.
pub const OPEN_NEG_X: Type = 0b00_0001;

/// Open towards the neighbour at `x + 1`.
pub const OPEN_POS_X: Type = 0b00_0010;

/// Open towards the neighbour at `y - 1`.
pub const OPEN_NEG_Y: Type = 0b00_0100;

/// Open towards the neighbour at `y + 1`.
pub const OPEN_POS_Y: Type = 0b00_1000;

/// Open towards the neighbour at `z - 1`.
pub const OPEN_NEG_Z: Type = 0b01_0000;

/// Open towards the neighbour at `z + 1`.
pub const OPEN_POS_Z: Type = 0b10_0000;

/// Every face is open.
pub const OPEN_ALL: Type = 0b11_1111;

/// True when every bit of `direction` is set in `flags`: the test is containment,
/// never equality, because `flags` may hold other directions too.
pub open spec fn opens(flags: Type, direction: Type) -> bool {
    flags & direction == direction
}

/// True when `direction` is one of the six faces, and no union of them.
pub open spec fn is_face(direction: Type) -> bool {
    ||| direction == OPEN_NEG_X
    ||| direction == OPEN_POS_X
    ||| direction == OPEN_NEG_Y
    ||| direction == OPEN_POS_Y
    ||| direction == OPEN_NEG_Z
    ||| direction == OPEN_POS_Z
}

/// The six faces are six bits of their own. `OPEN_ALL` is their union and opens
/// each of them, `EMPTY` opens none, and a face opens no face but itself.
pub proof fn lemma_faces()
    ensures
        OPEN_ALL == OPEN_NEG_X | OPEN_POS_X | OPEN_NEG_Y | OPEN_POS_Y | OPEN_NEG_Z | OPEN_POS_Z,
        forall|face: Type| is_face(face) ==> opens(OPEN_ALL, face),
        forall|face: Type| is_face(face) ==> !opens(EMPTY, face),
        forall|face: Type, other: Type|
            is_face(face) && is_face(other) ==> (opens(face, other) <==> face == other),
{
    assert(0b11_1111u8 == 0b00_0001u8 | 0b00_0010u8 | 0b00_0100u8 | 0b00_1000u8 | 0b01_0000u8
        | 0b10_0000u8) by (bit_vector);
    assert(forall|face: u8|
        face == 1 || face == 2 || face == 4 || face == 8 || face == 16 || face == 32 ==> 0b11_1111u8
            & face == face && 0u8 & face != face) by (bit_vector);
    assert(forall|face: u8, other: u8|
        (face == 1 || face == 2 || face == 4 || face == 8 || face == 16 || face == 32) && (other
            == 1 || other == 2 || other == 4 || other == 8 || other == 16 || other == 32) ==> (face
            & other == other <==> face == other)) by (bit_vector);
}

/// A union of flags opens a face exactly when one of the two does, and an
/// intersection exactly when both do.
pub proof fn lemma_union_and_intersection(flags: Type, more: Type, face: Type)
    requires
        is_face(face),
    ensures
        opens(flags | more, face) <==> opens(flags, face) || opens(more, face),
        opens(flags & more, face) <==> opens(flags, face) && opens(more, face),
{
    assert(face == 1 || face == 2 || face == 4 || face == 8 || face == 16 || face == 32 ==> (((
    flags | more) & face == face) <==> (flags & face == face) || (more & face == face)) && (((flags
        & more) & face == face) <==> (flags & face == face) && (more & face == face)))
        by (bit_vector);
}

/// The two questions asked of a flags value.
pub trait Openings: Sized {
    /// Checks that every direction in `direction` is open.
    fn is_open(self, direction: Self) -> bool;

    /// Checks that some direction in `direction` is not open.
    fn is_closed(self, direction: Self) -> bool;
}

impl Openings for Type {
    fn is_open(self, direction: Type) -> (open: bool)
        ensures
            open == opens(self, direction),
    {
        self & direction == direction
    }

    fn is_closed(self, direction: Type) -> (closed: bool)
        ensures
            closed == !opens(self, direction),
    {
        !self.is_open(direction)
    }
}

} // verus!
