//! Navigability: whether an agent may step from one cell into the next.
//!
//! A step is allowed when both cells agree: the cell that is left must be open on
//! the face towards the other, and the cell that is entered on the face towards
//! the first. What lies off the grid is open on every face.
use crate::cell;
use crate::cell::Openings;
use crate::cells::{Cells, Grid};
use crate::coordinates::CellCoords;
use crate::ibounds3::IBounds3;
use crate::ivec3::{IVec3, Int3};
use vstd::prelude::*;

verus! {

/// For a step of one cell along one axis: the face by which the step leaves its
/// cell, and the face by which it enters the next. `None` for any other step.
pub open spec fn step_faces(step: Int3) -> Option<(cell::Type, cell::Type)> {
    if step == (Int3 { x: 1, y: 0, z: 0 }) {
        Some((cell::OPEN_POS_X, cell::OPEN_NEG_X))
    } else if step == (Int3 { x: 0, y: 1, z: 0 }) {
        Some((cell::OPEN_POS_Y, cell::OPEN_NEG_Y))
    } else if step == (Int3 { x: 0, y: 0, z: 1 }) {
        Some((cell::OPEN_POS_Z, cell::OPEN_NEG_Z))
    } else if step == (Int3 { x: -1, y: 0, z: 0 }) {
        Some((cell::OPEN_NEG_X, cell::OPEN_POS_X))
    } else if step == (Int3 { x: 0, y: -1, z: 0 }) {
        Some((cell::OPEN_NEG_Y, cell::OPEN_POS_Y))
    } else if step == (Int3 { x: 0, y: 0, z: -1 }) {
        Some((cell::OPEN_NEG_Z, cell::OPEN_POS_Z))
    } else {
        None
    }
}

/// The rule of movement. A step from the cell at `src` is allowed when it goes one
/// cell along one axis, the source cell is open on the face it leaves by, and the
/// destination cell is open on the opposite face. A cell that the grid does not
/// hold counts as open on every face.
pub open spec fn can_step(grid: Grid, src: Int3, step: Int3) -> bool {
    match step_faces(step) {
        Some((leaving, entering)) => {
            &&& cell::opens(grid.get_or_open_all(src), leaving)
            &&& cell::opens(grid.get_or_open_all(src.plus(step)), entering)
        },
        None => false,
    }
}

/// A solid cell cannot be left: where the grid holds a cell at `src` and no face
/// of it is open, no step from it is allowed, whatever lies beyond.
pub proof fn lemma_closed_source_blocks(grid: Grid, src: Int3, step: Int3)
    requires
        grid.get(src) == Some(cell::EMPTY),
    ensures
        !can_step(grid, src, step),
{
    cell::lemma_faces();
    if let Some((leaving, entering)) = step_faces(step) {
        assert(cell::is_face(leaving));
    }
}

/// Off the grid nothing blocks: a step of one cell along one axis between two
/// places that the grid does not hold is allowed.
pub proof fn lemma_off_grid_is_open(grid: Grid, src: Int3, step: Int3)
    requires
        step_faces(step) is Some,
        grid.get(src) is None,
        grid.get(src.plus(step)) is None,
    ensures
        can_step(grid, src, step),
{
    cell::lemma_faces();
    let (leaving, entering) = step_faces(step)->0;
    assert(cell::is_face(leaving) && cell::is_face(entering));
}

/// Both sides agree: a step is allowed exactly when the step back is.
pub proof fn lemma_can_step_back(grid: Grid, src: Int3, step: Int3)
    ensures
        can_step(grid, src, step) == can_step(grid, src.plus(step), step.negated()),
{
    assert(src.plus(step).plus(step.negated()) == src);
}

/// The cell reached from `src_cell_indices` by `move_direction`.
pub fn calculate_destination_cell_indices_from_move_direction(
    src_cell_indices: IVec3,
    move_direction: IVec3,
) -> (dst_cell_indices: IVec3)
    requires
        src_cell_indices@.plus(move_direction@).fits_i32(),
    ensures
        dst_cell_indices@ == src_cell_indices@.plus(move_direction@),
{
    src_cell_indices + move_direction
}

/// The pair of faces that a step crosses, as `step_faces` defines it.
fn faces_of_step(move_direction: IVec3) -> (faces: Option<(cell::Type, cell::Type)>)
    ensures
        faces == step_faces(move_direction@),
{
    let IVec3 { x, y, z } = move_direction;
    if x == 1 && y == 0 && z == 0 {
        Some((cell::OPEN_POS_X, cell::OPEN_NEG_X))
    } else if x == 0 && y == 1 && z == 0 {
        Some((cell::OPEN_POS_Y, cell::OPEN_NEG_Y))
    } else if x == 0 && y == 0 && z == 1 {
        Some((cell::OPEN_POS_Z, cell::OPEN_NEG_Z))
    } else if x == -1 && y == 0 && z == 0 {
        Some((cell::OPEN_NEG_X, cell::OPEN_POS_X))
    } else if x == 0 && y == -1 && z == 0 {
        Some((cell::OPEN_NEG_Y, cell::OPEN_POS_Y))
    } else if x == 0 && y == 0 && z == -1 {
        Some((cell::OPEN_NEG_Z, cell::OPEN_POS_Z))
    } else {
        None
    }
}

/// Decides whether the step `move_direction` from the cell at `src_cell_indices`
/// is allowed. Total: a step that is not one cell along one axis is refused, and a
/// destination beyond the range of `i32` lies off the grid like any other.
pub fn can_move_in_direction(src_cell_indices: IVec3, move_direction: IVec3, cells: &Cells) -> (allowed:
    bool)
    ensures
        allowed == can_step(cells@, src_cell_indices@, move_direction@),
{
    match faces_of_step(move_direction) {
        None => false,
        Some((leaving, entering)) => {
            let src_cell_type = cells.get_or_open_all(src_cell_indices);
            let dst_cell_type = match (
                src_cell_indices.x.checked_add(move_direction.x),
                src_cell_indices.y.checked_add(move_direction.y),
                src_cell_indices.z.checked_add(move_direction.z),
            ) {
                (Some(x), Some(y), Some(z)) => cells.get_or_open_all(IVec3::new(x, y, z)),
                _ => cell::OPEN_ALL,
            };
            src_cell_type.is_open(leaving) && dst_cell_type.is_open(entering)
        },
    }
}

/// Decides whether an agent in the cell at `src_cell_indices` may move into the
/// cell at `dst_cell_indices`: only into a neighbour across one face, and only
/// where `can_step` allows the step between the two.
pub fn can_move_to_cell(src_cell_indices: IVec3, dst_cell_indices: IVec3, cells: &Cells) -> (allowed:
    bool)
    ensures
        allowed == can_step(cells@, src_cell_indices@, dst_cell_indices@.minus(src_cell_indices@)),
{
    let x: i64 = dst_cell_indices.x as i64 - src_cell_indices.x as i64;
    let y: i64 = dst_cell_indices.y as i64 - src_cell_indices.y as i64;
    let z: i64 = dst_cell_indices.z as i64 - src_cell_indices.z as i64;
    if -1 <= x && x <= 1 && -1 <= y && y <= 1 && -1 <= z && z <= 1 {
        can_move_in_direction(src_cell_indices, IVec3::new(x as i32, y as i32, z as i32), cells)
    } else {
        false
    }
}

/// Decides whether an agent in the cell `position` may move by `move_direction`.
/// The cell lies within `bounds`, the box that places the grid in the map, and is
/// looked up in the grid by its indices in that box.
pub fn can_move(position: CellCoords, move_direction: IVec3, cells: &Cells, bounds: &IBounds3) -> (allowed:
    bool)
    requires
        position.within(*bounds),
        bounds@.size().fits_i32(),
    ensures
        allowed == can_step(cells@, position@.minus(bounds.min@), move_direction@),
{
    let src_cell_indices = position.as_cell_indices(*bounds);
    can_move_in_direction(src_cell_indices, move_direction, cells)
}

} // verus!
