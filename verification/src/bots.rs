//! The decisions of an agent: where it is put on the map, and which way it turns
//! when it looks for a direction in which it can move.
use crate::cells::{Cells, Grid};
use crate::coordinates::CellCoords;
use crate::ibounds3::{Box3, IBounds3};
use crate::ivec3::{IVec3, Int3};
use crate::navigation::{can_move, can_move_in_direction, can_step};
use vstd::prelude::*;

verus! {

/// The value of `v` as an unsigned number of 32 bits: `v` itself where it is not
/// negative, and `v` plus two to the power of 32 where it is.
pub open spec fn wrap_u32(v: int) -> int {
    v % 0x1_0000_0000
}

/// The cell in which agents are put: on each axis the negated lower corner of the
/// box, taken as an unsigned number, modulo the size of the box, counted from the
/// lower corner. For a box around the origin this is the cell at the origin.
pub open spec fn spawn_point(bounds: Box3) -> Int3 {
    Int3 {
        x: wrap_u32(-bounds.min.x) % bounds.size().x + bounds.min.x,
        y: wrap_u32(-bounds.min.y) % bounds.size().y + bounds.min.y,
        z: wrap_u32(-bounds.min.z) % bounds.size().z + bounds.min.z,
    }
}

/// One component of `spawn_point`, from the lower corner and the size on one axis.
fn spawn_component(min: i32, size: i32) -> (component: i32)
    requires
        size > 0,
        min > i32::MIN,
        min + size <= i32::MAX,
    ensures
        component == wrap_u32(-min) % (size as int) + min,
        min <= component < min + size,
{
    let negated: i64 = -(min as i64);
    let unsigned: i64 = if negated >= 0 {
        negated
    } else {
        negated + 0x1_0000_0000
    };
    let limited: i64 = unsigned % (size as i64);
    (limited + min as i64) as i32
}

/// The cell in which a new agent is put on a map with the bounds `map_bounds`. The
/// box has a size of at least one cell on every axis.
pub fn spawn_cell_coords(map_bounds: &IBounds3) -> (coords: CellCoords)
    requires
        map_bounds@.size().fits_i32(),
        map_bounds@.size().x > 0 && map_bounds@.size().y > 0 && map_bounds@.size().z > 0,
        map_bounds.min@.negated().fits_i32(),
    ensures
        coords@ == spawn_point(map_bounds@),
        coords.within(*map_bounds),
{
    let size = map_bounds.size();
    CellCoords::new(
        spawn_component(map_bounds.min.x, size.x),
        spawn_component(map_bounds.min.y, size.y),
        spawn_component(map_bounds.min.z, size.z),
    )
}

/// The quarter turns to the right that an agent makes before it moves on: none
/// where it can go ahead, else one, two or three for the first of right, back and
/// left by which it can leave its cell, and none where it cannot move at all.
pub open spec fn quarter_turns(
    grid: Grid,
    src: Int3,
    forward: Int3,
    right: Int3,
    back: Int3,
    left: Int3,
) -> int {
    if can_step(grid, src, forward) {
        0
    } else if can_step(grid, src, right) {
        1
    } else if can_step(grid, src, back) {
        2
    } else if can_step(grid, src, left) {
        3
    } else {
        0
    }
}

/// Chooses how far an agent in the cell `position` turns, given the steps that
/// lie ahead of it, to its right, behind it and to its left.
pub fn choose_quarter_turns(
    position: CellCoords,
    forward: IVec3,
    right: IVec3,
    back: IVec3,
    left: IVec3,
    cells: &Cells,
    bounds: &IBounds3,
) -> (turns: u8)
    requires
        position.within(*bounds),
        bounds@.size().fits_i32(),
    ensures
        turns == quarter_turns(
            cells@,
            position@.minus(bounds.min@),
            forward@,
            right@,
            back@,
            left@,
        ),
{
    if can_move(position, forward, cells, bounds) {
        0
    } else if can_move(position, right, cells, bounds) {
        1
    } else if can_move(position, back, cells, bounds) {
        2
    } else if can_move(position, left, cells, bounds) {
        3
    } else {
        0
    }
}

/// The direction that an agent has chosen to move in.
#[derive(Clone, Copy, Debug, PartialEq, Eq, Structural)]
pub struct Heading {
    /// The place of the direction among the candidates: 0 for ahead, 1 for right,
    /// 2 for left and 3 for back.
    pub index: usize,
    /// The step of one cell that the agent takes.
    pub move_direction: IVec3,
    /// The indices of the cell that the step leads to.
    pub dst_cell_indices: IVec3,
}

/// The place among ahead, right, left and back, in this order, of the first step
/// by which an agent can leave the cell at `src`; `None` where there is none.
pub open spec fn first_open(
    grid: Grid,
    src: Int3,
    forward: Int3,
    right: Int3,
    left: Int3,
    back: Int3,
) -> Option<(int, Int3)> {
    if can_step(grid, src, forward) {
        Some((0, forward))
    } else if can_step(grid, src, right) {
        Some((1, right))
    } else if can_step(grid, src, left) {
        Some((2, left))
    } else if can_step(grid, src, back) {
        Some((3, back))
    } else {
        None
    }
}

/// The heading for the candidate at `index`, if the step is allowed.
fn heading_towards(index: usize, src_cell_indices: IVec3, move_direction: IVec3, cells: &Cells) -> (heading:
    Option<Heading>)
    requires
        src_cell_indices@.plus(Int3 { x: 1, y: 1, z: 1 }).fits_i32(),
        src_cell_indices@.minus(Int3 { x: 1, y: 1, z: 1 }).fits_i32(),
    ensures
        heading is Some <==> can_step(cells@, src_cell_indices@, move_direction@),
        heading matches Some(h) ==> h.index == index && h.move_direction == move_direction
            && h.dst_cell_indices@ == src_cell_indices@.plus(move_direction@),
{
    if can_move_in_direction(src_cell_indices, move_direction, cells) {
        let dst_cell_indices = src_cell_indices + move_direction;
        Some(Heading { index, move_direction, dst_cell_indices })
    } else {
        None
    }
}

/// Chooses the direction in which an agent in the cell `position` moves on: the
/// first of ahead, right, left and back by which it can leave its cell. The box
/// is smaller than `i32::MAX` on every axis, so that each neighbour of a cell in it
/// has indices.
pub fn choose_heading(
    position: CellCoords,
    forward: IVec3,
    right: IVec3,
    left: IVec3,
    back: IVec3,
    cells: &Cells,
    bounds: &IBounds3,
) -> (heading: Option<Heading>)
    requires
        position.within(*bounds),
        bounds@.size().plus(Int3 { x: 1, y: 1, z: 1 }).fits_i32(),
    ensures
        match first_open(cells@, position@.minus(bounds.min@), forward@, right@, left@, back@) {
            Some((index, step)) => heading matches Some(h) && h.index == index
                && h.move_direction@ == step && h.dst_cell_indices@ == position@.minus(
                bounds.min@,
            ).plus(step),
            None => heading is None,
        },
{
    let src_cell_indices = position.as_cell_indices(*bounds);
    if let Some(heading) = heading_towards(0, src_cell_indices, forward, cells) {
        Some(heading)
    } else if let Some(heading) = heading_towards(1, src_cell_indices, right, cells) {
        Some(heading)
    } else if let Some(heading) = heading_towards(2, src_cell_indices, left, cells) {
        Some(heading)
    } else {
        heading_towards(3, src_cell_indices, back, cells)
    }
}

} // verus!
