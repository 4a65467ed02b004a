//! What a loaded map puts into the world: its bounds, and for every cell the
//! closed block or the walls that stand for it.
use crate::cell;
use crate::cell::Openings;
use crate::cells::{lemma_longest_is_max, lemma_widest_is_max, longest, widest, Cells, Grid};
use crate::coordinates::CellCoords;
use crate::ibounds3::{Box3, IBounds3};
use crate::ivec3::{IVec3, Int3};
use vstd::prelude::*;

verus! {

/// Where the loaded map lies in cell coordinates.
#[derive(Clone, Copy, Debug, Default)]
pub struct MapData {
    pub bounds: IBounds3,
}

/// The bounds of a grid: a box of the size of the grid around the origin.
pub open spec fn grid_bounds(grid: Grid) -> Box3 {
    Box3::centered(Int3 { x: 0, y: 0, z: 0 }, grid.size)
}

/// The bounds of a parsed grid.
fn map_data_for(cells: &Cells) -> (map_data: MapData)
    requires
        cells.wf(),
    ensures
        map_data.bounds@ == grid_bounds(cells@),
{
    MapData { bounds: IBounds3::new(IVec3::splat(0), cells.size) }
}

/// Loads a map from its text: the grid of its cells, and bounds of the size of the
/// grid around the origin. `None` when the map is so large that its size on some
/// axis reaches `i32::MAX`.
pub fn try_load_map(cells_string: &str) -> (loaded: Option<(Cells, MapData)>)
    ensures
        loaded is Some <==> Grid::parse(cells_string@).representable(),
        loaded matches Some((cells, map_data)) ==> cells@ == Grid::parse(cells_string@)
            && cells.wf() && map_data.bounds@ == grid_bounds(cells@),
{
    match Cells::try_from_string(cells_string) {
        Some(cells) => {
            let map_data = map_data_for(&cells);
            Some((cells, map_data))
        },
        None => None,
    }
}

/// Loads a map whose size stays below `i32::MAX` on every axis.
pub fn load_map(cells_string: &str) -> (loaded: (Cells, MapData))
    requires
        Grid::parse(cells_string@).representable(),
    ensures
        loaded.0@ == Grid::parse(cells_string@),
        loaded.0.wf(),
        loaded.1.bounds@ == grid_bounds(loaded.0@),
{
    let cells = Cells::from_string(cells_string);
    let map_data = map_data_for(&cells);
    (cells, map_data)
}

/// One thing that stands for a cell in the scene.
#[derive(Clone, Copy, Debug, PartialEq, Eq, Structural)]
pub enum SceneElement {
    /// The block that fills a solid cell.
    Closed,
    /// The wall on the face towards `x - 1`.
    WallNegX,
    /// The wall on the face towards `x + 1`.
    WallPosX,
    /// The wall on the face towards `y - 1`.
    WallNegY,
    /// The wall on the face towards `y + 1`.
    WallPosY,
    /// The wall on the face towards `z - 1`.
    WallNegZ,
}

/// A scene element and the cell it belongs to.
#[derive(Clone, Copy, Debug)]
pub struct Placement {
    pub cell_coords: CellCoords,
    pub element: SceneElement,
}

/// The wall `wall` where `cell_type` is not open towards `direction`.
pub open spec fn wall_if_closed(cell_type: cell::Type, direction: cell::Type, wall: SceneElement) -> Seq<
    SceneElement,
> {
    if cell::opens(cell_type, direction) {
        seq![]
    } else {
        seq![wall]
    }
}

/// What stands for a cell with the flags `cell_type`: a closed block for a solid
/// cell, else a wall on each face that is not open, but for the face towards
/// `z + 1`, which is left free so that one can look into the level from above.
pub open spec fn cell_elements(cell_type: cell::Type) -> Seq<SceneElement> {
    if cell_type == cell::EMPTY {
        seq![SceneElement::Closed]
    } else {
        wall_if_closed(cell_type, cell::OPEN_NEG_X, SceneElement::WallNegX) + wall_if_closed(
            cell_type,
            cell::OPEN_POS_X,
            SceneElement::WallPosX,
        ) + wall_if_closed(cell_type, cell::OPEN_NEG_Y, SceneElement::WallNegY) + wall_if_closed(
            cell_type,
            cell::OPEN_POS_Y,
            SceneElement::WallPosY,
        ) + wall_if_closed(cell_type, cell::OPEN_NEG_Z, SceneElement::WallNegZ)
    }
}

/// The elements of one cell, each placed at `cell_coords`.
pub open spec fn cell_placements(cell_coords: CellCoords, cell_type: cell::Type) -> Seq<Placement> {
    Seq::new(
        cell_elements(cell_type).len(),
        |i: int| Placement { cell_coords, element: cell_elements(cell_type)[i] },
    )
}

/// The cell with the indices `x`, `y`, `z` in a box whose lower corner is `min`.
pub open spec fn cell_at(min: IVec3, x: int, y: int, z: int) -> CellCoords {
    CellCoords { x: (x + min.x) as i32, y: (y + min.y) as i32, z: (z + min.z) as i32 }
}

/// The placements of the first `upto` cells of a row, in the order of the cells.
pub open spec fn row_placements(row: Seq<cell::Type>, y: int, z: int, min: IVec3, upto: int) -> Seq<
    Placement,
>
    decreases upto,
{
    if upto <= 0 {
        seq![]
    } else {
        row_placements(row, y, z, min, upto - 1) + cell_placements(
            cell_at(min, upto - 1, y, z),
            row[upto - 1],
        )
    }
}

/// The placements of the first `upto` rows of a level, row after row.
pub open spec fn level_placements(level: Seq<Seq<cell::Type>>, z: int, min: IVec3, upto: int) -> Seq<
    Placement,
>
    decreases upto,
{
    if upto <= 0 {
        seq![]
    } else {
        level_placements(level, z, min, upto - 1) + row_placements(
            level[upto - 1],
            upto - 1,
            z,
            min,
            level[upto - 1].len() as int,
        )
    }
}

/// The placements of the first `upto` levels of a grid, level after level.
pub open spec fn grid_placements(levels: Seq<Seq<Seq<cell::Type>>>, min: IVec3, upto: int) -> Seq<
    Placement,
>
    decreases upto,
{
    if upto <= 0 {
        seq![]
    } else {
        grid_placements(levels, min, upto - 1) + level_placements(
            levels[upto - 1],
            upto - 1,
            min,
            levels[upto - 1].len() as int,
        )
    }
}

/// Adds to `placements` what stands for the cell at `cell_coords`.
fn place_cell(cell_coords: CellCoords, cell_type: cell::Type, placements: &mut Vec<Placement>)
    ensures
        final(placements)@ == old(placements)@ + cell_placements(cell_coords, cell_type),
{
    let ghost before = placements@;
    if cell_type == cell::EMPTY {
        placements.push(Placement { cell_coords, element: SceneElement::Closed });
    } else {
        if cell_type.is_closed(cell::OPEN_NEG_X) {
            placements.push(Placement { cell_coords, element: SceneElement::WallNegX });
        }
        if cell_type.is_closed(cell::OPEN_POS_X) {
            placements.push(Placement { cell_coords, element: SceneElement::WallPosX });
        }
        if cell_type.is_closed(cell::OPEN_NEG_Y) {
            placements.push(Placement { cell_coords, element: SceneElement::WallNegY });
        }
        if cell_type.is_closed(cell::OPEN_POS_Y) {
            placements.push(Placement { cell_coords, element: SceneElement::WallPosY });
        }
        if cell_type.is_closed(cell::OPEN_NEG_Z) {
            placements.push(Placement { cell_coords, element: SceneElement::WallNegZ });
        }
    }
    proof {
        assert(placements@ =~= before + cell_placements(cell_coords, cell_type));
    }
}

/// Adds to `placements` what stands for the cells of one row.
fn place_row(
    row: &Vec<cell::Type>,
    y: i32,
    z: i32,
    map_bounds: &IBounds3,
    placements: &mut Vec<Placement>,
)
    requires
        row.len() <= i32::MAX,
        row.len() + map_bounds.min.x <= i32::MAX + 1,
        i32::MIN <= y + map_bounds.min.y <= i32::MAX,
        i32::MIN <= z + map_bounds.min.z <= i32::MAX,
        y >= 0 && z >= 0,
    ensures
        final(placements)@ == old(placements)@ + row_placements(
            row@,
            y as int,
            z as int,
            map_bounds.min,
            row.len() as int,
        ),
{
    let ghost before = placements@;
    let mut x: i32 = 0;
    while (x as usize) < row.len()
        invariant
            0 <= x <= row.len() <= i32::MAX,
            row.len() + map_bounds.min.x <= i32::MAX + 1,
            i32::MIN <= y + map_bounds.min.y <= i32::MAX,
            i32::MIN <= z + map_bounds.min.z <= i32::MAX,
            y >= 0 && z >= 0,
            placements@ == before + row_placements(row@, y as int, z as int, map_bounds.min, x as int),
        decreases row.len() - x,
    {
        let ghost done = row_placements(row@, y as int, z as int, map_bounds.min, x as int);
        let cell_coords = CellCoords::from_cell_indices(IVec3::new(x, y, z), map_bounds);
        proof {
            assert(cell_coords@ == cell_at(map_bounds.min, x as int, y as int, z as int)@);
            assert(cell_coords == cell_at(map_bounds.min, x as int, y as int, z as int));
        }
        place_cell(cell_coords, row[x as usize], placements);
        proof {
            let added = cell_placements(cell_coords, row@[x as int]);
            assert((before + done) + added =~= before + (done + added));
        }
        x += 1;
    }
}

/// Adds to `placements` what stands for the cells of one level.
fn place_level(
    level: &Vec<Vec<cell::Type>>,
    z: i32,
    map_bounds: &IBounds3,
    width: i32,
    placements: &mut Vec<Placement>,
)
    requires
        level.len() <= i32::MAX,
        forall|y: int| 0 <= y < level.len() ==> (#[trigger] level[y]).len() <= width,
        width + map_bounds.min.x <= i32::MAX + 1,
        level.len() + map_bounds.min.y <= i32::MAX + 1,
        i32::MIN <= z + map_bounds.min.z <= i32::MAX,
        z >= 0,
    ensures
        final(placements)@ == old(placements)@ + level_placements(
            level.deep_view(),
            z as int,
            map_bounds.min,
            level.len() as int,
        ),
{
    let ghost before = placements@;
    let mut y: i32 = 0;
    while (y as usize) < level.len()
        invariant
            0 <= y <= level.len() <= i32::MAX,
            forall|y: int| 0 <= y < level.len() ==> (#[trigger] level[y]).len() <= width,
            width + map_bounds.min.x <= i32::MAX + 1,
            level.len() + map_bounds.min.y <= i32::MAX + 1,
            i32::MIN <= z + map_bounds.min.z <= i32::MAX,
            z >= 0,
            placements@ == before + level_placements(level.deep_view(), z as int, map_bounds.min, y as int),
        decreases level.len() - y,
    {
        let ghost done = level_placements(level.deep_view(), z as int, map_bounds.min, y as int);
        let row = &level[y as usize];
        proof {
            assert(level[y as int].len() <= width);
            assert(level.deep_view()[y as int] =~= row@);
        }
        place_row(row, y, z, map_bounds, placements);
        proof {
            let added = row_placements(row@, y as int, z as int, map_bounds.min, row.len() as int);
            assert((before + done) + added =~= before + (done + added));
        }
        y += 1;
    }
}

/// Lists what stands for the cells of a grid in the scene, cell by cell along each
/// row, row by row and level by level, each element with the cell it belongs to.
/// The grid is one that parsing gave, and `map_bounds` lies so that every cell of
/// the grid has coordinates.
pub fn scene_placements(cells: &Cells, map_bounds: &IBounds3) -> (placements: Vec<Placement>)
    requires
        cells.wf(),
        map_bounds.min@.plus(cells@.size).fits_i32(),
    ensures
        placements@ == grid_placements(
            cells@.levels,
            map_bounds.min,
            cells@.levels.len() as int,
        ),
{
    let mut placements: Vec<Placement> = Vec::new();
    let mut z: i32 = 0;
    proof {
        lemma_longest_is_max(cells@.levels);
        lemma_widest_is_max(cells@.levels);
    }
    while (z as usize) < cells.array.len()
        invariant
            0 <= z <= cells.array.len() < i32::MAX,
            cells.wf(),
            map_bounds.min@.plus(cells@.size).fits_i32(),
            forall|i: int|
                0 <= i < cells@.levels.len() ==> (#[trigger] cells@.levels[i]).len() <= longest(
                    cells@.levels,
                ),
            forall|i: int, j: int|
                0 <= i < cells@.levels.len() && 0 <= j < cells@.levels[i].len() ==> (
                #[trigger] cells@.levels[i][j]).len() <= widest(cells@.levels),
            placements@ == grid_placements(cells@.levels, map_bounds.min, z as int),
        decreases cells.array.len() - z,
    {
        let ghost done = grid_placements(cells@.levels, map_bounds.min, z as int);
        let level = &cells.array[z as usize];
        proof {
            assert(cells@.levels[z as int] == level.deep_view());
            assert(level.deep_view().len() <= longest(cells@.levels));
            assert forall|y: int| 0 <= y < level.len() implies (#[trigger] level[y]).len()
                <= cells.size.x by {
                assert(cells@.levels[z as int][y].len() <= widest(cells@.levels));
                assert(level.deep_view()[y] =~= level[y]@);
            }
        }
        place_level(level, z, map_bounds, cells.size.x, &mut placements);
        proof {
            let added = level_placements(level.deep_view(), z as int, map_bounds.min, level.len() as int);
            assert(done + added =~= grid_placements(cells@.levels, map_bounds.min, z as int + 1));
        }
        z += 1;
    }
    placements
}

} // verus!
