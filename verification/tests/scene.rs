use coderaid::cell;
use coderaid::cells::Cells;
use coderaid::ibounds3::IBounds3;
use coderaid::ivec3::IVec3;
use coderaid::scene::{load_map, scene_placements, try_load_map, Placement, SceneElement};

fn listed(placements: &[Placement]) -> Vec<((i32, i32, i32), SceneElement)> {
    placements
        .iter()
        .map(|p| ((p.cell_coords.x, p.cell_coords.y, p.cell_coords.z), p.element))
        .collect()
}

#[test]
fn a_loaded_map_is_centred_on_the_origin() {
    let (cells, map_data) = load_map("\n╞═╦╗\n╞═╬╣\n██║║\n╞═╩╝\n");
    assert_eq!(cells.size, IVec3::new(4, 4, 1));
    assert_eq!(map_data.bounds.min, IVec3::new(-2, -2, 0));
    assert_eq!(map_data.bounds.max, IVec3::new(2, 2, 1));
    assert_eq!(cells.array, Cells::from_string("\n╞═╦╗\n╞═╬╣\n██║║\n╞═╩╝\n").array);
}

#[test]
fn a_loaded_map_of_odd_size_leans_to_the_max_side() {
    let (cells, map_data) = load_map("╞═╡\n\n═\n\n║");
    assert_eq!(cells.size, IVec3::new(3, 1, 3));
    assert_eq!(map_data.bounds.min, IVec3::new(-1, 0, -1));
    assert_eq!(map_data.bounds.max, IVec3::new(2, 1, 2));
}

#[test]
fn a_solid_cell_is_a_closed_block() {
    let cells = Cells::from_string("█");
    let bounds = IBounds3::new(IVec3::new(0, 0, 0), cells.size);
    assert_eq!(listed(&scene_placements(&cells, &bounds)), vec![((0, 0, 0), SceneElement::Closed)]);
}

#[test]
fn a_cell_has_a_wall_on_each_closed_face_but_the_upper() {
    let cells = Cells::from_string("╞");
    let bounds = IBounds3::new(IVec3::new(0, 0, 0), cells.size);
    assert_eq!(
        listed(&scene_placements(&cells, &bounds)),
        vec![
            ((0, 0, 0), SceneElement::WallNegX),
            ((0, 0, 0), SceneElement::WallNegY),
            ((0, 0, 0), SceneElement::WallPosY),
            ((0, 0, 0), SceneElement::WallNegZ),
        ]
    );
    let cells = Cells {
        array: vec![vec![vec![cell::OPEN_ALL, cell::OPEN_POS_Z, cell::OPEN_NEG_Z | cell::OPEN_NEG_X]]],
        size: IVec3::new(3, 1, 1),
    };
    let bounds = IBounds3::new(IVec3::new(0, 0, 0), cells.size);
    assert_eq!(
        listed(&scene_placements(&cells, &bounds)),
        vec![
            ((0, 0, 0), SceneElement::WallNegX),
            ((0, 0, 0), SceneElement::WallPosX),
            ((0, 0, 0), SceneElement::WallNegY),
            ((0, 0, 0), SceneElement::WallPosY),
            ((0, 0, 0), SceneElement::WallNegZ),
            ((1, 0, 0), SceneElement::WallPosX),
            ((1, 0, 0), SceneElement::WallNegY),
            ((1, 0, 0), SceneElement::WallPosY),
        ]
    );
}

#[test]
fn placements_follow_the_cells_row_by_row_and_level_by_level() {
    let cells = Cells::from_string("╬█\n█\n\n█");
    assert_eq!(cells.size, IVec3::new(2, 2, 2));
    let bounds = IBounds3::new(IVec3::new(0, 0, 0), cells.size);
    assert_eq!(bounds.min, IVec3::new(-1, -1, -1));
    assert_eq!(
        listed(&scene_placements(&cells, &bounds)),
        vec![
            ((-1, -1, -1), SceneElement::WallNegZ),
            ((0, -1, -1), SceneElement::Closed),
            ((-1, 0, -1), SceneElement::Closed),
            ((-1, -1, 0), SceneElement::Closed),
        ]
    );
}

#[test]
fn an_empty_map_has_no_placements() {
    let cells = Cells::from_string("");
    let bounds = IBounds3::new(IVec3::new(0, 0, 0), cells.size);
    assert_eq!(listed(&scene_placements(&cells, &bounds)), vec![]);
}

#[test]
fn try_load_map_loads_what_load_map_loads() {
    let text = "╞═╡\n\n═\n\n║";
    let (cells, map_data) = try_load_map(text).expect("the map is small");
    let (same_cells, same_map_data) = load_map(text);
    assert_eq!(cells.array, same_cells.array);
    assert_eq!(cells.size, same_cells.size);
    assert_eq!(map_data.bounds, same_map_data.bounds);
}
