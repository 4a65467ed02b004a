use coderaid::cell;
use coderaid::cells::Cells;
use coderaid::coordinates::CellCoords;
use coderaid::ibounds3::IBounds3;
use coderaid::ivec3::IVec3;
use coderaid::navigation::{
    calculate_destination_cell_indices_from_move_direction, can_move, can_move_in_direction,
    can_move_to_cell,
};

fn six_directions() -> [IVec3; 6] {
    [
        IVec3::new(1, 0, 0),
        IVec3::new(-1, 0, 0),
        IVec3::new(0, 1, 0),
        IVec3::new(0, -1, 0),
        IVec3::new(0, 0, 1),
        IVec3::new(0, 0, -1),
    ]
}

fn cell_of(position: (f32, f32, f32)) -> CellCoords {
    CellCoords::new(position.0 as i32, position.1 as i32, position.2 as i32)
}

#[test]
fn a_solid_cell_cannot_be_left() {
    let cells = Cells { array: vec![vec![vec![cell::EMPTY]]], size: IVec3::new(1, 1, 1) };
    let bounds = IBounds3::new(IVec3::new(0, 0, 0), cells.size);
    let centre = cell_of((0.5, 0.5, 0.5));
    for direction in six_directions() {
        assert!(!can_move(centre, direction, &cells, &bounds), "{direction:?}");
        assert!(!can_move_in_direction(IVec3::new(0, 0, 0), direction, &cells));
    }
}

#[test]
fn a_parsed_solid_cell_cannot_be_left() {
    let cells = Cells::from_string("█");
    for direction in six_directions() {
        assert!(!can_move_in_direction(IVec3::new(0, 0, 0), direction, &cells));
    }
}

#[test]
fn a_door_is_passed_where_both_sides_are_open() {
    let cells = Cells {
        array: vec![vec![vec![cell::OPEN_POS_X, cell::OPEN_NEG_X]]],
        size: IVec3::new(2, 1, 1),
    };
    let origin = IVec3::new(0, 0, 0);
    assert!(can_move_in_direction(origin, IVec3::new(1, 0, 0), &cells));
    for direction in six_directions() {
        if direction != IVec3::new(1, 0, 0) {
            assert!(!can_move_in_direction(origin, direction, &cells), "{direction:?}");
        }
    }
    let bounds = IBounds3 { min: IVec3::new(0, 0, 0), max: IVec3::new(2, 1, 1) };
    assert!(can_move(CellCoords::new(0, 0, 0), IVec3::new(1, 0, 0), &cells, &bounds));
    assert!(!can_move(CellCoords::new(0, 0, 0), IVec3::new(0, 1, 0), &cells, &bounds));
}

#[test]
fn a_door_is_shut_where_one_side_is_closed() {
    let cells = Cells {
        array: vec![vec![vec![cell::OPEN_POS_X, cell::OPEN_POS_X]]],
        size: IVec3::new(2, 1, 1),
    };
    assert!(!can_move_in_direction(IVec3::new(0, 0, 0), IVec3::new(1, 0, 0), &cells));
    assert!(!can_move_in_direction(IVec3::new(1, 0, 0), IVec3::new(-1, 0, 0), &cells));
    let cells = Cells {
        array: vec![vec![vec![cell::EMPTY, cell::OPEN_NEG_X]]],
        size: IVec3::new(2, 1, 1),
    };
    assert!(!can_move_in_direction(IVec3::new(0, 0, 0), IVec3::new(1, 0, 0), &cells));
    assert!(!can_move_in_direction(IVec3::new(1, 0, 0), IVec3::new(-1, 0, 0), &cells));
}

#[test]
fn every_axis_has_its_pair_of_faces() {
    let pairs = [
        (IVec3::new(1, 0, 0), cell::OPEN_POS_X, cell::OPEN_NEG_X),
        (IVec3::new(-1, 0, 0), cell::OPEN_NEG_X, cell::OPEN_POS_X),
        (IVec3::new(0, 1, 0), cell::OPEN_POS_Y, cell::OPEN_NEG_Y),
        (IVec3::new(0, -1, 0), cell::OPEN_NEG_Y, cell::OPEN_POS_Y),
        (IVec3::new(0, 0, 1), cell::OPEN_POS_Z, cell::OPEN_NEG_Z),
        (IVec3::new(0, 0, -1), cell::OPEN_NEG_Z, cell::OPEN_POS_Z),
    ];
    let src = IVec3::new(1, 1, 1);
    for (direction, leaving, entering) in pairs {
        let mut array = vec![vec![vec![cell::EMPTY; 3]; 3]; 3];
        array[1][1][1] = leaving;
        let dst = src + direction;
        array[dst.z as usize][dst.y as usize][dst.x as usize] = entering;
        let cells = Cells { array, size: IVec3::new(3, 3, 3) };
        for other in six_directions() {
            assert_eq!(
                can_move_in_direction(src, other, &cells),
                other == direction,
                "{direction:?} {other:?}"
            );
        }
        assert!(can_move_to_cell(src, dst, &cells));
        assert!(can_move_to_cell(dst, src, &cells));
    }
}

#[test]
fn off_the_grid_every_face_is_open() {
    let cells = Cells::from_string("╬");
    let origin = IVec3::new(0, 0, 0);
    assert!(can_move_in_direction(origin, IVec3::new(1, 0, 0), &cells));
    assert!(can_move_in_direction(origin, IVec3::new(-1, 0, 0), &cells));
    assert!(can_move_in_direction(origin, IVec3::new(0, 1, 0), &cells));
    assert!(can_move_in_direction(origin, IVec3::new(0, -1, 0), &cells));
    assert!(!can_move_in_direction(origin, IVec3::new(0, 0, 1), &cells));
    assert!(!can_move_in_direction(origin, IVec3::new(0, 0, -1), &cells));
    let outside = IVec3::new(5, 5, 5);
    for direction in six_directions() {
        assert!(can_move_in_direction(outside, direction, &cells));
    }
    assert!(can_move_in_direction(IVec3::new(1, 0, 0), IVec3::new(-1, 0, 0), &cells));
    assert!(!can_move_in_direction(IVec3::new(0, 0, 1), IVec3::new(0, 0, -1), &cells));
}

#[test]
fn a_step_is_one_cell_along_one_axis() {
    let cells = Cells::from_string("╬╬\n╬╬");
    let origin = IVec3::new(0, 0, 0);
    for direction in [
        IVec3::new(0, 0, 0),
        IVec3::new(1, 1, 0),
        IVec3::new(1, 0, 1),
        IVec3::new(-1, -1, -1),
        IVec3::new(2, 0, 0),
        IVec3::new(0, -2, 0),
        IVec3::new(i32::MAX, 0, 0),
        IVec3::new(i32::MIN, i32::MIN, i32::MIN),
    ] {
        assert!(!can_move_in_direction(origin, direction, &cells), "{direction:?}");
    }
    assert!(!can_move_to_cell(origin, origin, &cells));
    assert!(!can_move_to_cell(origin, IVec3::new(1, 1, 0), &cells));
    assert!(!can_move_to_cell(origin, IVec3::new(2, 0, 0), &cells));
    assert!(!can_move_to_cell(IVec3::new(i32::MIN, 0, 0), IVec3::new(i32::MAX, 0, 0), &cells));
    assert!(can_move_to_cell(origin, IVec3::new(1, 0, 0), &cells));
    assert!(can_move_to_cell(origin, IVec3::new(0, 1, 0), &cells));
}

#[test]
fn steps_at_the_edge_of_the_integers_lead_off_the_grid() {
    let cells = Cells::from_string("█");
    let far = IVec3::new(i32::MAX, i32::MAX, i32::MAX);
    let near = IVec3::new(i32::MIN, i32::MIN, i32::MIN);
    for direction in six_directions() {
        assert!(can_move_in_direction(far, direction, &cells), "{direction:?}");
        assert!(can_move_in_direction(near, direction, &cells), "{direction:?}");
    }
}

#[test]
fn moves_on_the_sample_map() {
    let cells = Cells::from_string("\n╞═╦╗\n╞═╬╣\n██║║\n╞═╩╝\n");
    let bounds = IBounds3::new(IVec3::new(0, 0, 0), cells.size);
    assert_eq!((bounds.min.x, bounds.min.y, bounds.min.z), (-2, -2, 0));
    let east = IVec3::new(1, 0, 0);
    let west = IVec3::new(-1, 0, 0);
    let south = IVec3::new(0, 1, 0);
    let north = IVec3::new(0, -1, 0);
    let corner = CellCoords::new(-2, -2, 0);
    assert!(can_move(corner, east, &cells, &bounds));
    assert!(!can_move(corner, west, &cells, &bounds));
    assert!(!can_move(corner, south, &cells, &bounds));
    assert!(!can_move(corner, north, &cells, &bounds));
    let junction = CellCoords::new(0, -1, 0);
    assert!(can_move(junction, east, &cells, &bounds));
    assert!(can_move(junction, west, &cells, &bounds));
    assert!(can_move(junction, south, &cells, &bounds));
    assert!(can_move(junction, north, &cells, &bounds));
    let solid = CellCoords::new(-2, 0, 0);
    assert!(!can_move(solid, east, &cells, &bounds));
    assert!(!can_move(solid, north, &cells, &bounds));
    let top_right = CellCoords::new(1, -2, 0);
    assert!(!can_move(top_right, east, &cells, &bounds));
    assert!(can_move(top_right, south, &cells, &bounds));
}

#[test]
fn both_sides_agree_on_every_step_of_the_sample_map() {
    let cells = Cells::from_string("\n╞═╦╗\n╞═╬╣\n██║║\n╞═╩╝\n");
    for x in -1..5 {
        for y in -1..5 {
            let src = IVec3::new(x, y, 0);
            for direction in six_directions() {
                let dst = src + direction;
                assert_eq!(
                    can_move_in_direction(src, direction, &cells),
                    can_move_in_direction(dst, -direction, &cells),
                    "{src:?} {direction:?}"
                );
                assert_eq!(
                    can_move_to_cell(src, dst, &cells),
                    can_move_in_direction(src, direction, &cells)
                );
            }
        }
    }
}

#[test]
fn the_destination_is_the_source_plus_the_step() {
    let dst = calculate_destination_cell_indices_from_move_direction(
        IVec3::new(3, 4, 5),
        IVec3::new(0, -1, 0),
    );
    assert_eq!(dst, IVec3::new(3, 3, 5));
}
