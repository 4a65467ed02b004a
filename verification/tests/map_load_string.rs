use coderaid::cell;
use coderaid::cells::Cells;

#[test]
fn test_map_load_string_1x4x4() {
    let map_string = "
╞═╦╗
╞═╬╣
██║║
╞═╩╝
";

    let cells = Cells::from_string(map_string);

    // ╞═╦╗
    assert_eq!(
        cells.array[0][0],
        [
            cell::OPEN_POS_X,
            cell::OPEN_NEG_X | cell::OPEN_POS_X,
            cell::OPEN_NEG_X | cell::OPEN_POS_X | cell::OPEN_POS_Y,
            cell::OPEN_NEG_X | cell::OPEN_POS_Y
        ]
    );

    // ╞═╬╣
    assert_eq!(
        cells.array[0][1],
        [
            cell::OPEN_POS_X,
            cell::OPEN_NEG_X | cell::OPEN_POS_X,
            cell::OPEN_NEG_X | cell::OPEN_POS_X | cell::OPEN_POS_Y | cell::OPEN_NEG_Y,
            cell::OPEN_NEG_X | cell::OPEN_POS_Y | cell::OPEN_NEG_Y
        ]
    );

    // ██║║
    assert_eq!(
        cells.array[0][2],
        [
            cell::EMPTY,
            cell::EMPTY,
            cell::OPEN_NEG_Y | cell::OPEN_POS_Y,
            cell::OPEN_NEG_Y | cell::OPEN_POS_Y
        ]
    );

    // ╞═╩╝
    assert_eq!(
        cells.array[0][3],
        [
            cell::OPEN_POS_X,
            cell::OPEN_NEG_X | cell::OPEN_POS_X,
            cell::OPEN_NEG_X | cell::OPEN_POS_X | cell::OPEN_NEG_Y,
            cell::OPEN_NEG_X | cell::OPEN_NEG_Y
        ]
    );
}

#[test]
fn test_map_load_string_1x8x8() {
    let map_string = "
╞═╦╗╔╦╩╡
╞═╬╣╠╬╦╡
██║║╠╣║█
╞═╩╝╠╣║█
╔╗╔╗╚╝║█
╝╚╝╚╗╔╝█
████╚╝██
████╔╗██
";

    let cells = Cells::from_string(map_string);

    // ╞═╦╗╔╦╩╡
    assert_eq!(
        cells.array[0][0],
        [
            cell::OPEN_POS_X,
            cell::OPEN_POS_X | cell::OPEN_NEG_X,
            cell::OPEN_POS_X | cell::OPEN_NEG_X | cell::OPEN_POS_Y,
            cell::OPEN_NEG_X | cell::OPEN_POS_Y,
            cell::OPEN_POS_X | cell::OPEN_POS_Y,
            cell::OPEN_POS_X | cell::OPEN_NEG_X | cell::OPEN_POS_Y,
            cell::OPEN_POS_X | cell::OPEN_NEG_X | cell::OPEN_NEG_Y,
            cell::OPEN_NEG_X
        ]
    );

    // ╞═╬╣╠╬╦╡
    assert_eq!(
        cells.array[0][1],
        [
            cell::OPEN_POS_X,
            cell::OPEN_POS_X | cell::OPEN_NEG_X,
            cell::OPEN_POS_X | cell::OPEN_NEG_X | cell::OPEN_NEG_Y | cell::OPEN_POS_Y,
            cell::OPEN_NEG_X | cell::OPEN_NEG_Y | cell::OPEN_POS_Y,
            cell::OPEN_POS_X | cell::OPEN_NEG_Y | cell::OPEN_POS_Y,
            cell::OPEN_POS_X | cell::OPEN_NEG_X | cell::OPEN_NEG_Y | cell::OPEN_POS_Y,
            cell::OPEN_POS_X | cell::OPEN_NEG_X | cell::OPEN_POS_Y,
            cell::OPEN_NEG_X
        ]
    );

    // ██║║╠╣║█
    assert_eq!(
        cells.array[0][2],
        [
            cell::EMPTY,
            cell::EMPTY,
            cell::OPEN_NEG_Y | cell::OPEN_POS_Y,
            cell::OPEN_NEG_Y | cell::OPEN_POS_Y,
            cell::OPEN_NEG_Y | cell::OPEN_POS_Y | cell::OPEN_POS_X,
            cell::OPEN_NEG_Y | cell::OPEN_POS_Y | cell::OPEN_NEG_X,
            cell::OPEN_NEG_Y | cell::OPEN_POS_Y,
            cell::EMPTY
        ]
    );

    // ╞═╩╝╠╣║█
    assert_eq!(
        cells.array[0][3],
        [
            cell::OPEN_POS_X,
            cell::OPEN_POS_X | cell::OPEN_NEG_X,
            cell::OPEN_POS_X | cell::OPEN_NEG_X | cell::OPEN_NEG_Y,
            cell::OPEN_NEG_X | cell::OPEN_NEG_Y,
            cell::OPEN_NEG_Y | cell::OPEN_POS_Y | cell::OPEN_POS_X,
            cell::OPEN_NEG_Y | cell::OPEN_POS_Y | cell::OPEN_NEG_X,
            cell::OPEN_NEG_Y | cell::OPEN_POS_Y,
            cell::EMPTY
        ]
    );

    // ╔╗╔╗╚╝║█
    assert_eq!(
        cells.array[0][4],
        [
            cell::OPEN_POS_Y | cell::OPEN_POS_X,
            cell::OPEN_POS_Y | cell::OPEN_NEG_X,
            cell::OPEN_POS_Y | cell::OPEN_POS_X,
            cell::OPEN_POS_Y | cell::OPEN_NEG_X,
            cell::OPEN_NEG_Y | cell::OPEN_POS_X,
            cell::OPEN_NEG_Y | cell::OPEN_NEG_X,
            cell::OPEN_NEG_Y | cell::OPEN_POS_Y,
            cell::EMPTY
        ]
    );

    // ╝╚╝╚╗╔╝█
    assert_eq!(
        cells.array[0][5],
        [
            cell::OPEN_NEG_Y | cell::OPEN_NEG_X,
            cell::OPEN_NEG_Y | cell::OPEN_POS_X,
            cell::OPEN_NEG_Y | cell::OPEN_NEG_X,
            cell::OPEN_NEG_Y | cell::OPEN_POS_X,
            cell::OPEN_POS_Y | cell::OPEN_NEG_X,
            cell::OPEN_POS_Y | cell::OPEN_POS_X,
            cell::OPEN_NEG_Y | cell::OPEN_NEG_X,
            cell::EMPTY
        ]
    );

    // ████╚╝██
    assert_eq!(
        cells.array[0][6],
        [
            cell::EMPTY,
            cell::EMPTY,
            cell::EMPTY,
            cell::EMPTY,
            cell::OPEN_NEG_Y | cell::OPEN_POS_X,
            cell::OPEN_NEG_Y | cell::OPEN_NEG_X,
            cell::EMPTY,
            cell::EMPTY,
        ]
    );

    // ████╔╗██
    assert_eq!(
        cells.array[0][7],
        [
            cell::EMPTY,
            cell::EMPTY,
            cell::EMPTY,
            cell::EMPTY,
            cell::OPEN_POS_Y | cell::OPEN_POS_X,
            cell::OPEN_POS_Y | cell::OPEN_NEG_X,
            cell::EMPTY,
            cell::EMPTY,
        ]
    );
}
