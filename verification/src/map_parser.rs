//! The map parser: from the text of a map to the flags of its cells.
//!
//! A map is written level by level. A blank line, that is two line feeds in a
//! row, parts one level (z) from the next. Within a level every line that is not
//! empty is a row (y), and every character of a row is a cell (x), drawn as the
//! box-drawing glyph whose arms point at the open faces.
use crate::cell;
use itertools::Itertools;
use vstd::prelude::*;

verus! {

/// The flags that a glyph stands for. The fifteen glyphs with double arms open
/// the faces that their arms point at, towards smaller y for an arm that points up
/// and towards smaller x for one that points left. Every other character, the
/// solid block among them, is a closed cell.
pub open spec fn glyph_flags(glyph: char) -> cell::Type {
    match glyph {
        '╨' => cell::OPEN_NEG_Y,
        '╥' => cell::OPEN_POS_Y,
        '╞' => cell::OPEN_POS_X,
        '╡' => cell::OPEN_NEG_X,
        '║' => cell::OPEN_NEG_Y | cell::OPEN_POS_Y,
        '═' => cell::OPEN_NEG_X | cell::OPEN_POS_X,
        '╝' => cell::OPEN_NEG_Y | cell::OPEN_NEG_X,
        '╚' => cell::OPEN_NEG_Y | cell::OPEN_POS_X,
        '╗' => cell::OPEN_POS_Y | cell::OPEN_NEG_X,
        '╔' => cell::OPEN_POS_Y | cell::OPEN_POS_X,
        '╠' => cell::OPEN_NEG_Y | cell::OPEN_POS_Y | cell::OPEN_POS_X,
        '╣' => cell::OPEN_NEG_Y | cell::OPEN_POS_Y | cell::OPEN_NEG_X,
        '╩' => cell::OPEN_NEG_Y | cell::OPEN_NEG_X | cell::OPEN_POS_X,
        '╦' => cell::OPEN_POS_Y | cell::OPEN_NEG_X | cell::OPEN_POS_X,
        '╬' => cell::OPEN_NEG_Y | cell::OPEN_NEG_X | cell::OPEN_POS_X | cell::OPEN_POS_Y,
        _ => cell::EMPTY,
    }
}

/// The flags of the cell that `cell_char` draws.
#[allow(clippy::non_ascii_literal)]
pub fn cell_char_to_cell_type(cell_char: char) -> (cell_type: cell::Type)
    ensures
        cell_type == glyph_flags(cell_char),
{
    match cell_char {
        '╨' => cell::OPEN_NEG_Y,
        '╥' => cell::OPEN_POS_Y,
        '╞' => cell::OPEN_POS_X,
        '╡' => cell::OPEN_NEG_X,
        '║' => cell::OPEN_NEG_Y | cell::OPEN_POS_Y,
        '═' => cell::OPEN_NEG_X | cell::OPEN_POS_X,
        '╝' => cell::OPEN_NEG_Y | cell::OPEN_NEG_X,
        '╚' => cell::OPEN_NEG_Y | cell::OPEN_POS_X,
        '╗' => cell::OPEN_POS_Y | cell::OPEN_NEG_X,
        '╔' => cell::OPEN_POS_Y | cell::OPEN_POS_X,
        '╠' => cell::OPEN_NEG_Y | cell::OPEN_POS_Y | cell::OPEN_POS_X,
        '╣' => cell::OPEN_NEG_Y | cell::OPEN_POS_Y | cell::OPEN_NEG_X,
        '╩' => cell::OPEN_NEG_Y | cell::OPEN_NEG_X | cell::OPEN_POS_X,
        '╦' => cell::OPEN_POS_Y | cell::OPEN_NEG_X | cell::OPEN_POS_X,
        '╬' => cell::OPEN_NEG_Y | cell::OPEN_NEG_X | cell::OPEN_POS_X | cell::OPEN_POS_Y,
        _ => cell::EMPTY,
    }
}

/// The cells of one row: the flags of each character of `line`, in order.
pub open spec fn row_flags(line: Seq<char>) -> Seq<cell::Type> {
    Seq::new(line.len(), |x: int| glyph_flags(line[x]))
}

/// Where the line that starts at `from` ends: at the first line feed before `to`,
/// or at `to` where there is none.
pub open spec fn line_end(text: Seq<char>, from: int, to: int) -> int
    decreases to - from,
{
    if from >= to {
        to
    } else if text[from] == '\n' {
        from
    } else {
        line_end(text, from + 1, to)
    }
}

/// Where the characters of the line from `from` to its line feed at `end` stop: a
/// carriage return just before the line feed belongs to the line ending.
pub open spec fn line_stop(text: Seq<char>, from: int, end: int) -> int {
    if from < end && text[end - 1] == '\r' {
        end - 1
    } else {
        end
    }
}

/// The rows of the level that the characters from `from` up to `to` hold. Lines
/// end at a line feed, or at a carriage return and a line feed; the last line
/// needs no ending. Every line that is not empty is a row.
pub open spec fn level_rows(text: Seq<char>, from: int, to: int) -> Seq<Seq<cell::Type>>
    decreases to - from,
{
    if from >= to {
        seq![]
    } else {
        let end = line_end(text, from, to);
        if from <= end < to {
            let stop = line_stop(text, from, end);
            let rest = level_rows(text, end + 1, to);
            if from < stop {
                seq![row_flags(text.subrange(from, stop))] + rest
            } else {
                rest
            }
        } else {
            seq![row_flags(text.subrange(from, to))]
        }
    }
}

/// Where the level that starts at `from` ends: at the first place where two line
/// feeds follow each other, or at the end of the text where there is none.
pub open spec fn level_end(text: Seq<char>, from: int) -> int
    decreases text.len() - from,
{
    if from + 1 >= text.len() {
        text.len() as int
    } else if text[from] == '\n' && text[from + 1] == '\n' {
        from
    } else {
        level_end(text, from + 1)
    }
}

/// The levels of the map from `from` on. A level ends at the first blank line
/// after its start, and the next begins behind the two line feeds; what follows
/// the last blank line is a level too, even when it holds no row.
pub open spec fn map_levels(text: Seq<char>, from: int) -> Seq<Seq<Seq<cell::Type>>>
    decreases text.len() - from,
{
    let end = level_end(text, from);
    if from <= end && end + 2 <= text.len() {
        seq![level_rows(text, from, end)] + map_levels(text, end + 2)
    } else {
        seq![level_rows(text, from, text.len() as int)]
    }
}

/// A line ends between its start and the end of its level.
pub proof fn lemma_line_end_bounds(text: Seq<char>, from: int, to: int)
    requires
        from <= to,
    ensures
        from <= line_end(text, from, to) <= to,
    decreases to - from,
{
    if from < to && text[from] != '\n' {
        lemma_line_end_bounds(text, from + 1, to);
    }
}

/// A level ends between its start and the end of the text, and where it ends
/// before the end of the text, the two line feeds of the break lie within the text.
pub proof fn lemma_level_end_bounds(text: Seq<char>, from: int)
    requires
        0 <= from <= text.len(),
    ensures
        from <= level_end(text, from) <= text.len(),
        level_end(text, from) < text.len() ==> level_end(text, from) + 2 <= text.len(),
    decreases text.len() - from,
{
    if from + 1 < text.len() && !(text[from] == '\n' && text[from + 1] == '\n') {
        lemma_level_end_bounds(text, from + 1);
    }
}

/// A level has no more rows, and no row more cells, than it has characters.
pub proof fn lemma_level_rows_bounded(text: Seq<char>, from: int, to: int)
    requires
        0 <= from <= to <= text.len(),
    ensures
        level_rows(text, from, to).len() <= to - from,
        forall|y: int|
            0 <= y < level_rows(text, from, to).len() ==> (#[trigger] level_rows(text, from, to)[y]).len()
                <= to - from,
    decreases to - from,
{
    if from < to {
        lemma_line_end_bounds(text, from, to);
        let end = line_end(text, from, to);
        if end < to {
            lemma_level_rows_bounded(text, end + 1, to);
        }
    }
}

/// A map has at most one level more than it has characters, and no level of it has
/// more rows, and no row more cells, than the map has characters.
pub proof fn lemma_map_levels_bounded(text: Seq<char>, from: int)
    requires
        0 <= from <= text.len(),
    ensures
        1 <= map_levels(text, from).len() <= text.len() - from + 1,
        forall|z: int|
            0 <= z < map_levels(text, from).len() ==> (#[trigger] map_levels(text, from)[z]).len()
                <= text.len(),
        forall|z: int, y: int|
            0 <= z < map_levels(text, from).len() && 0 <= y < map_levels(text, from)[z].len() ==> (
            #[trigger] map_levels(text, from)[z][y]).len() <= text.len(),
    decreases text.len() - from,
{
    lemma_level_end_bounds(text, from);
    let end = level_end(text, from);
    if end + 2 <= text.len() {
        lemma_level_rows_bounded(text, from, end);
        lemma_map_levels_bounded(text, end + 2);
        let rest = map_levels(text, end + 2);
        assert forall|z: int| 0 <= z < map_levels(text, from).len() implies (#[trigger] map_levels(
            text,
            from,
        )[z]).len() <= text.len() && forall|y: int|
            0 <= y < map_levels(text, from)[z].len() ==> (#[trigger] map_levels(text, from)[z][y]).len()
                <= text.len() by {
            if z > 0 {
                assert(map_levels(text, from)[z] == rest[z - 1]);
            }
        }
    } else {
        lemma_level_rows_bounded(text, from, text.len() as int);
    }
}

/// Collects the characters of `text` in a vector. The body calls `Itertools::collect_vec`
/// on the iterator of `str::chars`; the contract takes from their documentation that
/// the vector holds every character of the text, in order, and nothing else.
#[verifier::external_body]
fn collect_chars(text: &str) -> (chars: Vec<char>)
    ensures
        chars@ == text@,
{
    text.chars().collect_vec()
}

/// Parses the characters from `from` up to `to` as one row.
fn parse_row(text: &Vec<char>, from: usize, to: usize) -> (row: Vec<cell::Type>)
    requires
        from <= to <= text.len(),
    ensures
        row@ == row_flags(text@.subrange(from as int, to as int)),
{
    let mut row: Vec<cell::Type> = Vec::new();
    let mut at = from;
    while at < to
        invariant
            from <= at <= to <= text.len(),
            row@ == row_flags(text@.subrange(from as int, at as int)),
        decreases to - at,
    {
        row.push(cell_char_to_cell_type(text[at]));
        at += 1;
    }
    row
}

/// Finds the line feed that ends the line starting at `from`.
fn find_line_end(text: &Vec<char>, from: usize, to: usize) -> (end: usize)
    requires
        from <= to <= text.len(),
    ensures
        end == line_end(text@, from as int, to as int),
        from <= end <= to,
{
    let mut end = from;
    while end < to && text[end] != '\n'
        invariant
            from <= end <= to <= text.len(),
            line_end(text@, end as int, to as int) == line_end(text@, from as int, to as int),
        decreases to - end,
    {
        end += 1;
    }
    end
}

/// Parses the characters from `from` up to `to` as one level.
fn parse_level(text: &Vec<char>, from: usize, to: usize) -> (rows: Vec<Vec<cell::Type>>)
    requires
        from <= to <= text.len(),
    ensures
        rows.deep_view() == level_rows(text@, from as int, to as int),
{
    let mut rows: Vec<Vec<cell::Type>> = Vec::new();
    let mut at = from;
    while at < to
        invariant
            from <= at <= to <= text.len(),
            rows.deep_view() + level_rows(text@, at as int, to as int) == level_rows(
                text@,
                from as int,
                to as int,
            ),
        decreases to - at,
    {
        let ghost before = rows.deep_view();
        let end = find_line_end(text, at, to);
        if end < to {
            let stop = if at < end && text[end - 1] == '\r' {
                end - 1
            } else {
                end
            };
            if at < stop {
                let row = parse_row(text, at, stop);
                proof {
                    assert(row.deep_view() =~= row@);
                }
                rows.push(row);
                proof {
                    let rest = level_rows(text@, end as int + 1, to as int);
                    assert(rows.deep_view() =~= before.push(row.deep_view()));
                    assert(before.push(row@) + rest =~= before + (seq![row@] + rest));
                }
            }
            at = end + 1;
        } else {
            let row = parse_row(text, at, to);
            proof {
                assert(row.deep_view() =~= row@);
            }
            rows.push(row);
            proof {
                assert(rows.deep_view() =~= before.push(row.deep_view()));
                assert(before.push(row@) =~= before + seq![row@]);
            }
            at = to;
        }
    }
    rows
}

/// Finds the blank line that ends the level starting at `from`.
fn find_level_end(text: &Vec<char>, from: usize) -> (end: usize)
    requires
        from <= text.len(),
    ensures
        end == level_end(text@, from as int),
        from <= end <= text.len(),
        end < text.len() ==> end + 2 <= text.len(),
{
    let mut end = from;
    while text.len() - end > 1 && !(text[end] == '\n' && text[end + 1] == '\n')
        invariant
            from <= end <= text.len(),
            level_end(text@, end as int) == level_end(text@, from as int),
        decreases text.len() - end,
    {
        end += 1;
    }
    if text.len() - end > 1 {
        end
    } else {
        text.len()
    }
}

/// Parses the whole text, level by level.
pub fn parse_levels(text: &Vec<char>) -> (levels: Vec<Vec<Vec<cell::Type>>>)
    ensures
        levels.deep_view() == map_levels(text@, 0),
{
    let mut levels: Vec<Vec<Vec<cell::Type>>> = Vec::new();
    let mut from: usize = 0;
    loop
        invariant_except_break
            from <= text.len(),
            levels.deep_view() + map_levels(text@, from as int) == map_levels(text@, 0),
        ensures
            levels.deep_view() == map_levels(text@, 0),
        decreases text.len() - from,
    {
        let ghost before = levels.deep_view();
        let end = find_level_end(text, from);
        let level = parse_level(text, from, end);
        levels.push(level);
        proof {
            assert(levels.deep_view() =~= before.push(level.deep_view()));
        }
        if end < text.len() {
            proof {
                let rest = map_levels(text@, end as int + 2);
                assert(before.push(level.deep_view()) + rest =~= before + (seq![
                    level.deep_view(),
                ] + rest));
            }
            from = end + 2;
        } else {
            proof {
                assert(before.push(level.deep_view()) =~= before + seq![level.deep_view()]);
            }
            break ;
        }
    }
    levels
}

/// Reads the characters of a map and parses them, level by level.
pub fn parse_text(map_string: &str) -> (levels: Vec<Vec<Vec<cell::Type>>>)
    ensures
        levels.deep_view() == map_levels(map_string@, 0),
{
    let text = collect_chars(map_string);
    parse_levels(&text)
}

} // verus!
