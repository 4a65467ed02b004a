//! The cell grid: a dense, possibly ragged, three-dimensional array of direction
//! flags with its recorded size.
use crate::cell;
use crate::ivec3::{IVec3, Int3};
use crate::map_parser::{glyph_flags, lemma_map_levels_bounded, map_levels, parse_text};
use vstd::prelude::*;

verus! {

/// The greatest length among the sequences of `items`, zero where there is none.
pub open spec fn longest<T>(items: Seq<Seq<T>>) -> nat
    decreases items.len(),
{
    if items.len() == 0 {
        0
    } else {
        let before = longest(items.drop_last());
        if items.last().len() > before {
            items.last().len()
        } else {
            before
        }
    }
}

/// The length of the longest row in any of the levels, zero where there is none.
pub open spec fn widest(levels: Seq<Seq<Seq<cell::Type>>>) -> nat
    decreases levels.len(),
{
    if levels.len() == 0 {
        0
    } else {
        let before = widest(levels.drop_last());
        if longest(levels.last()) > before {
            longest(levels.last())
        } else {
            before
        }
    }
}

/// The size that is recorded for an array of cells: the length of its longest row
/// (x), the number of rows of its longest level (y) and the number of its levels
/// (z).
pub open spec fn extents(levels: Seq<Seq<Seq<cell::Type>>>) -> Int3 {
    Int3 { x: widest(levels) as int, y: longest(levels) as int, z: levels.len() as int }
}

/// `longest` is the maximum of the lengths: no sequence of `items` is longer, and
/// where `items` holds a sequence at all, one of them is as long.
pub proof fn lemma_longest_is_max<T>(items: Seq<Seq<T>>)
    ensures
        forall|i: int| 0 <= i < items.len() ==> (#[trigger] items[i]).len() <= longest(items),
        items.len() > 0 ==> exists|i: int|
            0 <= i < items.len() && (#[trigger] items[i]).len() == longest(items),
    decreases items.len(),
{
    if items.len() > 0 {
        let front = items.drop_last();
        lemma_longest_is_max(front);
        assert forall|i: int| 0 <= i < items.len() implies (#[trigger] items[i]).len() <= longest(
            items,
        ) by {
            if i < front.len() {
                assert(front[i] == items[i]);
            }
        }
        if items.last().len() > longest(front) || front.len() == 0 {
            assert(items[items.len() - 1].len() == longest(items));
        } else {
            let i = choose|i: int| 0 <= i < front.len() && (#[trigger] front[i]).len() == longest(front);
            assert(items[i] == front[i]);
        }
    }
}

/// `widest` is the maximum of the lengths of the rows: no row of any level is
/// longer, and where there is a row at all, one of them is as long.
pub proof fn lemma_widest_is_max(levels: Seq<Seq<Seq<cell::Type>>>)
    ensures
        forall|z: int, y: int|
            0 <= z < levels.len() && 0 <= y < levels[z].len() ==> (#[trigger] levels[z][y]).len()
                <= widest(levels),
        (exists|z: int| 0 <= z < levels.len() && (#[trigger] levels[z]).len() > 0) ==> exists|
            z: int,
            y: int,
        |
            0 <= z < levels.len() && 0 <= y < levels[z].len() && (#[trigger] levels[z][y]).len()
                == widest(levels),
        (forall|z: int| 0 <= z < levels.len() ==> (#[trigger] levels[z]).len() == 0) ==> widest(
            levels,
        ) == 0,
    decreases levels.len(),
{
    if levels.len() > 0 {
        let front = levels.drop_last();
        let last = levels.last();
        lemma_widest_is_max(front);
        lemma_longest_is_max(last);
        assert forall|z: int, y: int| 0 <= z < levels.len() && 0 <= y < levels[z].len() implies (
        #[trigger] levels[z][y]).len() <= widest(levels) by {
            if z < front.len() {
                assert(front[z] == levels[z]);
                assert(front[z][y].len() <= widest(front));
            } else {
                assert(last[y].len() <= longest(last));
            }
        }
        assert forall|z: int| 0 <= z < front.len() implies #[trigger] front[z] == levels[z] by {}
        if exists|z: int| 0 <= z < levels.len() && (#[trigger] levels[z]).len() > 0 {
            if longest(last) > widest(front) || forall|z: int|
                0 <= z < front.len() ==> (#[trigger] front[z]).len() == 0 {
                if last.len() > 0 {
                    let y = choose|y: int| 0 <= y < last.len() && (#[trigger] last[y]).len() == longest(last);
                    assert(levels[levels.len() - 1][y].len() == widest(levels));
                } else {
                    let z = choose|z: int| 0 <= z < levels.len() && (#[trigger] levels[z]).len() > 0;
                    assert(front[z].len() > 0);
                    assert(false);
                }
            } else {
                let zz = choose|z: int| 0 <= z < front.len() && (#[trigger] front[z]).len() > 0;
                let (z, y) = choose|z: int, y: int|
                    0 <= z < front.len() && 0 <= y < front[z].len() && (#[trigger] front[z][y]).len()
                        == widest(front);
                assert(levels[z][y].len() == widest(levels));
            }
        }
        if forall|z: int| 0 <= z < levels.len() ==> (#[trigger] levels[z]).len() == 0 {
            assert(levels[levels.len() - 1].len() == 0);
            assert forall|z: int| 0 <= z < front.len() implies (#[trigger] front[z]).len() == 0 by {
                assert(levels[z].len() == 0);
            }
        }
    }
}

/// The mathematical value of a cell grid: levels (z) of rows (y) of cells (x), and
/// the size recorded for it.
pub struct Grid {
    pub levels: Seq<Seq<Seq<cell::Type>>>,
    pub size: Int3,
}

impl Grid {
    /// True when `at` lies inside the recorded size on every axis and the level and
    /// the row it names are long enough to hold it.
    pub open spec fn holds(self, at: Int3) -> bool {
        &&& 0 <= at.x < self.size.x
        &&& 0 <= at.y < self.size.y
        &&& 0 <= at.z < self.size.z
        &&& at.z < self.levels.len()
        &&& at.y < self.levels[at.z].len()
        &&& at.x < self.levels[at.z][at.y].len()
    }

    /// The grid that the text of a map describes: its levels as the map parser
    /// reads them, with their extents as its size.
    pub open spec fn parse(text: Seq<char>) -> Grid {
        Grid { levels: map_levels(text, 0), size: extents(map_levels(text, 0)) }
    }

    /// True when the size is below `i32::MAX` on every axis, so that a `Cells` can
    /// record it.
    pub open spec fn representable(self) -> bool {
        self.size.x < i32::MAX && self.size.y < i32::MAX && self.size.z < i32::MAX
    }

    /// The flags of the cell at `at`, or `None` where the grid holds no cell.
    pub open spec fn get(self, at: Int3) -> Option<cell::Type> {
        if self.holds(at) {
            Some(self.levels[at.z][at.y][at.x])
        } else {
            None
        }
    }

    /// The flags of the cell at `at`, with every face open where the grid holds no
    /// cell.
    pub open spec fn get_or_open_all(self, at: Int3) -> cell::Type {
        match self.get(at) {
            Some(flags) => flags,
            None => cell::OPEN_ALL,
        }
    }
}

/// A map of fewer than `i32::MAX` characters is small enough to be parsed: its size
/// stays below `i32::MAX` on every axis.
pub proof fn lemma_short_map_is_representable(text: Seq<char>)
    requires
        text.len() + 1 < i32::MAX,
    ensures
        Grid::parse(text).representable(),
{
    let levels = map_levels(text, 0);
    lemma_map_levels_bounded(text, 0);
    lemma_longest_is_max(levels);
    lemma_widest_is_max(levels);
    if exists|z: int| 0 <= z < levels.len() && (#[trigger] levels[z]).len() > 0 {
        let (z, y) = choose|z: int, y: int|
            0 <= z < levels.len() && 0 <= y < levels[z].len() && (#[trigger] levels[z][y]).len()
                == widest(levels);
    }
    let z = choose|z: int| 0 <= z < levels.len() && (#[trigger] levels[z]).len() == longest(levels);
}

/// A map of one character that is no line feed is a grid of one cell, with the
/// flags that the character stands for.
pub proof fn lemma_parse_single_cell(glyph: char)
    requires
        glyph != '\n',
    ensures
        Grid::parse(seq![glyph]) == (Grid {
            levels: seq![seq![seq![glyph_flags(glyph)]]],
            size: Int3 { x: 1, y: 1, z: 1 },
        }),
{
    let text = seq![glyph];
    let row = seq![glyph_flags(glyph)];
    reveal_with_fuel(crate::map_parser::line_end, 2);
    assert(text.subrange(0, 1) =~= text);
    assert(crate::map_parser::row_flags(text) =~= row);
    assert(crate::map_parser::level_rows(text, 0, 1) =~= seq![row]);
    let levels = map_levels(text, 0);
    assert(levels =~= seq![seq![row]]);
    let level = seq![row];
    assert(level.drop_last() =~= Seq::<Seq<cell::Type>>::empty());
    assert(longest(Seq::<Seq<cell::Type>>::empty()) == 0);
    assert(longest(level) == 1);
    assert(levels.drop_last() =~= Seq::<Seq<Seq<cell::Type>>>::empty());
    assert(levels.last() == level);
    assert(longest(Seq::<Seq<Seq<cell::Type>>>::empty()) == 0);
    assert(widest(Seq::<Seq<Seq<cell::Type>>>::empty()) == 0);
}

/// A grid of cells, indexed `array[z][y][x]`. Rows and levels may differ in
/// length; `size` records the largest extent on each axis.
#[derive(Debug)]
pub struct Cells {
    pub array: Vec<Vec<Vec<cell::Type>>>,
    pub size: IVec3,
}

impl View for Cells {
    type V = Grid;

    open spec fn view(&self) -> Grid {
        Grid { levels: self.array.deep_view(), size: self.size@ }
    }
}

/// The greatest length among the vectors of `vec`, zero where there is none.
fn max_len_or_default<T: DeepView>(vec: &Vec<Vec<T>>) -> (max: usize)
    ensures
        max == longest(vec.deep_view()),
{
    let mut max: usize = 0;
    let mut at: usize = 0;
    while at < vec.len()
        invariant
            at <= vec.len(),
            max == longest(vec.deep_view().take(at as int)),
        decreases vec.len() - at,
    {
        proof {
            let next = vec.deep_view().take(at as int + 1);
            assert(next.drop_last() =~= vec.deep_view().take(at as int));
            assert(next.last().len() == vec[at as int].len());
        }
        if vec[at].len() > max {
            max = vec[at].len();
        }
        at += 1;
    }
    proof {
        assert(vec.deep_view().take(vec.len() as int) =~= vec.deep_view());
    }
    max
}

/// The length of the longest row in any of the levels, zero where there is none.
fn max_row_len_or_default(levels: &Vec<Vec<Vec<cell::Type>>>) -> (max: usize)
    ensures
        max == widest(levels.deep_view()),
{
    let mut max: usize = 0;
    let mut at: usize = 0;
    while at < levels.len()
        invariant
            at <= levels.len(),
            max == widest(levels.deep_view().take(at as int)),
        decreases levels.len() - at,
    {
        proof {
            let next = levels.deep_view().take(at as int + 1);
            assert(next.drop_last() =~= levels.deep_view().take(at as int));
            assert(next.last() == levels[at as int].deep_view());
        }
        let longest_row = max_len_or_default(&levels[at]);
        if longest_row > max {
            max = longest_row;
        }
        at += 1;
    }
    proof {
        assert(levels.deep_view().take(levels.len() as int) =~= levels.deep_view());
    }
    max
}

/// The extents of an array of cells, or `None` where one of them reaches
/// `i32::MAX`.
fn measure(array: &Vec<Vec<Vec<cell::Type>>>) -> (size: Option<IVec3>)
    ensures
        match size {
            Some(size) => size@ == extents(array.deep_view()) && size.x < i32::MAX && size.y
                < i32::MAX && size.z < i32::MAX,
            None => {
                let size = extents(array.deep_view());
                size.x >= i32::MAX || size.y >= i32::MAX || size.z >= i32::MAX
            },
        },
{
    let x = max_row_len_or_default(array);
    let y = max_len_or_default(array);
    let z = array.len();
    if x < i32::MAX as usize && y < i32::MAX as usize && z < i32::MAX as usize {
        Some(IVec3::new(x as i32, y as i32, z as i32))
    } else {
        None
    }
}

impl Cells {
    /// True when the recorded size is the extents of the array, each below
    /// `i32::MAX`: what parsing a map establishes.
    pub open spec fn wf(&self) -> bool {
        self@.size == extents(self@.levels) && self@.representable()
    }

    fn new(array: Vec<Vec<Vec<cell::Type>>>, size: IVec3) -> (cells: Self)
        ensures
            cells.array == array,
            cells.size == size,
    {
        Self { array, size }
    }

    /// Tests whether the recorded size is the extents of the array, each below
    /// `i32::MAX`.
    pub fn is_wf(&self) -> (ok: bool)
        ensures
            ok == self.wf(),
    {
        match measure(&self.array) {
            Some(size) => self.size == size,
            None => false,
        }
    }

    /// Parses the text of a map. `None` when the map is so large that its size on
    /// some axis reaches `i32::MAX`.
    pub fn try_from_string(map_string: &str) -> (parsed: Option<Self>)
        ensures
            parsed is Some <==> Grid::parse(map_string@).representable(),
            parsed matches Some(cells) ==> cells@ == Grid::parse(map_string@) && cells.wf(),
    {
        let cells = parse_text(map_string);
        match measure(&cells) {
            Some(size) => Some(Self::new(cells, size)),
            None => None,
        }
    }

    /// Parses the text of a map whose size stays below `i32::MAX` on every axis.
    pub fn from_string(map_string: &str) -> (cells: Self)
        requires
            Grid::parse(map_string@).representable(),
        ensures
            cells@ == Grid::parse(map_string@),
            cells.wf(),
    {
        let cells = parse_text(map_string);
        let size = measure(&cells).unwrap();
        Self::new(cells, size)
    }

    /// The flags of the cell at `coords`, or `None` where `coords` is outside the
    /// recorded size or the array is too short there. Never panics.
    pub fn get(&self, coords: IVec3) -> (found: Option<cell::Type>)
        ensures
            found == self@.get(coords@),
            coords.x < 0 || coords.y < 0 || coords.z < 0 ==> found is None,
            coords.x >= self.size.x || coords.y >= self.size.y || coords.z >= self.size.z
                ==> found is None,
            0 <= coords.z < self.array.len() && 0 <= coords.y < self.array[coords.z as int].len()
                && coords.x >= self.array[coords.z as int][coords.y as int].len()
                ==> found is None,
    {
        if coords.x >= 0 && coords.x < self.size.x && coords.y >= 0 && coords.y < self.size.y
            && coords.z >= 0 && coords.z < self.size.z && (coords.z as usize) < self.array.len() {
            let level = &self.array[coords.z as usize];
            if (coords.y as usize) < level.len() {
                let row = &level[coords.y as usize];
                if (coords.x as usize) < row.len() {
                    return Some(row[coords.x as usize]);
                }
            }
        }
        None
    }

    /// The flags of the cell at `coords`, with every face open where `get` finds no
    /// cell: what lies off the grid never blocks a move.
    pub fn get_or_open_all(&self, coords: IVec3) -> (flags: cell::Type)
        ensures
            flags == self@.get_or_open_all(coords@),
            self@.get(coords@) is None ==> flags == cell::OPEN_ALL,
    {
        match self.get(coords) {
            Some(flags) => flags,
            None => cell::OPEN_ALL,
        }
    }
}

} // verus!
