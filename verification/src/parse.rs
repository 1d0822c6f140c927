//! Builds the initial grid from lines of text: grid width is the character
//! count of the first line, grid height the line count, and the character
//! `'o'` marks an alive cell. Ragged input (a line longer or shorter than
//! the first) is malformed and rejected.

use vstd::prelude::*;

use crate::grid::Grid;

verus! {

/// The character sequences of the input lines.
pub open spec fn line_views(lines: Seq<String>) -> Seq<Seq<char>> {
    Seq::new(lines.len(), |i: int| lines[i]@)
}

/// Whether the lines form a well-shaped grid: at least one line, and every
/// line exactly as long as the first.
pub open spec fn lines_rectangular(ls: Seq<Seq<char>>) -> bool {
    ls.len() > 0 && forall|i: int| 0 <= i < ls.len() ==> (#[trigger] ls[i]).len() == ls[0].len()
}

/// The grid state a block of text denotes: `'o'` at `(x, y)` is an alive
/// cell, any other character a dead one.
pub open spec fn parsed_grid(ls: Seq<Seq<char>>) -> Seq<Seq<bool>> {
    Seq::new(ls.len(), |y: int| Seq::new(ls[y].len(), |x: int| ls[y][x] == 'o'))
}

/// Parses input lines into the initial grid. Returns `None` exactly when
/// the input is malformed: no lines at all, or a line whose character
/// count differs from the first line's.
pub fn grid_from_lines(lines: &Vec<String>) -> (parsed: Option<Grid>)
    ensures
        parsed is Some <==> lines_rectangular(line_views(lines@)),
        parsed matches Some(grid) ==> {
            &&& grid.wf()
            &&& grid.spec_width() == lines@[0]@.len()
            &&& grid.spec_height() == lines@.len()
            &&& grid@ == parsed_grid(line_views(lines@))
        },
{
    if lines.len() == 0 {
        return None;
    }
    let width = lines[0].as_str().unicode_len();
    let height = lines.len();
    let mut i: usize = 0;
    while i < height
        invariant
            height == lines@.len(),
            width == lines@[0]@.len(),
            i <= height,
            forall|j: int| 0 <= j < i ==> (#[trigger] lines@[j]@).len() == width,
        decreases height - i,
    {
        if lines[i].as_str().unicode_len() != width {
            proof {
                assert(line_views(lines@)[i as int].len() != line_views(lines@)[0].len());
            }
            return None;
        }
        i = i + 1;
    }
    let mut grid = Grid::new(width, height);
    let mut y: usize = 0;
    while y < height
        invariant
            height == lines@.len(),
            width == lines@[0]@.len(),
            forall|j: int| 0 <= j < height ==> (#[trigger] lines@[j]@).len() == width,
            y <= height,
            grid.wf(),
            grid.spec_width() == width,
            grid.spec_height() == height,
            forall|yy: int, xx: int|
                0 <= yy < y && 0 <= xx < width ==> #[trigger] grid@[yy][xx] == (lines@[yy]@[xx]
                    == 'o'),
            forall|yy: int, xx: int|
                y <= yy < height && 0 <= xx < width ==> #[trigger] grid@[yy][xx] == false,
        decreases height - y,
    {
        let mut x: usize = 0;
        while x < width
            invariant
                height == lines@.len(),
                width == lines@[0]@.len(),
                forall|j: int| 0 <= j < height ==> (#[trigger] lines@[j]@).len() == width,
                y < height,
                x <= width,
                grid.wf(),
                grid.spec_width() == width,
                grid.spec_height() == height,
                forall|yy: int, xx: int|
                    0 <= yy < y && 0 <= xx < width ==> #[trigger] grid@[yy][xx] == (lines@[yy]@[xx]
                        == 'o'),
                forall|xx: int|
                    0 <= xx < x ==> #[trigger] grid@[y as int][xx] == (lines@[y as int]@[xx]
                        == 'o'),
                forall|xx: int| x <= xx < width ==> #[trigger] grid@[y as int][xx] == false,
                forall|yy: int, xx: int|
                    y < yy < height && 0 <= xx < width ==> #[trigger] grid@[yy][xx] == false,
            decreases width - x,
        {
            let character = lines[y].as_str().get_char(x);
            grid.set_alive(x, y, character == 'o');
            x = x + 1;
        }
        y = y + 1;
    }
    proof {
        assert(grid@ =~~= parsed_grid(line_views(lines@)));
    }
    Some(grid)
}

} // verus!
