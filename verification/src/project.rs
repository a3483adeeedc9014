//! The coordinate projector: maps entities with integer world coordinates
//! onto a character grid of a given width and height, preserving relative
//! layout. The world Y axis grows upward, so rows are inverted; a span floor
//! of two guards the division when all entities share a coordinate. Cells
//! are painted in draw order — origin marker first, then the entities, then
//! the selection highlight, each overwriting what lies under it.

use vstd::prelude::*;
use vstd::arithmetic::div_mod::{lemma_div_pos_is_pos, lemma_multiply_divide_lt};
use crate::style::Color;

verus! {

/// One entity to plot: a world position with the glyph and color it is
/// drawn with.
#[derive(Clone, Copy, Debug, PartialEq, Eq, Structural)]
pub struct PlotPoint {
    pub x: i32,
    pub y: i32,
    pub glyph: char,
    pub color: Color,
}

/// One character cell of the plotted grid.
#[derive(Clone, Copy, Debug, PartialEq, Eq, Structural)]
pub struct Cell {
    pub glyph: char,
    pub color: Color,
}

/// The bounding box of the plotted entities' world coordinates.
#[derive(Clone, Copy, Debug, PartialEq, Eq, Structural)]
pub struct Bounds {
    pub min_x: i32,
    pub max_x: i32,
    pub min_y: i32,
    pub max_y: i32,
}

/// How the selected entity is highlighted: with a fixed marker glyph, or by
/// keeping the entity's own glyph. The highlight color is always white.
#[derive(Clone, Copy, Debug, PartialEq, Eq, Structural)]
pub enum HighlightStyle {
    Fixed(char),
    Keep,
}

/// A cell never painted: a blank over the terminal's default color.
pub open spec fn blank_cell() -> Cell {
    Cell { glyph: ' ', color: Color::Reset }
}

/// Whether a world position lies inside the bounding box.
pub open spec fn in_bounds(p: PlotPoint, b: Bounds) -> bool {
    b.min_x <= p.x <= b.max_x && b.min_y <= p.y <= b.max_y
}

/// The bounding box of a non-empty entity sequence, folded front to back.
pub open spec fn spec_bounds(points: Seq<PlotPoint>) -> Bounds
    recommends
        points.len() > 0,
    decreases points.len(),
{
    if points.len() <= 1 {
        Bounds {
            min_x: points[0].x,
            max_x: points[0].x,
            min_y: points[0].y,
            max_y: points[0].y,
        }
    } else {
        let b = spec_bounds(points.drop_last());
        let p = points.last();
        Bounds {
            min_x: if p.x < b.min_x { p.x } else { b.min_x },
            max_x: if p.x > b.max_x { p.x } else { b.max_x },
            min_y: if p.y < b.min_y { p.y } else { b.min_y },
            max_y: if p.y > b.max_y { p.y } else { b.max_y },
        }
    }
}

/// Horizontal world span of the box, floored at two so that projection
/// never divides by zero or by a unit range.
pub open spec fn span_x(b: Bounds) -> int {
    let raw = b.max_x - b.min_x + 1;
    if raw < 2 {
        2
    } else {
        raw
    }
}

/// Vertical world span of the box, floored at two.
pub open spec fn span_y(b: Bounds) -> int {
    let raw = b.max_y - b.min_y + 1;
    if raw < 2 {
        2
    } else {
        raw
    }
}

/// Column an entity at world x projects to: its offset from the left edge of
/// the box, scaled to the grid width and truncated. An x left of the box
/// (possible only for the origin marker) clamps to the left edge.
pub open spec fn col_of(x: int, b: Bounds, width: int) -> int {
    let dx = if x - b.min_x < 0 {
        0
    } else {
        x - b.min_x
    };
    dx * (width - 1) / span_x(b)
}

/// Row an entity at world y projects to: world Y is inverted, so the top of
/// the box is row zero. A y above the box clamps to the top edge.
pub open spec fn row_of(y: int, b: Bounds, height: int) -> int {
    let dy = if b.max_y - y < 0 {
        0
    } else {
        b.max_y - y
    };
    dy * (height - 1) / span_y(b)
}

/// Whether an entity at world (x, y) is drawn into grid cell (r, c).
pub open spec fn hits(x: int, y: int, b: Bounds, width: int, height: int, r: int, c: int) -> bool {
    &&& col_of(x, b, width) == c
    &&& row_of(y, b, height) == r
    &&& c < width
    &&& r < height
}

/// Whether an entity is drawn into grid cell (r, c).
pub open spec fn point_hits(
    p: PlotPoint,
    b: Bounds,
    width: int,
    height: int,
    r: int,
    c: int,
) -> bool {
    hits(p.x as int, p.y as int, b, width, height, r, c)
}

/// The index of the last entity in draw order that paints cell (r, c), if
/// any: later entities overwrite earlier ones.
pub open spec fn last_hit(
    points: Seq<PlotPoint>,
    b: Bounds,
    width: int,
    height: int,
    r: int,
    c: int,
) -> Option<int>
    decreases points.len(),
{
    if points.len() == 0 {
        None
    } else if point_hits(points.last(), b, width, height, r, c) {
        Some(points.len() - 1)
    } else {
        last_hit(points.drop_last(), b, width, height, r, c)
    }
}

/// The cell the selected entity is overdrawn with.
pub open spec fn highlight_cell(points: Seq<PlotPoint>, s: int, hs: HighlightStyle) -> Cell {
    match hs {
        HighlightStyle::Fixed(g) => Cell { glyph: g, color: Color::White },
        HighlightStyle::Keep => Cell { glyph: points[s].glyph, color: Color::White },
    }
}

/// Contents of a cell after only the origin marker has been drawn: the
/// marker where world (0, 0) projects, blank elsewhere.
pub open spec fn star_layer(
    star: Option<Cell>,
    b: Bounds,
    width: int,
    height: int,
    r: int,
    c: int,
) -> Cell {
    match star {
        Some(sc) => if hits(0, 0, b, width, height, r, c) {
            sc
        } else {
            blank_cell()
        },
        None => blank_cell(),
    }
}

/// Contents of a cell after the origin marker and the entities have been
/// drawn, before any highlight: the last entity drawn there wins.
pub open spec fn layered_cell(
    points: Seq<PlotPoint>,
    star: Option<Cell>,
    b: Bounds,
    width: int,
    height: int,
    r: int,
    c: int,
) -> Cell {
    match last_hit(points, b, width, height, r, c) {
        Some(i) => Cell { glyph: points[i].glyph, color: points[i].color },
        None => star_layer(star, b, width, height, r, c),
    }
}

/// Final contents of grid cell (r, c): the selection highlight wins over
/// every entity, the last-drawn entity wins over the origin marker, and the
/// marker wins over blank.
pub open spec fn plot_cell(
    points: Seq<PlotPoint>,
    selected: Option<usize>,
    star: Option<Cell>,
    hs: HighlightStyle,
    b: Bounds,
    width: int,
    height: int,
    r: int,
    c: int,
) -> Cell {
    match selected {
        Some(s) => if s < points.len() && point_hits(points[s as int], b, width, height, r, c) {
            highlight_cell(points, s as int, hs)
        } else {
            layered_cell(points, star, b, width, height, r, c)
        },
        None => layered_cell(points, star, b, width, height, r, c),
    }
}

/// The character grid a plot is rendered into, rows stored back to back.
#[derive(Clone, Debug, PartialEq)]
pub struct Grid {
    pub width: usize,
    pub height: usize,
    pub cells: Vec<Cell>,
}

impl Grid {
    /// The cell storage covers exactly width times height cells.
    pub open spec fn wf(&self) -> bool {
        self.cells.len() == self.width * self.height
    }

    /// Contents of the cell at row r, column c.
    pub open spec fn cell(&self, r: int, c: int) -> Cell {
        self.cells[r * self.width + c]
    }

    /// Read the cell at row r, column c.
    pub fn at(&self, r: usize, c: usize) -> (cell: Cell)
        requires
            self.wf(),
            r < self.height,
            c < self.width,
        ensures
            cell == self.cell(r as int, c as int),
    {
        proof {
            lemma_flat_index(r as int, c as int, self.width as int, self.height as int);
        }
        self.cells[r * self.width + c]
    }
}

/// A cell's flat storage index lies within a width-by-height grid.
proof fn lemma_flat_index(r: int, c: int, w: int, h: int)
    requires
        0 <= r < h,
        0 <= c < w,
    ensures
        0 <= r * w + c < w * h,
{
    assert(0 <= r * w + c < w * h) by (nonlinear_arith)
        requires
            0 <= r < h,
            0 <= c < w,
    ;
}

/// Distinct cells of a grid occupy distinct flat storage indices.
proof fn lemma_flat_index_injective(r1: int, c1: int, r2: int, c2: int, w: int)
    requires
        0 <= c1 < w,
        0 <= c2 < w,
        0 <= r1,
        0 <= r2,
        r1 * w + c1 == r2 * w + c2,
    ensures
        r1 == r2,
        c1 == c2,
{
    assert(r1 == r2 && c1 == c2) by (nonlinear_arith)
        requires
            0 <= c1 < w,
            0 <= c2 < w,
            0 <= r1,
            0 <= r2,
            r1 * w + c1 == r2 * w + c2,
    ;
}

/// Both spans are at least two, whatever the box: projection never divides
/// by zero, even when every entity shares one x or one y.
pub proof fn lemma_span_floor(b: Bounds)
    ensures
        span_x(b) >= 2,
        span_y(b) >= 2,
{
}

/// The bounding box of a non-empty sequence is ordered and contains every
/// entity of the sequence.
pub proof fn lemma_spec_bounds_contain(points: Seq<PlotPoint>)
    requires
        points.len() > 0,
    ensures
        spec_bounds(points).min_x <= spec_bounds(points).max_x,
        spec_bounds(points).min_y <= spec_bounds(points).max_y,
        forall|k: int| 0 <= k < points.len() ==> in_bounds(#[trigger] points[k], spec_bounds(points)),
    decreases points.len(),
{
    if points.len() > 1 {
        lemma_spec_bounds_contain(points.drop_last());
        assert(forall|k: int|
            0 <= k < points.len() - 1 ==> points.drop_last()[k] == #[trigger] points[k]);
    }
}

/// An entity inside the bounding box projects into the grid: its column and
/// row are in range for any positive grid size. In particular a lone entity
/// always lands on a valid cell.
pub proof fn lemma_project_in_grid(x: int, y: int, b: Bounds, width: int, height: int)
    requires
        b.min_x <= x <= b.max_x,
        b.min_y <= y <= b.max_y,
        1 <= width,
        1 <= height,
    ensures
        0 <= col_of(x, b, width) < width,
        0 <= row_of(y, b, height) < height,
{
    let dx = x - b.min_x;
    let sx = span_x(b);
    assert(dx * (width - 1) >= 0) by (nonlinear_arith)
        requires
            dx >= 0,
            width >= 1,
    ;
    lemma_div_pos_is_pos(dx * (width - 1), sx);
    assert(dx * (width - 1) < sx * width) by (nonlinear_arith)
        requires
            0 <= dx < sx,
            1 <= width,
    ;
    lemma_multiply_divide_lt(dx * (width - 1), sx, width);
    let dy = b.max_y - y;
    let sy = span_y(b);
    assert(dy * (height - 1) >= 0) by (nonlinear_arith)
        requires
            dy >= 0,
            height >= 1,
    ;
    lemma_div_pos_is_pos(dy * (height - 1), sy);
    assert(dy * (height - 1) < sy * height) by (nonlinear_arith)
        requires
            0 <= dy < sy,
            1 <= height,
    ;
    lemma_multiply_divide_lt(dy * (height - 1), sy, height);
}

/// A single entity, plotted alone, projects to a cell of the grid whatever
/// its coordinates: its own bounding box is the point itself.
pub proof fn lemma_single_entity_in_grid(p: PlotPoint, width: int, height: int)
    requires
        1 <= width,
        1 <= height,
    ensures
        0 <= col_of(p.x as int, spec_bounds(seq![p]), width) < width,
        0 <= row_of(p.y as int, spec_bounds(seq![p]), height) < height,
{
    let b = spec_bounds(seq![p]);
    assert(b.min_x == p.x && b.max_x == p.x && b.min_y == p.y && b.max_y == p.y);
    lemma_project_in_grid(p.x as int, p.y as int, b, width, height);
}

/// The projected column and row never fall left of or above the grid, even
/// for a position outside the box: offsets clamp at zero.
pub proof fn lemma_project_nonnegative(x: int, y: int, b: Bounds, width: int, height: int)
    requires
        1 <= width,
        1 <= height,
    ensures
        0 <= col_of(x, b, width),
        0 <= row_of(y, b, height),
{
    let dx = if x - b.min_x < 0 {
        0
    } else {
        x - b.min_x
    };
    assert(dx * (width - 1) >= 0) by (nonlinear_arith)
        requires
            dx >= 0,
            width >= 1,
    ;
    lemma_div_pos_is_pos(dx * (width - 1), span_x(b));
    let dy = if b.max_y - y < 0 {
        0
    } else {
        b.max_y - y
    };
    assert(dy * (height - 1) >= 0) by (nonlinear_arith)
        requires
            dy >= 0,
            height >= 1,
    ;
    lemma_div_pos_is_pos(dy * (height - 1), span_y(b));
}

/// The last hit is the latest entity in draw order that paints the cell:
/// every later entity misses it, so of two entities sharing a cell the
/// later-drawn one is the one whose glyph shows.
pub proof fn lemma_last_hit_is_latest(
    points: Seq<PlotPoint>,
    b: Bounds,
    width: int,
    height: int,
    r: int,
    c: int,
)
    ensures
        last_hit(points, b, width, height, r, c) matches Some(i) ==> 0 <= i < points.len()
            && point_hits(points[i], b, width, height, r, c) && forall|j: int|
            i < j < points.len() ==> !point_hits(#[trigger] points[j], b, width, height, r, c),
        last_hit(points, b, width, height, r, c) is None ==> forall|j: int|
            0 <= j < points.len() ==> !point_hits(#[trigger] points[j], b, width, height, r, c),
    decreases points.len(),
{
    if points.len() > 0 {
        lemma_last_hit_is_latest(points.drop_last(), b, width, height, r, c);
        assert(forall|k: int|
            0 <= k < points.len() - 1 ==> points.drop_last()[k] == #[trigger] points[k]);
    }
}

/// When the selected entity paints a cell, the cell shows the highlight,
/// whatever else was drawn there.
pub proof fn lemma_highlight_wins(
    points: Seq<PlotPoint>,
    s: usize,
    star: Option<Cell>,
    hs: HighlightStyle,
    b: Bounds,
    width: int,
    height: int,
    r: int,
    c: int,
)
    requires
        s < points.len(),
        point_hits(points[s as int], b, width, height, r, c),
    ensures
        plot_cell(points, Some(s), star, hs, b, width, height, r, c) == highlight_cell(
            points,
            s as int,
            hs,
        ),
{
}

/// Drawing one more entity changes exactly the cell it projects to, and
/// leaves every other cell of the layer as it was.
proof fn lemma_layered_cell_extend(
    points: Seq<PlotPoint>,
    i: int,
    star: Option<Cell>,
    b: Bounds,
    width: int,
    height: int,
    r: int,
    c: int,
)
    requires
        0 <= i < points.len(),
    ensures
        layered_cell(points.take(i + 1), star, b, width, height, r, c) == (if point_hits(
            points[i],
            b,
            width,
            height,
            r,
            c,
        ) {
            Cell { glyph: points[i].glyph, color: points[i].color }
        } else {
            layered_cell(points.take(i), star, b, width, height, r, c)
        }),
{
    let taken = points.take(i + 1);
    assert(taken.drop_last() =~= points.take(i));
    assert(taken.last() == points[i]);
    if point_hits(points[i], b, width, height, r, c) {
        assert(last_hit(taken, b, width, height, r, c) == Some(i));
        assert(taken[i] == points[i]);
    } else {
        assert(last_hit(taken, b, width, height, r, c) == last_hit(
            points.take(i),
            b,
            width,
            height,
            r,
            c,
        ));
        match last_hit(points.take(i), b, width, height, r, c) {
            Some(j) => {
                lemma_last_hit_is_latest(points.take(i), b, width, height, r, c);
                assert(0 <= j < i);
                assert(points.take(i)[j] == points[j]);
                assert(taken[j] == points[j]);
            },
            None => {},
        }
    }
}

/// Compute the bounding box of the entities, folding front to back exactly
/// as the specification does.
pub fn compute_bounds(points: &Vec<PlotPoint>) -> (b: Bounds)
    requires
        points.len() > 0,
    ensures
        b == spec_bounds(points@),
{
    let first = points[0];
    let mut b = Bounds { min_x: first.x, max_x: first.x, min_y: first.y, max_y: first.y };
    proof {
        assert(points@.take(1) =~= seq![points@[0]]);
    }
    let mut i: usize = 1;
    while i < points.len()
        invariant
            1 <= i <= points@.len(),
            b == spec_bounds(points@.take(i as int)),
        decreases points@.len() - i,
    {
        let p = points[i];
        if p.x < b.min_x {
            b.min_x = p.x;
        }
        if p.x > b.max_x {
            b.max_x = p.x;
        }
        if p.y < b.min_y {
            b.min_y = p.y;
        }
        if p.y > b.max_y {
            b.max_y = p.y;
        }
        proof {
            let taken = points@.take(i + 1);
            assert(taken.drop_last() =~= points@.take(i as int));
            assert(taken.last() == points@[i as int]);
        }
        i = i + 1;
    }
    proof {
        assert(points@.take(points@.len() as int) =~= points@);
    }
    b
}

/// Project a world position into the grid, or report that it falls outside
/// it: only the origin marker can, and only when the box lies entirely to
/// one side of the origin.
pub fn project_position(x: i32, y: i32, b: &Bounds, width: usize, height: usize) -> (rc: Option<
    (usize, usize),
>)
    requires
        1 <= width,
        1 <= height,
    ensures
        rc matches Some(p) ==> p.0 == row_of(y as int, *b, height as int) && p.1 == col_of(
            x as int,
            *b,
            width as int,
        ) && p.0 < height && p.1 < width,
        rc is None ==> !(col_of(x as int, *b, width as int) < width && row_of(
            y as int,
            *b,
            height as int,
        ) < height),
{
    proof {
        lemma_span_floor(*b);
        lemma_project_nonnegative(x as int, y as int, *b, width as int, height as int);
    }
    let raw_x = b.max_x as i128 - b.min_x as i128 + 1;
    let sx: u128 = if raw_x < 2 {
        2
    } else {
        raw_x as u128
    };
    let dx0 = x as i128 - b.min_x as i128;
    let dx: u128 = if dx0 < 0 {
        0
    } else {
        dx0 as u128
    };
    assert(dx * (width - 1) < 0x2000000000000000000000000u128) by (nonlinear_arith)
        requires
            0 <= dx < 0x200000000,
            0 <= width - 1 < 0x10000000000000000,
    ;
    let col = dx * (width as u128 - 1) / sx;
    let raw_y = b.max_y as i128 - b.min_y as i128 + 1;
    let sy: u128 = if raw_y < 2 {
        2
    } else {
        raw_y as u128
    };
    let dy0 = b.max_y as i128 - y as i128;
    let dy: u128 = if dy0 < 0 {
        0
    } else {
        dy0 as u128
    };
    assert(dy * (height - 1) < 0x2000000000000000000000000u128) by (nonlinear_arith)
        requires
            0 <= dy < 0x200000000,
            0 <= height - 1 < 0x10000000000000000,
    ;
    let row = dy * (height as u128 - 1) / sy;
    if col < width as u128 && row < height as u128 {
        Some((row as usize, col as usize))
    } else {
        None
    }
}

/// Overwrite one cell of the grid, leaving every other cell as it was.
fn put_cell(g: &mut Grid, r: usize, c: usize, cell: Cell)
    requires
        old(g).wf(),
        r < old(g).height,
        c < old(g).width,
    ensures
        final(g).wf(),
        final(g).width == old(g).width,
        final(g).height == old(g).height,
        final(g).cell(r as int, c as int) == cell,
        forall|r2: int, c2: int|
            0 <= r2 < old(g).height && 0 <= c2 < old(g).width && !(r2 == r && c2 == c)
                ==> final(g).cell(r2, c2) == old(g).cell(r2, c2),
{
    proof {
        lemma_flat_index(r as int, c as int, g.width as int, g.height as int);
    }
    let idx = r * g.width + c;
    g.cells.set(idx, cell);
    proof {
        assert forall|r2: int, c2: int|
            0 <= r2 < old(g).height && 0 <= c2 < old(g).width && !(r2 == r && c2
                == c) implies g.cell(r2, c2) == old(g).cell(r2, c2) by {
            lemma_flat_index(r2, c2, g.width as int, g.height as int);
            if r2 * g.width + c2 == r * g.width + c {
                lemma_flat_index_injective(r2, c2, r as int, c as int, g.width as int);
            }
        };
    }
}

/// Render the entities onto a fresh width-by-height grid. Every cell is
/// pinned: the selection highlight where the selected entity projects, else
/// the last entity drawn there, else the origin marker where world (0, 0)
/// projects, else blank. A grid with no rows or no columns holds no cells.
pub fn render_plot(
    points: &Vec<PlotPoint>,
    selected: Option<usize>,
    star: Option<Cell>,
    hs: HighlightStyle,
    width: usize,
    height: usize,
) -> (g: Grid)
    requires
        points.len() > 0,
        width * height <= usize::MAX,
    ensures
        g.wf(),
        g.width == width,
        g.height == height,
        forall|r: int, c: int|
            0 <= r < height && 0 <= c < width ==> #[trigger] g.cell(r, c) == plot_cell(
                points@,
                selected,
                star,
                hs,
                spec_bounds(points@),
                width as int,
                height as int,
                r,
                c,
            ),
{
    let ghost bspec = spec_bounds(points@);
    let b = compute_bounds(points);
    proof {
        lemma_spec_bounds_contain(points@);
    }
    let mut cells: Vec<Cell> = Vec::new();
    let total = width * height;
    let mut k: usize = 0;
    while k < total
        invariant
            cells.len() == k,
            k <= total,
            forall|j: int| 0 <= j < k ==> cells[j] == blank_cell(),
        decreases total - k,
    {
        cells.push(Cell { glyph: ' ', color: Color::Reset });
        k = k + 1;
    }
    let mut g = Grid { width, height, cells };
    if width == 0 || height == 0 {
        return g;
    }
    proof {
        assert forall|r: int, c: int|
            0 <= r < height && 0 <= c < width implies #[trigger] g.cell(r, c) == blank_cell() by {
            lemma_flat_index(r, c, width as int, height as int);
        };
    }
    // Origin marker first; it may fall outside the grid when the box lies
    // entirely to one side of the origin.
    match star {
        Some(sc) => {
            let ghost g0 = g;
            match project_position(0, 0, &b, width, height) {
                Some((r, c)) => {
                    put_cell(&mut g, r, c, sc);
                    proof {
                        assert forall|r2: int, c2: int|
                            0 <= r2 < height && 0 <= c2 < width implies #[trigger] g.cell(r2, c2)
                            == star_layer(star, bspec, width as int, height as int, r2, c2) by {
                            if r2 == r && c2 == c {
                                assert(hits(0, 0, bspec, width as int, height as int, r2, c2));
                            } else {
                                assert(!hits(0, 0, bspec, width as int, height as int, r2, c2));
                                assert(g.cell(r2, c2) == g0.cell(r2, c2));
                            }
                        };
                    }
                },
                None => {
                    proof {
                        assert forall|r2: int, c2: int|
                            0 <= r2 < height && 0 <= c2 < width implies #[trigger] g.cell(r2, c2)
                            == star_layer(star, bspec, width as int, height as int, r2, c2) by {
                            assert(!hits(0, 0, bspec, width as int, height as int, r2, c2));
                        };
                    }
                },
            }
        },
        None => {},
    }
    // Entities in draw order, later ones overwriting earlier ones.
    let mut i: usize = 0;
    while i < points.len()
        invariant
            g.wf(),
            g.width == width,
            g.height == height,
            1 <= width,
            1 <= height,
            i <= points@.len(),
            b == bspec,
            bspec == spec_bounds(points@),
            forall|k2: int| 0 <= k2 < points@.len() ==> in_bounds(#[trigger] points@[k2], bspec),
            forall|r: int, c: int|
                0 <= r < height && 0 <= c < width ==> #[trigger] g.cell(r, c) == layered_cell(
                    points@.take(i as int),
                    star,
                    bspec,
                    width as int,
                    height as int,
                    r,
                    c,
                ),
        decreases points@.len() - i,
    {
        let p = points[i];
        proof {
            lemma_project_in_grid(p.x as int, p.y as int, bspec, width as int, height as int);
        }
        let rc = project_position(p.x, p.y, &b, width, height);
        let (r, c) = rc.unwrap();
        let ghost g_before = g;
        put_cell(&mut g, r, c, Cell { glyph: p.glyph, color: p.color });
        proof {
            assert forall|r2: int, c2: int|
                0 <= r2 < height && 0 <= c2 < width implies #[trigger] g.cell(r2, c2)
                == layered_cell(
                points@.take(i + 1),
                star,
                bspec,
                width as int,
                height as int,
                r2,
                c2,
            ) by {
                lemma_layered_cell_extend(
                    points@,
                    i as int,
                    star,
                    bspec,
                    width as int,
                    height as int,
                    r2,
                    c2,
                );
                if r2 == r && c2 == c {
                    assert(point_hits(points@[i as int], bspec, width as int, height as int, r2, c2));
                } else {
                    assert(!point_hits(
                        points@[i as int],
                        bspec,
                        width as int,
                        height as int,
                        r2,
                        c2,
                    ));
                    assert(g.cell(r2, c2) == g_before.cell(r2, c2));
                }
            };
        }
        i = i + 1;
    }
    proof {
        assert(points@.take(points@.len() as int) =~= points@);
    }
    // Selection highlight last: it always wins.
    let ghost g_mid = g;
    match selected {
        Some(s) => {
            if s < points.len() {
                let p = points[s];
                proof {
                    lemma_project_in_grid(
                        p.x as int,
                        p.y as int,
                        bspec,
                        width as int,
                        height as int,
                    );
                }
                let rc = project_position(p.x, p.y, &b, width, height);
                let (r, c) = rc.unwrap();
                let cell = match hs {
                    HighlightStyle::Fixed(mark) => Cell { glyph: mark, color: Color::White },
                    HighlightStyle::Keep => Cell { glyph: p.glyph, color: Color::White },
                };
                put_cell(&mut g, r, c, cell);
                proof {
                    assert forall|r2: int, c2: int|
                        0 <= r2 < height && 0 <= c2 < width implies #[trigger] g.cell(r2, c2)
                        == plot_cell(
                        points@,
                        selected,
                        star,
                        hs,
                        bspec,
                        width as int,
                        height as int,
                        r2,
                        c2,
                    ) by {
                        if r2 == r && c2 == c {
                            assert(point_hits(
                                points@[s as int],
                                bspec,
                                width as int,
                                height as int,
                                r2,
                                c2,
                            ));
                        } else {
                            assert(!point_hits(
                                points@[s as int],
                                bspec,
                                width as int,
                                height as int,
                                r2,
                                c2,
                            ));
                            assert(g.cell(r2, c2) == g_mid.cell(r2, c2));
                        }
                    };
                }
            } else {
                proof {
                    assert forall|r2: int, c2: int|
                        0 <= r2 < height && 0 <= c2 < width implies #[trigger] g.cell(r2, c2)
                        == plot_cell(
                        points@,
                        selected,
                        star,
                        hs,
                        bspec,
                        width as int,
                        height as int,
                        r2,
                        c2,
                    ) by {};
                }
            }
        },
        None => {
            proof {
                assert forall|r2: int, c2: int|
                    0 <= r2 < height && 0 <= c2 < width implies #[trigger] g.cell(r2, c2)
                    == plot_cell(
                    points@,
                    selected,
                    star,
                    hs,
                    bspec,
                    width as int,
                    height as int,
                    r2,
                    c2,
                ) by {};
            }
        },
    }
    g
}

} // verus!
