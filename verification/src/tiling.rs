use vstd::prelude::*;
use vstd::arithmetic::div_mod::{lemma_fundamental_div_mod, lemma_fundamental_div_mod_converse};

verus! {

/// Side length, in pixels, of every triangle of the tiling.
pub const TRIANGLE_SIZE: u32 = 140;

/// Extra cells added along each axis so that the staggered tiling still
/// reaches past every edge of the screen.
pub const GRID_MARGIN: u32 = 4;

/// The ceiling of `a / b`, for `a >= 0` and `b > 0`.
pub open spec fn ceil_div(a: int, b: int) -> int {
    if a % b == 0 {
        a / b
    } else {
        a / b + 1
    }
}

/// Number of cells laid along an axis of `extent` pixels with cells of
/// `side` pixels: enough to cover the axis, plus the margin.
pub open spec fn cell_count(extent: int, side: int) -> int {
    ceil_div(extent, side) + GRID_MARGIN
}

/// How many cells of `side` pixels are laid along an axis of `extent` pixels.
pub fn cells_to_cover(extent: u32, side: u32) -> (n: u32)
    requires
        side > 0,
        cell_count(extent as int, side as int) <= u32::MAX,
    ensures
        n == cell_count(extent as int, side as int),
{
    let q = extent / side;
    let covering = if extent % side == 0 {
        q
    } else {
        q + 1
    };
    covering + GRID_MARGIN
}

/// The number of columns and rows of the tiling.
#[derive(Clone, Copy, Debug, PartialEq, Eq, Structural)]
pub struct GridSize {
    pub columns: u32,
    pub rows: u32,
}

/// Whether the grid for a `width` by `height` surface with cells of `side`
/// pixels can be counted in `u32`.
pub open spec fn grid_fits(width: int, height: int, side: int) -> bool {
    &&& side > 0
    &&& cell_count(width, side) <= u32::MAX
    &&& cell_count(height, side) <= u32::MAX
}

/// The grid that covers a `width` by `height` surface: columns across the
/// width, rows down the height.
pub fn grid_size(width: u32, height: u32, side: u32) -> (g: GridSize)
    requires
        grid_fits(width as int, height as int, side as int),
    ensures
        g.columns == cell_count(width as int, side as int),
        g.rows == cell_count(height as int, side as int),
{
    GridSize { columns: cells_to_cover(width, side), rows: cells_to_cover(height, side) }
}

/// How the pair of triangles of a cell is arranged: odd columns are offset
/// vertically by half a side against even ones, so that neighbouring columns
/// interlock.
#[derive(Clone, Copy, Debug, PartialEq, Eq, Structural)]
pub enum CellLayout {
    Aligned,
    Staggered,
}

/// Which of the two triangles of a cell a placement is: the leading one points
/// right, the trailing one points left with its tip just below the leading
/// one's lower left corner.
#[derive(Clone, Copy, Debug, PartialEq, Eq, Structural)]
pub enum TriangleHalf {
    Leading,
    Trailing,
}

/// The grid that covers a `width` by `height` surface with cells of `side`
/// pixels.
pub open spec fn grid_for(width: int, height: int, side: int) -> GridSize {
    GridSize { columns: cell_count(width, side) as u32, rows: cell_count(height, side) as u32 }
}

/// One triangle of the tiling, before any geometry is computed.
#[derive(Clone, Copy, Debug, PartialEq, Eq, Structural)]
pub struct TrianglePlacement {
    pub column: u32,
    pub row: u32,
    pub layout: CellLayout,
    pub half: TriangleHalf,
    /// Which of the four shades of the palette fills this triangle.
    pub palette_index: u32,
}

pub open spec fn layout_of(column: int) -> CellLayout {
    if column % 2 == 0 {
        CellLayout::Aligned
    } else {
        CellLayout::Staggered
    }
}

/// The shade given to the cell at `column`, `row`.
pub open spec fn palette_index_of(column: int, row: int) -> int {
    (7 * column + 13 * row) % 4
}

pub open spec fn placement(column: int, row: int, half: TriangleHalf) -> TrianglePlacement {
    TrianglePlacement {
        column: column as u32,
        row: row as u32,
        layout: layout_of(column),
        half,
        palette_index: palette_index_of(column, row) as u32,
    }
}

pub open spec fn half_of(k: int) -> TriangleHalf {
    if k % 2 == 0 {
        TriangleHalf::Leading
    } else {
        TriangleHalf::Trailing
    }
}

/// The placement at position `k` of the plan of a grid with `rows` rows:
/// cells are listed column by column, top to bottom within a column, and each
/// cell contributes its leading triangle and then its trailing one.
pub open spec fn placement_at(rows: int, k: int) -> TrianglePlacement {
    placement((k / 2) / rows, (k / 2) % rows, half_of(k))
}

/// The whole plan of the tiling of `grid`.
pub open spec fn planned(grid: GridSize) -> Seq<TrianglePlacement> {
    Seq::new(
        (2 * grid.columns * grid.rows) as nat,
        |k: int| placement_at(grid.rows as int, k),
    )
}

/// Position in the plan of one triangle of the cell at `column`, `row`.
pub open spec fn slot(rows: int, column: int, row: int, half: TriangleHalf) -> int {
    2 * (column * rows + row) + if half == TriangleHalf::Leading {
        0int
    } else {
        1int
    }
}

/// The placement at the slot of a triangle is that triangle.
pub proof fn lemma_placement_at_slot(rows: int, column: int, row: int, half: TriangleHalf)
    requires
        0 <= column,
        0 <= row < rows,
    ensures
        placement_at(rows, slot(rows, column, row, half)) == placement(column, row, half),
{
    let cell = column * rows + row;
    let h: int = if half == TriangleHalf::Leading {
        0
    } else {
        1
    };
    let k = slot(rows, column, row, half);
    assert(k == cell * 2 + h);
    lemma_fundamental_div_mod_converse(k, 2, cell, h);
    lemma_fundamental_div_mod_converse(cell, rows, column, row);
}

fn make_placement(column: u32, row: u32, half: TriangleHalf) -> (t: TrianglePlacement)
    ensures
        t == placement(column as int, row as int, half),
{
    let layout = if column % 2 == 0 {
        CellLayout::Aligned
    } else {
        CellLayout::Staggered
    };
    let index = (7u64 * column as u64 + 13u64 * row as u64) % 4;
    TrianglePlacement { column, row, layout, half, palette_index: index as u32 }
}

/// Every triangle of the tiling of `grid`, in drawing order: column by column,
/// top to bottom within a column, the leading triangle of each cell before its
/// trailing one.
pub fn plan_triangles(grid: GridSize) -> (plan: Vec<TrianglePlacement>)
    requires
        2 * grid.columns * grid.rows <= usize::MAX,
    ensures
        plan.len() == 2 * grid.columns * grid.rows,
        forall|k: int| 0 <= k < plan.len() ==> #[trigger] plan@[k] == placement_at(grid.rows as int, k),
        plan@ == planned(grid),
{
    let columns = grid.columns;
    let rows = grid.rows;
    let mut plan: Vec<TrianglePlacement> = Vec::new();
    let mut i: u32 = 0;
    while i < columns
        invariant
            i <= columns,
            rows == grid.rows,
            columns == grid.columns,
            plan.len() == 2 * (i * rows),
            forall|k: int| 0 <= k < plan.len() ==> #[trigger] plan@[k] == placement_at(rows as int, k),
        decreases columns - i,
    {
        let mut j: u32 = 0;
        while j < rows
            invariant
                i < columns,
                j <= rows,
                rows == grid.rows,
                columns == grid.columns,
                plan.len() == 2 * (i * rows + j),
                forall|k: int| 0 <= k < plan.len() ==> #[trigger] plan@[k] == placement_at(rows as int, k),
            decreases rows - j,
        {
            proof {
                lemma_placement_at_slot(rows as int, i as int, j as int, TriangleHalf::Leading);
                lemma_placement_at_slot(rows as int, i as int, j as int, TriangleHalf::Trailing);
            }
            plan.push(make_placement(i, j, TriangleHalf::Leading));
            plan.push(make_placement(i, j, TriangleHalf::Trailing));
            j = j + 1;
        }
        assert(i * rows + rows == (i + 1) * rows) by (nonlinear_arith);
        i = i + 1;
    }
    assert(2 * (columns * rows) == 2 * columns * rows) by (nonlinear_arith);
    assert(plan@ =~= planned(grid));
    plan
}

/// The cells counted along an axis, without the margin, are exactly as many
/// as needed to cover it: together they reach the far edge, and one fewer
/// would not.
pub proof fn lemma_cells_cover_extent(extent: int, side: int)
    requires
        0 <= extent,
        0 < side,
    ensures
        (cell_count(extent, side) - 4) * side >= extent,
        (cell_count(extent, side) - 5) * side < extent,
{
    let q = extent / side;
    let r = extent % side;
    lemma_fundamental_div_mod(extent, side);
    assert(extent == side * q + r);
    assert(0 <= r < side);
    assert(side * q == q * side) by (nonlinear_arith);
    assert((q + 1) * side == q * side + side) by (nonlinear_arith);
    assert((q - 1) * side == q * side - side) by (nonlinear_arith);
}

/// What the plan holds for each cell of the grid: at position
/// `2 * (column * rows + row)` the cell's right-pointing leading triangle and
/// right after it the left-pointing trailing one, both carrying the cell's
/// column and row, the staggered layout exactly in odd columns, and the shade
/// `(7 * column + 13 * row) mod 4`.
pub proof fn lemma_plan_cell_entries(grid: GridSize, column: int, row: int)
    requires
        0 <= column < grid.columns,
        0 <= row < grid.rows,
    ensures
        ({
            let k = 2 * (column * grid.rows + row);
            let plan = planned(grid);
            &&& 0 <= k && k + 1 < plan.len()
            &&& plan[k].column == column
            &&& plan[k].row == row
            &&& plan[k].half == TriangleHalf::Leading
            &&& plan[k + 1].column == column
            &&& plan[k + 1].row == row
            &&& plan[k + 1].half == TriangleHalf::Trailing
            &&& plan[k].palette_index == (7 * column + 13 * row) % 4
            &&& plan[k + 1].palette_index == (7 * column + 13 * row) % 4
            &&& (plan[k].layout == CellLayout::Aligned) == (column % 2 == 0)
            &&& (plan[k + 1].layout == CellLayout::Aligned) == (column % 2 == 0)
            &&& (plan[k].layout == CellLayout::Staggered) == (column % 2 == 1)
            &&& (plan[k + 1].layout == CellLayout::Staggered) == (column % 2 == 1)
        }),
{
    let rows = grid.rows as int;
    let columns = grid.columns as int;
    let k = 2 * (column * rows + row);
    assert(column * rows + row + 1 <= columns * rows) by (nonlinear_arith)
        requires
            0 <= column < columns,
            0 <= row < rows,
    ;
    assert(2 * columns * rows == 2 * (columns * rows)) by (nonlinear_arith);
    lemma_placement_at_slot(rows, column, row, TriangleHalf::Leading);
    lemma_placement_at_slot(rows, column, row, TriangleHalf::Trailing);
    assert(slot(rows, column, row, TriangleHalf::Leading) == k);
    assert(slot(rows, column, row, TriangleHalf::Trailing) == k + 1);
    assert(0 <= 7 * column + 13 * row);
}

/// A longer axis never gets fewer cells.
pub proof fn lemma_cell_count_monotone(shorter: int, longer: int, side: int)
    requires
        0 <= shorter <= longer,
        0 < side,
    ensures
        cell_count(shorter, side) <= cell_count(longer, side),
{
    lemma_cells_cover_extent(shorter, side);
    lemma_cells_cover_extent(longer, side);
    let a = cell_count(shorter, side) - GRID_MARGIN;
    let b = cell_count(longer, side) - GRID_MARGIN;
    assert((a - 1) * side < b * side);
    assert(a - 1 < b) by (nonlinear_arith)
        requires
            (a - 1) * side < b * side,
            side > 0,
    ;
}

/// A surface at least as wide and at least as tall as another never gets fewer
/// triangles.
pub proof fn lemma_larger_surface_more_triangles(
    width1: int,
    height1: int,
    width2: int,
    height2: int,
    side: int,
)
    requires
        0 <= width1 <= width2,
        0 <= height1 <= height2,
        0 < side,
        grid_fits(width2, height2, side),
    ensures
        planned(grid_for(width1, height1, side)).len() <= planned(
            grid_for(width2, height2, side),
        ).len(),
{
    lemma_cell_count_monotone(width1, width2, side);
    lemma_cell_count_monotone(height1, height2, side);
    let c1 = cell_count(width1, side);
    let r1 = cell_count(height1, side);
    let c2 = cell_count(width2, side);
    let r2 = cell_count(height2, side);
    assert(0 <= c1 <= c2 && 0 <= r1 <= r2);
    assert(2 * c1 * r1 <= 2 * c2 * r2) by (nonlinear_arith)
        requires
            0 <= c1 <= c2,
            0 <= r1 <= r2,
    ;
    let g1 = grid_for(width1, height1, side);
    let g2 = grid_for(width2, height2, side);
    assert(g1.columns == c1 && g1.rows == r1);
    assert(g2.columns == c2 && g2.rows == r2);
}

/// The plan depends on the surface only through its cell counts: two surfaces
/// that need as many cells across and down get the same triangles.
pub proof fn lemma_equal_cell_counts_equal_plans(
    width1: int,
    height1: int,
    width2: int,
    height2: int,
    side: int,
)
    requires
        ceil_div(width1, side) == ceil_div(width2, side),
        ceil_div(height1, side) == ceil_div(height2, side),
    ensures
        planned(grid_for(width1, height1, side)) == planned(grid_for(width2, height2, side)),
{
}

/// Every cell's shade is one of the four shades of a palette.
pub proof fn lemma_palette_index_in_range(column: int, row: int)
    requires
        0 <= column,
        0 <= row,
    ensures
        0 <= palette_index_of(column, row) < 4,
{
}

/// Two cells that touch along a column or along a row never get the same
/// shade.
pub proof fn lemma_neighbouring_cells_differ(column: int, row: int)
    requires
        0 <= column,
        0 <= row,
    ensures
        palette_index_of(column, row) != palette_index_of(column, row + 1),
        palette_index_of(column, row) != palette_index_of(column + 1, row),
{
    let x = 7 * column + 13 * row;
    assert(7 * column + 13 * (row + 1) == x + 13);
    assert(7 * (column + 1) + 13 * row == x + 7);
    assert((x + 13) % 4 == (x + 1) % 4);
    assert((x + 7) % 4 == (x + 3) % 4);
}

/// Both triangles of a cell share the cell's shade and layout, and the layout
/// alternates from one column to the next.
pub proof fn lemma_cell_halves_agree(column: int, row: int)
    requires
        0 <= column,
        0 <= row,
    ensures
        placement(column, row, TriangleHalf::Leading).palette_index
            == placement(column, row, TriangleHalf::Trailing).palette_index,
        placement(column, row, TriangleHalf::Leading).layout
            == placement(column, row, TriangleHalf::Trailing).layout,
        layout_of(column) != layout_of(column + 1),
{
}

} // verus!
