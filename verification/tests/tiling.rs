use interactive_wallpaper::tiling::{
    cells_to_cover, grid_size, plan_triangles, CellLayout, GridSize, TriangleHalf,
    TrianglePlacement, GRID_MARGIN, TRIANGLE_SIZE,
};

#[test]
fn cells_round_up_and_add_margin() {
    assert_eq!(cells_to_cover(1920, 140), 18);
    assert_eq!(cells_to_cover(1080, 140), 12);
    assert_eq!(cells_to_cover(140, 140), 5);
    assert_eq!(cells_to_cover(141, 140), 6);
    assert_eq!(cells_to_cover(0, 140), GRID_MARGIN);
    assert_eq!(cells_to_cover(7, 1), 11);
}

#[test]
fn cells_cover_the_extent_exactly() {
    for extent in 0..1000u32 {
        let n = cells_to_cover(extent, TRIANGLE_SIZE) - GRID_MARGIN;
        assert!(n * TRIANGLE_SIZE >= extent);
        assert!(n == 0 || (n - 1) * TRIANGLE_SIZE < extent);
    }
}

#[test]
fn full_hd_grid() {
    assert_eq!(grid_size(1920, 1080, TRIANGLE_SIZE), GridSize { columns: 18, rows: 12 });
}

#[test]
fn plan_length_is_two_per_cell() {
    let plan = plan_triangles(GridSize { columns: 18, rows: 12 });
    assert_eq!(plan.len(), 2 * 18 * 12);
    assert!(plan_triangles(GridSize { columns: 0, rows: 7 }).is_empty());
    assert!(plan_triangles(GridSize { columns: 7, rows: 0 }).is_empty());
}

#[test]
fn plan_order_and_first_entries() {
    let plan = plan_triangles(GridSize { columns: 3, rows: 2 });
    let expected = [
        (0, 0, CellLayout::Aligned, TriangleHalf::Leading, 0),
        (0, 0, CellLayout::Aligned, TriangleHalf::Trailing, 0),
        (0, 1, CellLayout::Aligned, TriangleHalf::Leading, 1),
        (0, 1, CellLayout::Aligned, TriangleHalf::Trailing, 1),
        (1, 0, CellLayout::Staggered, TriangleHalf::Leading, 3),
        (1, 0, CellLayout::Staggered, TriangleHalf::Trailing, 3),
        (1, 1, CellLayout::Staggered, TriangleHalf::Leading, 0),
        (1, 1, CellLayout::Staggered, TriangleHalf::Trailing, 0),
        (2, 0, CellLayout::Aligned, TriangleHalf::Leading, 2),
        (2, 0, CellLayout::Aligned, TriangleHalf::Trailing, 2),
        (2, 1, CellLayout::Aligned, TriangleHalf::Leading, 3),
        (2, 1, CellLayout::Aligned, TriangleHalf::Trailing, 3),
    ];
    assert_eq!(plan.len(), expected.len());
    for (p, (column, row, layout, half, palette_index)) in plan.iter().zip(expected) {
        assert_eq!(*p, TrianglePlacement { column, row, layout, half, palette_index });
    }
}

#[test]
fn palette_index_formula() {
    let rows = 12u32;
    let plan = plan_triangles(GridSize { columns: 18, rows });
    for (k, p) in plan.iter().enumerate() {
        let cell = (k / 2) as u32;
        assert_eq!(p.column, cell / rows);
        assert_eq!(p.row, cell % rows);
        assert_eq!(p.palette_index, (7 * p.column + 13 * p.row) % 4);
        assert!(p.palette_index < 4);
        let half = if k % 2 == 0 { TriangleHalf::Leading } else { TriangleHalf::Trailing };
        assert_eq!(p.half, half);
        let layout = if p.column % 2 == 0 { CellLayout::Aligned } else { CellLayout::Staggered };
        assert_eq!(p.layout, layout);
    }
}

#[test]
fn neighbouring_cells_get_different_shades() {
    let rows = 12u32;
    let plan = plan_triangles(GridSize { columns: 18, rows });
    let shade = |c: u32, r: u32| plan[(2 * (c * rows + r)) as usize].palette_index;
    for c in 0..18 {
        for r in 0..rows {
            if r + 1 < rows {
                assert_ne!(shade(c, r), shade(c, r + 1));
            }
            if c + 1 < 18 {
                assert_ne!(shade(c, r), shade(c + 1, r));
            }
        }
    }
}

#[test]
fn larger_surface_never_gets_fewer_triangles() {
    let sizes = [(0u32, 0u32), (100, 50), (800, 600), (1280, 720), (1920, 1080), (2560, 1440)];
    for &(w1, h1) in &sizes {
        for &(w2, h2) in &sizes {
            if w1 <= w2 && h1 <= h2 {
                let a = plan_triangles(grid_size(w1, h1, TRIANGLE_SIZE)).len();
                let b = plan_triangles(grid_size(w2, h2, TRIANGLE_SIZE)).len();
                assert!(a <= b);
            }
        }
    }
}

#[test]
fn equal_cell_counts_give_equal_plans() {
    let a = plan_triangles(grid_size(1900, 1000, TRIANGLE_SIZE));
    let b = plan_triangles(grid_size(1920, 1080, TRIANGLE_SIZE));
    assert_eq!(a, b);
    let c = plan_triangles(grid_size(1961, 1080, TRIANGLE_SIZE));
    assert_ne!(a.len(), c.len());
}
