use cli_table::{ColorChoice, Table};
use minion_grid::grid::PlacementGrid;

#[test]
fn of_size_builds_a_zeroed_grid() {
    let grid = PlacementGrid::of_size(3, 2);
    assert_eq!(grid.width, 3);
    assert_eq!(grid.height, 2);
    assert_eq!(grid.spaces, vec![0usize; 6]);
}

#[test]
fn default_grid_is_eight_by_eight() {
    let grid = PlacementGrid::default();
    assert_eq!(grid.width, 8);
    assert_eq!(grid.height, 8);
    assert_eq!(grid.spaces, vec![0usize; 64]);
}

#[test]
fn fill_sequential_numbers_every_cell() {
    let mut grid = PlacementGrid::of_size(8, 8);
    grid.fill_sequential();
    let expected: Vec<usize> = (0usize..64).collect();
    assert_eq!(grid.spaces, expected);
}

#[test]
fn rows_chunk_the_cells_row_major() {
    let mut grid = PlacementGrid::of_size(2, 3);
    grid.fill_sequential();
    let expected: Vec<Vec<usize>> = vec![vec![0, 1], vec![2, 3], vec![4, 5]];
    assert_eq!(grid.rows(), expected);
}

#[test]
fn rows_of_an_empty_grid() {
    let grid = PlacementGrid::of_size(4, 0);
    assert_eq!(grid.rows(), Vec::<Vec<usize>>::new());
}

#[test]
fn render_matches_the_table_library() {
    let mut grid = PlacementGrid::of_size(3, 2);
    grid.fill_sequential();
    let direct = grid
        .rows()
        .table()
        .color_choice(ColorChoice::Never)
        .display()
        .unwrap()
        .to_string();
    let rendered = grid.render();
    assert_eq!(rendered, direct);
    // A real table, not the bare cell values glued together.
    assert!(rendered.contains('0') && rendered.contains('5'));
    assert_ne!(rendered, "012345");
    assert!(rendered.contains('\n'));
}
