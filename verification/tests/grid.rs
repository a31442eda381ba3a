use spectaculife::grid::Grid;
use spectaculife::utils::get_continual_coord;

#[test]
fn wraps_coordinates_on_both_sides() {
    assert_eq!(get_continual_coord(-1, 256), 255);
    assert_eq!(get_continual_coord(256, 256), 0);
    assert_eq!(get_continual_coord(i64::MIN, 7), (i64::MIN).rem_euclid(7) as u32);
}

#[test]
fn grid_get_wraps() {
    let mut grid: Grid<u32> = Grid::new(4, 3);
    grid.set(-1, -1, 9);
    assert_eq!(*grid.uget(3, 2), 9);
    assert_eq!(*grid.get(7, 5), 9);
    assert_eq!(*grid.get(0, 0), 0);
}

#[test]
fn a_borrowed_cell_writes_through() {
    let mut grid: Grid<u32> = Grid::new(3, 2);
    *grid.get_mut(-1, 2) = 7;
    assert_eq!(*grid.uget(2, 0), 7);
    *grid.uget_mut(0, 1) += 5;
    assert_eq!(*grid.get(3, -1), 5);
    grid.uset(1, 1, 11);
    assert_eq!(*grid.get(-2, 1), 11);
    assert_eq!((grid.width(), grid.height()), (3, 2));
    let all: Vec<u32> = (0..2).flat_map(|y| (0..3).map(move |x| (x, y))).map(|(x, y)| *grid.uget(x, y)).collect();
    assert_eq!(all, vec![0, 0, 7, 5, 11, 0]);
}

#[test]
fn an_empty_grid_can_be_made() {
    let grid: Grid<u8> = Grid::new(0, 5);
    assert_eq!((grid.width(), grid.height()), (0, 5));
    let other: Grid<u8> = Grid::new(4, 0);
    assert_eq!((other.width(), other.height()), (4, 0));
}
