use torus_life::{LatticeError, Universe};

fn dead(width: u32, height: u32) -> Vec<bool> {
    vec![false; (width as usize) * (height as usize)]
}

#[test]
fn from_cells_keeps_the_buffer() {
    let cells = vec![true, false, false, false, true, false, false, false, true];
    let universe = Universe::from_cells(3, 3, cells.clone()).ok().unwrap();
    assert_eq!(universe.width(), 3);
    assert_eq!(universe.height(), 3);
    assert_eq!(universe.cells().to_vec(), cells);
}

#[test]
fn from_cells_takes_a_lattice_that_is_not_square() {
    let cells = vec![true, false, false, true, false, true, true, false];
    let universe = Universe::from_cells(4, 2, cells.clone()).ok().unwrap();
    assert_eq!(universe.width(), 4);
    assert_eq!(universe.height(), 2);
    assert_eq!(universe.cells().len(), 8);
    assert_eq!(universe.cells().to_vec(), cells);
}

#[test]
fn from_cells_rejects_a_short_buffer() {
    let built = Universe::from_cells(3, 3, vec![false; 8]);
    assert_eq!(built.err(), Some(LatticeError::DimensionMismatch));
}

#[test]
fn from_cells_rejects_a_long_buffer() {
    let built = Universe::from_cells(3, 3, vec![false; 10]);
    assert_eq!(built.err(), Some(LatticeError::DimensionMismatch));
}

#[test]
fn from_cells_rejects_an_empty_buffer_for_a_real_lattice() {
    let built = Universe::from_cells(2, 2, Vec::new());
    assert_eq!(built.err(), Some(LatticeError::DimensionMismatch));
}

#[test]
fn from_cells_rejects_a_zero_width() {
    let built = Universe::from_cells(0, 3, Vec::new());
    assert_eq!(built.err(), Some(LatticeError::InvalidDimensions));
}

#[test]
fn from_cells_rejects_a_zero_height() {
    let built = Universe::from_cells(3, 0, Vec::new());
    assert_eq!(built.err(), Some(LatticeError::InvalidDimensions));
}

#[test]
fn from_cells_rejects_zero_by_zero() {
    let built = Universe::from_cells(0, 0, Vec::new());
    assert_eq!(built.err(), Some(LatticeError::InvalidDimensions));
}

#[test]
fn a_zero_dimension_is_reported_before_a_wrong_length() {
    let built = Universe::from_cells(0, 3, vec![false; 8]);
    assert_eq!(built.err(), Some(LatticeError::InvalidDimensions));
}

#[test]
fn from_cells_takes_the_smallest_lattice() {
    let universe = Universe::from_cells(1, 1, vec![true]).ok().unwrap();
    assert_eq!(universe.width(), 1);
    assert_eq!(universe.height(), 1);
    assert_eq!(universe.cells().to_vec(), vec![true]);
}

#[test]
fn new_holds_one_cell_per_coordinate() {
    let universe = Universe::new(7, 5).ok().unwrap();
    assert_eq!(universe.width(), 7);
    assert_eq!(universe.height(), 5);
    assert_eq!(universe.cells().len(), 35);
}

#[test]
fn new_holds_one_cell_per_coordinate_for_many_sizes() {
    for width in 1..9u32 {
        for height in 1..9u32 {
            let universe = Universe::new(width, height).ok().unwrap();
            assert_eq!(universe.width(), width);
            assert_eq!(universe.height(), height);
            assert_eq!(universe.cells().len(), (width * height) as usize);
        }
    }
}

#[test]
fn new_rejects_a_zero_width() {
    assert_eq!(Universe::new(0, 4).err(), Some(LatticeError::InvalidDimensions));
}

#[test]
fn new_rejects_a_zero_height() {
    assert_eq!(Universe::new(4, 0).err(), Some(LatticeError::InvalidDimensions));
}

#[test]
fn new_seeds_live_and_dead_cells() {
    let universe = Universe::new(64, 64).ok().unwrap();
    let live = universe.cells().iter().filter(|cell| **cell).count();
    assert!(live > 0);
    assert!(live < 64 * 64);
}

#[test]
fn new_seeds_about_half_of_the_cells() {
    let universe = Universe::new(200, 200).ok().unwrap();
    let live = universe.cells().iter().filter(|cell| **cell).count();
    assert!(live > 18_000);
    assert!(live < 22_000);
}

#[test]
fn two_fresh_lattices_differ() {
    let first = Universe::new(32, 32).ok().unwrap();
    let second = Universe::new(32, 32).ok().unwrap();
    assert_ne!(first.cells().to_vec(), second.cells().to_vec());
}

#[test]
fn size_holds_after_generations_and_flips() {
    let mut universe = Universe::new(6, 4).ok().unwrap();
    for round in 0..10u32 {
        universe.tick(3, 2, 3);
        assert_eq!(universe.cells().len(), 24);
        assert!(universe.toggle_cell(round % 4, round % 6).is_ok());
        assert_eq!(universe.cells().len(), 24);
        assert_eq!(universe.width(), 6);
        assert_eq!(universe.height(), 4);
    }
    universe.tick(1, 0, 8);
    assert_eq!(universe.cells().len(), 24);
}

#[test]
fn size_holds_for_an_explicit_lattice() {
    let mut universe = Universe::from_cells(5, 3, dead(5, 3)).ok().unwrap();
    assert_eq!(universe.cells().len(), 15);
    assert!(universe.toggle_cell(2, 4).is_ok());
    universe.tick(3, 2, 3);
    universe.tick(3, 2, 3);
    assert_eq!(universe.cells().len(), 15);
    assert_eq!(universe.width(), 5);
    assert_eq!(universe.height(), 3);
}
