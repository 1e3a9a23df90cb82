use ccl_view::grid::{clamp_cells, grid_rows, mask_of_cell, occupancy_mask, CHECK_GRID_SIDE};
use ccl_view::upload::{clamped_upload, occupancy_upload};

fn words_from(bytes: &[u8]) -> Vec<u32> {
    bytes
        .chunks(4)
        .map(|c| u32::from_ne_bytes([c[0], c[1], c[2], c[3]]))
        .collect()
}

#[test]
fn clamp_cuts_negatives_to_zero() {
    let input: Vec<i8> = vec![-5, 0, 3, 127, -128, -1, 1];
    assert_eq!(clamp_cells(&input), vec![0, 0, 3, 127, 0, 0, 1]);
}

#[test]
fn clamp_of_empty_is_empty() {
    assert_eq!(clamp_cells(&vec![]), Vec::<u32>::new());
}

#[test]
fn unknown_cell_is_foreground() {
    assert_eq!(mask_of_cell(-1), 1);
}

#[test]
fn mask_takes_parity_of_known_cells() {
    assert_eq!(mask_of_cell(0), 0);
    assert_eq!(mask_of_cell(1), 1);
    assert_eq!(mask_of_cell(2), 0);
    assert_eq!(mask_of_cell(99), 1);
    assert_eq!(mask_of_cell(100), 0);
    assert_eq!(mask_of_cell(127), 1);
}

#[test]
fn mask_treats_other_negatives_as_free() {
    assert_eq!(mask_of_cell(-2), 0);
    assert_eq!(mask_of_cell(-3), 0);
    assert_eq!(mask_of_cell(-128), 0);
}

#[test]
fn occupancy_mask_of_a_map() {
    let data: Vec<i8> = vec![-1, 0, 1, 2, 3, 100, -2, -128, 127];
    assert_eq!(occupancy_mask(&data), vec![1, 0, 1, 0, 1, 0, 0, 0, 1]);
}

#[test]
fn occupancy_mask_is_binary() {
    let data: Vec<i8> = (i8::MIN..=i8::MAX).collect();
    let mask = occupancy_mask(&data);
    assert_eq!(mask.len(), 256);
    assert!(mask.iter().all(|&v| v == 0 || v == 1));
}

#[test]
fn rows_of_a_three_by_two_grid() {
    let values: Vec<u32> = vec![1, 2, 3, 4, 5, 6, 7];
    let rows = grid_rows(&values, 3, 2);
    assert_eq!(rows, vec![vec![1, 2, 3], vec![4, 5, 6]]);
}

#[test]
fn rows_of_the_check_grid() {
    let values: Vec<u32> = (0..64).collect();
    let rows = grid_rows(&values, CHECK_GRID_SIDE, CHECK_GRID_SIDE);
    assert_eq!(rows.len(), 8);
    assert_eq!(rows[0], (0..8).collect::<Vec<u32>>());
    assert_eq!(rows[7], (56..64).collect::<Vec<u32>>());
    let flat: Vec<u32> = rows.concat();
    assert_eq!(flat, values);
}

#[test]
fn rows_of_an_empty_grid() {
    let rows = grid_rows(&vec![], 5, 0);
    assert!(rows.is_empty());
    let rows = grid_rows(&vec![], 0, 3);
    assert_eq!(rows, vec![Vec::<u32>::new(), vec![], vec![]]);
}

#[test]
fn occupancy_upload_spells_mask_words() {
    let data: Vec<i8> = vec![-1, 0, 3, -7];
    let bytes = occupancy_upload(&data);
    assert_eq!(bytes.len(), 16);
    assert_eq!(words_from(&bytes), vec![1, 0, 1, 0]);
}

#[test]
fn clamped_upload_spells_clamped_words() {
    let data: Vec<i8> = vec![-1, 0, 100, 127];
    let bytes = clamped_upload(&data);
    assert_eq!(bytes.len(), 16);
    assert_eq!(words_from(&bytes), vec![0, 0, 100, 127]);
}
