//! Conversions of occupancy cells into the words that the labelling pass reads.

use vstd::prelude::*;

verus! {

/// Side length of the fixed square grid that the array check works on.
pub const CHECK_GRID_SIDE: u32 = 8;

/// A cell with its negative values cut to zero.
pub open spec fn clamped_cell(x: i8) -> u32 {
    if x < 0 {
        0
    } else {
        x as u32
    }
}

/// A cell as a foreground bit: an unknown cell (-1) counts as foreground,
/// otherwise the lowest bit of the cell with negative values cut to zero.
pub open spec fn mask_cell(x: i8) -> u32 {
    if x == -1 {
        1
    } else {
        clamped_cell(x) % 2
    }
}

/// Every cell of `input` with its negative values cut to zero, in order.
pub fn clamp_cells(input: &Vec<i8>) -> (out: Vec<u32>)
    ensures
        out@.len() == input@.len(),
        forall|i: int| 0 <= i < input@.len() ==> #[trigger] out@[i] == clamped_cell(input@[i]),
        forall|i: int|
            0 <= i < input@.len() ==> #[trigger] out@[i] == (if input@[i] < 0 {
                0
            } else {
                input@[i] as int
            }),
{
    let mut out: Vec<u32> = Vec::new();
    let n: usize = input.len();
    for i in 0..n
        invariant
            n == input@.len(),
            out@.len() == i,
            forall|j: int| 0 <= j < i ==> #[trigger] out@[j] == clamped_cell(input@[j]),
    {
        let x: i8 = input[i];
        let v: u32 = if x < 0 {
            0
        } else {
            x as u32
        };
        out.push(v);
    }
    out
}

/// The foreground bit of one occupancy cell.
pub fn mask_of_cell(x: i8) -> (v: u32)
    ensures
        v == mask_cell(x),
        v == 0 || v == 1,
        v == (if x == -1 {
            1
        } else if x < 0 {
            0
        } else {
            (x as int) % 2
        }),
{
    if x == -1 {
        1
    } else {
        let c: u8 = if x < 0 {
            0
        } else {
            x as u8
        };
        let b: u8 = c & 1;
        assert(c & 1 == c % 2) by (bit_vector);
        b as u32
    }
}

/// The foreground bits of an occupancy grid, cell by cell.
pub fn occupancy_mask(data: &Vec<i8>) -> (out: Vec<u32>)
    ensures
        out@.len() == data@.len(),
        forall|i: int| 0 <= i < data@.len() ==> #[trigger] out@[i] == mask_cell(data@[i]),
        forall|i: int| 0 <= i < out@.len() ==> #[trigger] out@[i] == 0 || out@[i] == 1,
        forall|i: int|
            0 <= i < data@.len() ==> #[trigger] out@[i] == (if data@[i] == -1 {
                1
            } else if data@[i] < 0 {
                0
            } else {
                (data@[i] as int) % 2
            }),
{
    let mut out: Vec<u32> = Vec::new();
    let n: usize = data.len();
    for i in 0..n
        invariant
            n == data@.len(),
            out@.len() == i,
            forall|j: int| 0 <= j < i ==> #[trigger] out@[j] == mask_cell(data@[j]),
            forall|j: int| 0 <= j < i ==> #[trigger] out@[j] == 0 || out@[j] == 1,
    {
        out.push(mask_of_cell(data[i]));
    }
    out
}

/// A cell's foreground bit is 1 for an unknown cell (-1), 0 for any other
/// negative cell, and the remainder of the cell by two otherwise; so it is
/// always 0 or 1, and two known non-negative cells that differ by an even
/// amount have the same bit.
pub proof fn law_mask_is_clamped_parity(x: i8, y: i8)
    ensures
        mask_cell(x) == (if x == -1 {
            1
        } else if x < 0 {
            0
        } else {
            (x as int) % 2
        }),
        mask_cell(x) == 0 || mask_cell(x) == 1,
        0 <= x && 0 <= y && (x - y) % 2 == 0 ==> mask_cell(x) == mask_cell(y),
        0 <= x && x % 2 == 1 ==> mask_cell(x) == 1,
        0 <= x && x % 2 == 0 ==> mask_cell(x) == 0,
{
}

/// Clamping keeps non-negative cells and sends every negative cell to 0.
pub proof fn law_clamp_keeps_non_negative(x: i8)
    ensures
        clamped_cell(x) == (if x < 0 {
            0
        } else {
            x as int
        }),
        clamped_cell(x) <= 127,
{
}

proof fn lemma_row_index_bound(x: int, y: int, w: int, h: int)
    requires
        0 <= x < w,
        0 <= y < h,
    ensures
        0 <= y * w + x < w * h,
        y * w + x + 1 <= (y + 1) * w,
{
    assert(0 <= y * w + x < w * h) by (nonlinear_arith)
        requires
            0 <= x < w,
            0 <= y < h,
    ;
    assert((y + 1) * w == y * w + w) by (nonlinear_arith);
}

/// The first `width * height` values cut into `height` rows of `width` values,
/// row `y` holding the values at `y * width .. (y + 1) * width`.
pub fn grid_rows(values: &Vec<u32>, width: u32, height: u32) -> (rows: Vec<Vec<u32>>)
    requires
        width * height <= values@.len(),
    ensures
        rows@.len() == height,
        forall|y: int| 0 <= y < height ==> (#[trigger] rows@[y])@.len() == width,
        forall|y: int, x: int|
            0 <= y < height && 0 <= x < width ==> #[trigger] rows@[y]@[x] == values@[y * width + x],
{
    let mut rows: Vec<Vec<u32>> = Vec::new();
    for y in 0..height
        invariant
            width * height <= values@.len(),
            rows@.len() == y,
            forall|r: int| 0 <= r < y ==> (#[trigger] rows@[r])@.len() == width,
            forall|r: int, x: int|
                0 <= r < y && 0 <= x < width ==> #[trigger] rows@[r]@[x] == values@[r * width
                    + x],
    {
        let mut row: Vec<u32> = Vec::new();
        for x in 0..width
            invariant
                0 <= y < height,
                width * height <= values@.len(),
                row@.len() == x,
                forall|c: int| 0 <= c < x ==> #[trigger] row@[c] == values@[y * width + c],
        {
            proof {
                lemma_row_index_bound(x as int, y as int, width as int, height as int);
                assert(values@.len() == values.len());
                assert(y * width + x < values.len());
            }
            let idx: usize = y as usize * width as usize + x as usize;
            row.push(values[idx]);
        }
        rows.push(row);
    }
    rows
}

} // verus!
