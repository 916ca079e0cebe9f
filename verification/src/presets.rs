//! Preset shapes: patterns of live cells written as text, one row per line,
//! in which every byte but a space marks a live cell.

use vstd::prelude::*;
use vstd::string::StringSliceAdditionalSpecFns;

verus! {

/// The byte that ends a row of a shape.
pub const LINE_BREAK: u8 = 10;

/// The byte that stands for a dead cell in a shape.
pub const BLANK: u8 = 32;

/// The row of the byte at position `i` of `data`: the number of line
/// breaks before it.
pub open spec fn row_of(data: Seq<u8>, i: int) -> nat
    decreases i,
{
    if i <= 0 {
        0
    } else {
        row_of(data, i - 1) + if data[i - 1] == LINE_BREAK {
            1nat
        } else {
            0nat
        }
    }
}

/// The column of the byte at position `i` of `data`: the number of bytes
/// between the last line break before it and itself.
pub open spec fn column_of(data: Seq<u8>, i: int) -> nat
    decreases i,
{
    if i <= 0 || data[i - 1] == LINE_BREAK {
        0
    } else {
        column_of(data, i - 1) + 1
    }
}

/// Whether the byte at position `i` of `data` marks a live cell.
pub open spec fn marks_cell(data: Seq<u8>, i: int) -> bool {
    data[i] != LINE_BREAK && data[i] != BLANK
}

/// The cells, as `(column, row)`, that the first `n` bytes of `data` mark,
/// in the order of the bytes.
pub open spec fn cells_upto(data: Seq<u8>, n: int) -> Seq<(usize, usize)>
    decreases n,
{
    if n <= 0 {
        Seq::empty()
    } else if marks_cell(data, n - 1) {
        cells_upto(data, n - 1).push(
            (column_of(data, n - 1) as usize, row_of(data, n - 1) as usize),
        )
    } else {
        cells_upto(data, n - 1)
    }
}

/// The cells of the shape `data`, row by row and from left to right within
/// a row.
pub open spec fn shape_cells(data: Seq<u8>) -> Seq<(usize, usize)> {
    cells_upto(data, data.len() as int)
}

/// A byte's row and column are no greater than its position.
pub proof fn lemma_position_bounds(data: Seq<u8>, i: int)
    requires
        0 <= i,
    ensures
        row_of(data, i) <= i,
        column_of(data, i) <= i,
    decreases i,
{
    if i > 0 {
        lemma_position_bounds(data, i - 1);
    }
}

/// Reads a shape: the `(column, row)` of every byte of `data` that is
/// neither a space nor a line break, in the order of the bytes.
pub fn get_preset_from(data: &[u8]) -> (cells: Vec<(usize, usize)>)
    ensures
        cells@ == shape_cells(data@),
{
    let mut cells: Vec<(usize, usize)> = Vec::new();
    let mut x: usize = 0;
    let mut y: usize = 0;
    let mut i: usize = 0;
    while i < data.len()
        invariant
            i <= data@.len(),
            x == column_of(data@, i as int),
            y == row_of(data@, i as int),
            cells@ == cells_upto(data@, i as int),
        decreases data@.len() - i,
    {
        proof {
            lemma_position_bounds(data@, i as int);
        }
        let c = data[i];
        if c == LINE_BREAK {
            y = y + 1;
            x = 0;
        } else {
            if c != BLANK {
                cells.push((x, y));
            }
            x = x + 1;
        }
        i = i + 1;
    }
    cells
}

/// A glider that travels down and to the right.
pub const GLIDER_1: &'static str = " #\n  #\n###";

/// A glider that travels down and to the left.
pub const GLIDER_2: &'static str = " #\n#\n###";

/// A glider that travels up and to the right.
pub const GLIDER_3: &'static str = "###\n  #\n #";

/// A glider that travels up and to the left.
pub const GLIDER_4: &'static str = "###\n#\n #";

/// A gun that emits a glider every thirty generations.
pub const GLIDER_GUN: &'static str =
    "                        #\n                      # #\n            ##      ##            ##\n           #   #    ##            ##\n##        #     #   ##\n##        #   # ##    # #\n          #     #       #\n           #   #\n            ##";

/// The text of the built-in shape with the given number; the empty text
/// for a number that names no shape.
pub open spec fn preset_text(index: u8) -> &'static str {
    if index == 1 {
        GLIDER_1
    } else if index == 2 {
        GLIDER_2
    } else if index == 3 {
        GLIDER_3
    } else if index == 4 {
        GLIDER_4
    } else if index == 0 {
        GLIDER_GUN
    } else {
        ""
    }
}

/// The cells of the built-in shape with the given number.
pub open spec fn preset_cells(index: u8) -> Seq<(usize, usize)> {
    shape_cells(preset_text(index).spec_bytes())
}

/// The cells of the built-in shape with the given number, relative to the
/// shape's top left corner; no cells for a number that names no shape.
pub fn get_preset(index: u8) -> (cells: Vec<(usize, usize)>)
    ensures
        cells@ == preset_cells(index),
{
    let shape: &str = match index {
        1 => GLIDER_1,
        2 => GLIDER_2,
        3 => GLIDER_3,
        4 => GLIDER_4,
        0 => GLIDER_GUN,
        _ => "",
    };
    get_preset_from(shape.as_bytes())
}


} // verus!
