//! Plain-text portable pixmaps.
use vstd::prelude::*;
use crate::utility::color::{Color, spec_color_line, spec_decimal, write_decimal};

verus! {

/// An image of `rows` rows of `cols` colours each, row by row from the top.
#[derive(Debug)]
pub struct PPM {
    pub cols: usize,
    pub rows: usize,
    pub max_color: u8,
    pub values: Vec<Color>,
}

/// The lines of the first `n` colours.
pub open spec fn spec_lines(values: Seq<Color>, n: nat) -> Seq<u8>
    decreases n,
{
    if n == 0 || n > values.len() {
        Seq::empty()
    } else {
        spec_lines(values, (n - 1) as nat) + spec_color_line(values[n - 1])
    }
}

/// The header: the line `P3`, the line of width and height, and the line
/// of the greatest channel value.
pub open spec fn spec_header(cols: nat, rows: nat, max_color: nat) -> Seq<u8> {
    seq![80u8, 51u8, 10u8] + spec_decimal(cols).push(32u8) + spec_decimal(rows).push(10u8)
        + spec_decimal(max_color).push(10u8)
}

impl PPM {
    /// There is one colour for each pixel.
    pub open spec fn spec_wf(self) -> bool {
        self.values@.len() == self.cols * self.rows
    }

    /// The text of the image: the header, then one line for each pixel.
    pub open spec fn spec_output(self) -> Seq<u8> {
        spec_header(self.cols as nat, self.rows as nat, self.max_color as nat) + spec_lines(
            self.values@,
            self.values@.len(),
        )
    }

    /// An image over `values`, one for each of its `cols * rows` pixels.
    pub fn new(cols: usize, rows: usize, max_color: u8, values: Vec<Color>) -> (r: PPM)
        requires
            values@.len() == cols * rows,
        ensures
            r.cols == cols,
            r.rows == rows,
            r.max_color == max_color,
            r.values@ == values@,
            r.spec_wf(),
    {
        PPM { cols, rows, max_color, values }
    }

    /// The image whose pixel in row `row` and column `col` is `gen(row, col)`.
    pub fn generate<F: Fn(usize, usize) -> Color>(cols: usize, rows: usize, max_color: u8, gen: F) -> (r:
        PPM)
        requires
            cols * rows <= usize::MAX,
            forall|row: usize, col: usize| row < rows && col < cols ==> call_requires(gen, (row, col)),
        ensures
            r.cols == cols,
            r.rows == rows,
            r.max_color == max_color,
            r.spec_wf(),
            forall|row: usize, col: usize|
                row < rows && col < cols ==> call_ensures(
                    gen,
                    (row, col),
                    #[trigger] r.values@[row * cols + col],
                ),
    {
        let mut values: Vec<Color> = Vec::new();
        let mut row: usize = 0;
        while row < rows
            invariant
                row <= rows,
                cols * rows <= usize::MAX,
                values@.len() == row * cols,
                forall|a: usize, b: usize| a < rows && b < cols ==> call_requires(gen, (a, b)),
                forall|a: usize, b: usize|
                    a < row && b < cols ==> call_ensures(
                        gen,
                        (a, b),
                        #[trigger] values@[a * cols + b],
                    ),
            decreases rows - row,
        {
            let mut col: usize = 0;
            while col < cols
                invariant
                    row < rows,
                    col <= cols,
                    cols * rows <= usize::MAX,
                    values@.len() == row * cols + col,
                    forall|a: usize, b: usize| a < rows && b < cols ==> call_requires(gen, (a, b)),
                    forall|a: usize, b: usize|
                        a < row && b < cols ==> call_ensures(
                            gen,
                            (a, b),
                            #[trigger] values@[a * cols + b],
                        ),
                    forall|b: usize|
                        b < col ==> call_ensures(gen, (row, b), #[trigger] values@[row * cols + b]),
                decreases cols - col,
            {
                let ghost before = values@;
                let c: Color = gen(row, col);
                values.push(c);
                proof {
                    assert forall|a: usize, b: usize| a < row && b < cols implies call_ensures(
                        gen,
                        (a, b),
                        #[trigger] values@[a * cols + b],
                    ) by {
                        lemma_cell_bound(a as int, b as int, row as int, cols as int);
                        assert(values@[a * cols + b] == before[a * cols + b]);
                    }
                    assert forall|b: usize| b < col + 1 implies call_ensures(
                        gen,
                        (row, b),
                        #[trigger] values@[row * cols + b],
                    ) by {
                        if b < col {
                            assert(values@[row * cols + b] == before[row * cols + b]);
                        }
                    }
                }
                col = col + 1;
            }
            proof {
                assert((row + 1) * cols == row * cols + cols) by (nonlinear_arith);
                assert forall|a: usize, b: usize| a < row + 1 && b < cols implies call_ensures(
                    gen,
                    (a, b),
                    #[trigger] values@[a * cols + b],
                ) by {
                    if a == row {
                    }
                }
            }
            row = row + 1;
        }
        proof {
            assert(rows * cols == cols * rows) by (nonlinear_arith);
        }
        PPM { cols, rows, max_color, values }
    }

    /// The text of the image.
    pub fn output(&self) -> (r: Vec<u8>)
        ensures
            r@ == self.spec_output(),
    {
        let mut out: Vec<u8> = Vec::new();
        out.push(80);
        out.push(51);
        out.push(10);
        write_decimal(&mut out, self.cols as u64);
        out.push(32);
        write_decimal(&mut out, self.rows as u64);
        out.push(10);
        write_decimal(&mut out, self.max_color as u64);
        out.push(10);
        assert(out@ =~= spec_header(self.cols as nat, self.rows as nat, self.max_color as nat));
        let mut i: usize = 0;
        while i < self.values.len()
            invariant
                i <= self.values@.len(),
                out@ == spec_header(self.cols as nat, self.rows as nat, self.max_color as nat)
                    + spec_lines(self.values@, i as nat),
            decreases self.values@.len() - i,
        {
            let ghost before = out@;
            self.values[i].write_color(&mut out);
            i = i + 1;
            assert(out@ =~= spec_header(self.cols as nat, self.rows as nat, self.max_color as nat)
                + spec_lines(self.values@, i as nat));
        }
        out
    }
}

/// A cell of a row before `row` lies before the first cell of `row`.
pub proof fn lemma_cell_bound(a: int, b: int, row: int, cols: int)
    requires
        0 <= a < row,
        0 <= b < cols,
    ensures
        0 <= a * cols + b < row * cols,
{
    assert(a * cols + b < row * cols) by (nonlinear_arith)
        requires
            0 <= a < row,
            0 <= b < cols,
    ;
    assert(0 <= a * cols) by (nonlinear_arith)
        requires
            0 <= a,
            0 <= cols,
    ;
}

} // verus!
