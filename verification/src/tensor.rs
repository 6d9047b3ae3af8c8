//! The input tensor of the model, built from a grayscale grid.

use vstd::prelude::*;
use crate::error::PipelineError;
use crate::grid::GrayGrid;

verus! {

/// Images per tensor.
pub const BATCH: usize = 1;

/// Channels per image.
pub const CHANNELS: usize = 1;

/// Rows per channel.
pub const HEIGHT: usize = 28;

/// Columns per row.
pub const WIDTH: usize = 28;

/// Elements of a tensor: `BATCH * CHANNELS * HEIGHT * WIDTH`.
pub const ELEMENTS: usize = 784;

/// The intensity that stands for 1: an element is its numerator over this.
pub const INTENSITY_SCALE: u8 = 255;

/// A tensor of shape (`BATCH`, `CHANNELS`, `HEIGHT`, `WIDTH`), held in
/// row-major order. Each element is a fraction from 0 to 1 with the
/// denominator `INTENSITY_SCALE`; the tensor holds the numerators.
#[derive(Debug, PartialEq, Eq)]
pub struct InputTensor {
    numerators: Vec<u8>,
}

impl View for InputTensor {
    type V = Seq<u8>;

    /// The numerators in row-major order.
    closed spec fn view(&self) -> Seq<u8> {
        self.numerators@
    }
}

/// Whether (n, c, y, x) is a position of the tensor.
pub open spec fn in_shape(n: int, c: int, y: int, x: int) -> bool {
    0 <= n < BATCH && 0 <= c < CHANNELS && 0 <= y < HEIGHT && 0 <= x < WIDTH
}

/// Where row-major order puts position (n, c, y, x).
pub open spec fn flat_index(n: int, c: int, y: int, x: int) -> int {
    ((n * CHANNELS + c) * HEIGHT + y) * WIDTH + x
}

impl InputTensor {
    /// A tensor holds one numerator for each of its positions.
    #[verifier::type_invariant]
    pub open spec fn well_formed(self) -> bool {
        self@.len() == ELEMENTS
    }

    /// The numerator at position (n, c, y, x).
    pub open spec fn at(&self, n: int, c: int, y: int, x: int) -> u8 {
        self@[flat_index(n, c, y, x)]
    }

    /// Whether each element is the grid's intensity at the same row and
    /// column, over `INTENSITY_SCALE`.
    pub open spec fn holds(&self, grid: GrayGrid) -> bool {
        forall|y: int, x: int|
            0 <= y < HEIGHT && 0 <= x < WIDTH ==> #[trigger] self.at(0, 0, y, x) == grid.at(x, y)
    }

    /// Batch, channels, height, width.
    pub fn shape(&self) -> (s: (usize, usize, usize, usize))
        ensures
            s == (BATCH, CHANNELS, HEIGHT, WIDTH),
            self@.len() == s.0 * s.1 * s.2 * s.3,
    {
        proof {
            use_type_invariant(self);
            assert(BATCH * CHANNELS * HEIGHT * WIDTH == ELEMENTS) by (nonlinear_arith);
        }
        (BATCH, CHANNELS, HEIGHT, WIDTH)
    }

    /// The numerators in row-major order.
    pub fn numerators(&self) -> (raw: &Vec<u8>)
        ensures
            raw@ == self@,
            raw@.len() == ELEMENTS,
    {
        proof {
            use_type_invariant(self);
        }
        &self.numerators
    }

    /// The numerator at position (n, c, y, x), if the tensor has it.
    pub fn get(&self, n: usize, c: usize, y: usize, x: usize) -> (e: Option<u8>)
        ensures
            e == if in_shape(n as int, c as int, y as int, x as int) {
                Some(self.at(n as int, c as int, y as int, x as int))
            } else {
                None
            },
    {
        if n < BATCH && c < CHANNELS && y < HEIGHT && x < WIDTH {
            proof {
                use_type_invariant(self);
            }
            Some(self.numerators[y * WIDTH + x])
        } else {
            None
        }
    }
}

/// Builds the model's input from a grid: the element at (0, 0, y, x) is the
/// grid's intensity in column x of row y over `INTENSITY_SCALE`, and the rows
/// keep their order. Fails when the grid is not `HEIGHT` by `WIDTH`.
pub fn build_tensor(grid: &GrayGrid) -> (result: Result<InputTensor, PipelineError>)
    ensures
        match result {
            Ok(tensor) => {
                &&& grid.is_model_sized()
                &&& tensor.well_formed()
                &&& tensor@ == grid@
                &&& tensor.holds(*grid)
            },
            Err(e) => !grid.is_model_sized() && e == PipelineError::ShapeMismatch,
        },
{
    if !grid.is_model_sized() {
        return Err(PipelineError::ShapeMismatch);
    }
    let pixels = grid.as_raw();
    let mut numerators: Vec<u8> = Vec::new();
    let mut i: usize = 0;
    while i < ELEMENTS
        invariant
            i <= ELEMENTS,
            pixels@.len() == ELEMENTS,
            numerators@ == pixels@.take(i as int),
        decreases ELEMENTS - i,
    {
        numerators.push(pixels[i]);
        assert(numerators@ == pixels@.take(i + 1));
        i = i + 1;
    }
    let tensor = InputTensor { numerators };
    assert(tensor.holds(*grid)) by {
        assert forall|y: int, x: int| 0 <= y < HEIGHT && 0 <= x < WIDTH implies #[trigger] tensor.at(
            0,
            0,
            y,
            x,
        ) == grid.at(x, y) by {
            assert(flat_index(0, 0, y, x) == y * grid.width() + x);
        }
    }
    Ok(tensor)
}

/// Building is a function of the grid: two tensors that hold the same grid
/// have the same elements.
pub proof fn lemma_tensor_is_determined(first: InputTensor, second: InputTensor, grid: GrayGrid)
    requires
        first.well_formed(),
        second.well_formed(),
        first.holds(grid),
        second.holds(grid),
    ensures
        first@ == second@,
{
    assert forall|i: int| 0 <= i < ELEMENTS implies first@[i] == second@[i] by {
        let y = i / (WIDTH as int);
        let x = i % (WIDTH as int);
        assert(flat_index(0, 0, y, x) == i);
        assert(first.at(0, 0, y, x) == grid.at(x, y));
        assert(second.at(0, 0, y, x) == grid.at(x, y));
    }
    assert(first@ =~= second@);
}

} // verus!
