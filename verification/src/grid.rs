//! The grayscale grid that the loader produces and the tensor builder reads.

use vstd::prelude::*;
use crate::error::PipelineError;

verus! {

/// Width and height, in pixels, of the grid that the model takes.
pub const GRID_SIDE: u32 = 28;

/// A single-channel image: `height` rows of `width` intensities, each from 0
/// (black) to 255, held row by row.
#[derive(Debug, PartialEq, Eq)]
pub struct GrayGrid {
    width: u32,
    height: u32,
    pixels: Vec<u8>,
}

impl View for GrayGrid {
    type V = Seq<u8>;

    /// The intensities, row by row.
    closed spec fn view(&self) -> Seq<u8> {
        self.pixels@
    }
}

impl GrayGrid {
    /// A grid holds exactly one intensity for each of its pixels.
    #[verifier::type_invariant]
    pub open spec fn well_formed(self) -> bool {
        self@.len() == self.width() * self.height()
    }

    pub closed spec fn spec_width(&self) -> u32 {
        self.width
    }

    pub closed spec fn spec_height(&self) -> u32 {
        self.height
    }

    /// The intensity in column `x` of row `y`.
    pub open spec fn at(&self, x: int, y: int) -> u8 {
        self@[y * self.width() + x]
    }

    /// Whether the grid has the dimensions that the model takes.
    pub open spec fn spec_is_model_sized(&self) -> bool {
        self.width() == GRID_SIDE && self.height() == GRID_SIDE
    }

    /// Makes a grid of the given dimensions from its intensities, row by row.
    /// Fails when their number is not `width * height`.
    pub fn new(width: u32, height: u32, pixels: Vec<u8>) -> (result: Result<GrayGrid, PipelineError>)
        ensures
            match result {
                Ok(grid) => {
                    &&& pixels@.len() == width * height
                    &&& grid.well_formed()
                    &&& grid.width() == width
                    &&& grid.height() == height
                    &&& grid@ == pixels@
                },
                Err(e) => pixels@.len() != width * height && e == PipelineError::ShapeMismatch,
            },
    {
        assert(width * height <= u64::MAX) by (nonlinear_arith)
            requires
                width <= u32::MAX,
                height <= u32::MAX,
        ;
        let expected: u64 = (width as u64) * (height as u64);
        if pixels.len() as u64 == expected {
            Ok(GrayGrid { width, height, pixels })
        } else {
            Err(PipelineError::ShapeMismatch)
        }
    }

    #[verifier::when_used_as_spec(spec_width)]
    pub fn width(&self) -> (w: u32)
        ensures
            w == self.width(),
    {
        self.width
    }

    #[verifier::when_used_as_spec(spec_height)]
    pub fn height(&self) -> (h: u32)
        ensures
            h == self.height(),
    {
        self.height
    }

    /// Width, then height.
    pub fn dimensions(&self) -> (d: (u32, u32))
        ensures
            d == (self.width(), self.height()),
            self@.len() == d.0 * d.1,
    {
        proof {
            use_type_invariant(self);
        }
        (self.width, self.height)
    }

    #[verifier::when_used_as_spec(spec_is_model_sized)]
    pub fn is_model_sized(&self) -> (r: bool)
        ensures
            r == self.is_model_sized(),
    {
        self.width == GRID_SIDE && self.height == GRID_SIDE
    }

    /// The intensities, row by row.
    pub fn as_raw(&self) -> (raw: &Vec<u8>)
        ensures
            raw@ == self@,
            raw@.len() == self.width() * self.height(),
    {
        proof {
            use_type_invariant(self);
        }
        &self.pixels
    }

    /// The intensity in column `x` of row `y`, if the grid has such a pixel.
    pub fn pixel(&self, x: u32, y: u32) -> (p: Option<u8>)
        ensures
            p == if x < self.width() && y < self.height() {
                Some(self.at(x as int, y as int))
            } else {
                None
            },
    {
        if x < self.width && y < self.height {
            let column: usize = x as usize;
            let row: usize = y as usize;
            let width: usize = self.width as usize;
            let len: usize = self.pixels.len();
            proof {
                use_type_invariant(self);
                assert(len == self.width * self.height);
                assert(0 <= row * width && row * width + column < self.width * self.height)
                    by (nonlinear_arith)
                    requires
                        column < width,
                        row < self.height,
                        width == self.width,
                ;
            }
            Some(self.pixels[row * width + column])
        } else {
            None
        }
    }
}

} // verus!
