//! How the model is loaded: where it lies and how many threads it may use.

use vstd::prelude::*;

verus! {

/// Path of the pretrained model, relative to the directory a run starts in.
pub const MODEL_PATH: &'static str = "src/models/mnist_model.onnx";

/// The most worker threads that one forward pass is given.
pub const MAX_INTRA_THREADS: usize = 4;

/// The number of worker threads for a machine that can run `available`
/// threads at once (0: not known): `MAX_INTRA_THREADS`, or fewer where the
/// machine has fewer, and never none.
pub open spec fn intra_threads_for(available: usize) -> usize {
    if available == 0 {
        1
    } else if available < MAX_INTRA_THREADS {
        available
    } else {
        MAX_INTRA_THREADS
    }
}

pub fn intra_threads(available: usize) -> (threads: usize)
    ensures
        threads == intra_threads_for(available),
        1 <= threads <= MAX_INTRA_THREADS,
        available > 0 ==> threads <= available,
{
    if available == 0 {
        1
    } else if available < MAX_INTRA_THREADS {
        available
    } else {
        MAX_INTRA_THREADS
    }
}

} // verus!
