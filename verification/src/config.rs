//! The benchmark configuration: matrix size, repeat count and backend,
//! with the documented command-line defaults.

use vstd::prelude::*;
use crate::backend::BackendType;

verus! {

/// Default edge length of the two square operand matrices.
pub const DEFAULT_MATRIX_SIZE: usize = 1024;

/// Default number of multiplications in the timed loop.
pub const DEFAULT_REPEAT_TIMES: usize = 100;

/// One benchmark run: multiply two random `matrix_size` x `matrix_size`
/// matrices `repeat_times` times on the chosen backend. Immutable once
/// built.
#[derive(Copy, Clone, PartialEq, Eq, Structural, Debug)]
pub struct FlopsTest {
    /// Edge length of the two square operand matrices.
    pub matrix_size: usize,
    /// Number of multiplications in the timed loop.
    pub repeat_times: usize,
    /// The execution target.
    pub backend: BackendType,
}

impl FlopsTest {
    /// Both counts must be positive: a zero size or repeat count describes
    /// no work and would make the throughput figure meaningless.
    pub open spec fn valid(self) -> bool {
        self.matrix_size > 0 && self.repeat_times > 0
    }

    /// Builds a configuration, rejecting a zero size or repeat count.
    pub fn new(matrix_size: usize, repeat_times: usize, backend: BackendType) -> (r: Option<
        FlopsTest,
    >)
        ensures
            r is Some <==> matrix_size > 0 && repeat_times > 0,
            r matches Some(c) ==> c == (FlopsTest { matrix_size, repeat_times, backend }),
            r matches Some(c) ==> c.valid(),
    {
        if matrix_size > 0 && repeat_times > 0 {
            Some(FlopsTest { matrix_size, repeat_times, backend })
        } else {
            None
        }
    }

    /// Builds a configuration with the documented defaults: a 1024 x 1024
    /// matrix multiplied 100 times.
    pub fn with_defaults(backend: BackendType) -> (r: FlopsTest)
        ensures
            r.matrix_size == DEFAULT_MATRIX_SIZE,
            r.repeat_times == DEFAULT_REPEAT_TIMES,
            r.backend == backend,
            r.valid(),
    {
        FlopsTest { matrix_size: DEFAULT_MATRIX_SIZE, repeat_times: DEFAULT_REPEAT_TIMES, backend }
    }
}

} // verus!
