//! Measures floating-point matrix-multiplication throughput across
//! selectable compute backends.
//!
//! The library holds everything that can be stated and proved: the set of
//! backends and their names, the benchmark configuration with its defaults,
//! and the arithmetic that turns a matrix size, a repeat count and an
//! elapsed time into a GFLOPS figure and a printable result line. The
//! tensor work itself (random operands, the multiplication, the clock) is
//! performed by the surrounding binary, which hands the elapsed nanoseconds
//! back to the library.

pub mod backend;
pub mod config;
pub mod gflops;
pub mod render;
