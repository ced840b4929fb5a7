//! Options of a generator run.
use vstd::prelude::*;

verus! {

/// What a run of the generator is configured with.
#[derive(Debug, Clone)]
pub struct CliOptions {
    /// Directories that hold Syzygy tablebase files.
    pub tb_file_names: Vec<String>,
    /// Exact number of pieces of every generated position, `3..=7`.
    pub num_pieces: u8,
    /// Generated positions have a DTZ magnitude above this value.
    pub dtz_minimum: u16,
}

} // verus!
