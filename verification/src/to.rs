//! The format-conversion command surface.
//!
//! The conversion subcommand is declared but performs no work yet: no
//! statement is built from these options.

use vstd::prelude::*;

verus! {

#[derive(Clone, Debug)]
pub enum Compression {
    Uncompressed,
    Snappy,
    Gzip,
    Zstd,
}

#[derive(Clone, Debug)]
pub enum FileFormat {
    Json,
    NdJson,
    Csv,
    Parquet,
}

/// Options of the conversion subcommand: a destination path and the output
/// format, compression, partitioning and thread count to convert with.
pub struct ToCommand {
    pub to: String,
    pub compression: Option<Compression>,
    pub format: Option<FileFormat>,
    pub partition_by: Option<Vec<String>>,
    pub threads: Option<usize>,
}

} // verus!
