//! Where and in which format a scanned tree is exported.
use vstd::prelude::*;

verus! {

/// Output format of an export.
#[derive(Debug, Clone, Copy, PartialEq, Eq, Structural)]
pub enum ExportFormat {
    Json,
    Binary,
}

/// Where and how a scanned tree is exported.
pub struct ExportHandler<W> {
    pub writer: W,
    pub format: ExportFormat,
    pub compress: bool,
}

impl<W> ExportHandler<W> {
    pub fn json(writer: W, compress: bool) -> (r: Self)
        ensures
            r.format == ExportFormat::Json && r.compress == compress && r.writer == writer,
    {
        ExportHandler { writer, format: ExportFormat::Json, compress }
    }

    pub fn binary(writer: W, compress: bool) -> (r: Self)
        ensures
            r.format == ExportFormat::Binary && r.compress == compress && r.writer == writer,
    {
        ExportHandler { writer, format: ExportFormat::Binary, compress }
    }
}

} // verus!
