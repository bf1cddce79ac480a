//! The provider for spreadsheets: from what a decoder made of a buffer to a
//! document.
//!
//! Decoding the bytes of a workbook is the caller's part. The provider takes what
//! came of it: the failure, or what reading each sheet gave, in the order of the
//! sheets.

use vstd::prelude::*;

use crate::assemble::{assemble, has_table, sheet_blocks};
use crate::model::{Document, DocumentView};
use crate::sheet::Grid;

verus! {

/// Why no document could be made.
#[derive(Debug)]
pub enum ConversionError<E> {
    /// The buffer is no workbook that the decoder recognises; the decoder's own
    /// error is kept.
    Decode(E),
}

/// The name of the provider for spreadsheets.
pub open spec fn provider_name() -> Seq<char> {
    seq!['e', 'x', 'c', 'e', 'l']
}

/// The provider for spreadsheets.
#[derive(Clone, Copy, Debug, PartialEq, Eq, Structural)]
pub struct ExcelProvider;

impl ExcelProvider {
    /// A provider.
    pub fn new() -> (provider: ExcelProvider)
        ensures
            provider == ExcelProvider,
    {
        ExcelProvider
    }

    /// The name under which this provider is chosen.
    pub fn name(&self) -> (name: &'static str)
        ensures
            name@ == provider_name(),
    {
        proof {
            reveal_strlit("excel");
        }
        "excel"
    }

    /// Makes the document of a buffer from what the decoder made of the buffer.
    ///
    /// Where decoding failed there is no document, and the decoder's error is
    /// handed on. Otherwise `decoded` holds what reading each sheet gave, in the
    /// order of the sheets, `None` for a sheet that could not be read; the
    /// document has one table block for each sheet that was read and has a
    /// table, and a sheet that could not be read is left out.
    pub fn parse_buffer<E>(&self, decoded: Result<Vec<Option<Grid>>, E>) -> (converted: Result<
        Document,
        ConversionError<E>,
    >)
        ensures
            match decoded {
                Ok(sheets) => converted matches Ok(document) && {
                    &&& document@ == DocumentView::of_blocks(sheet_blocks(sheets.deep_view()))
                    &&& document.blocks.len() == sheets.deep_view().filter(has_table()).len()
                    &&& document@.well_formed()
                },
                Err(error) => converted matches Err(ConversionError::Decode(kept)) && kept == error,
            },
    {
        match decoded {
            Ok(sheets) => Ok(assemble(&sheets)),
            Err(error) => Err(ConversionError::Decode(error)),
        }
    }
}

} // verus!
