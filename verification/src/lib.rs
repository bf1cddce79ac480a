//! Spreadsheets as documents: each sheet of a workbook becomes a table block of a
//! format-neutral document model.
//!
//! [`provider::ExcelProvider`] takes what a decoder made of a workbook and gives
//! the document. [`sheet::parse_sheet_to_table`] turns the grid of one sheet into
//! a table, [`assemble::assemble`] the sheets of a workbook into a document, and
//! [`cell::data_to_string`] one cell into its text. The name of a cell error is
//! taken from `calamine` on trust; all else is proved.

pub mod assemble;
pub mod cell;
pub mod decimal;
pub mod model;
pub mod provider;
pub mod sheet;

pub use assemble::{assemble, push_sheet};
pub use cell::{data_to_string, row_contains_text, CellError, CellValue};
pub use provider::{ConversionError, ExcelProvider};
pub use sheet::{parse_sheet_to_table, Grid};
