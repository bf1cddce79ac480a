//! Whole conversions, from the bytes of a workbook to a document: the workbook is
//! decoded here and the provider makes the document.

use std::io::{Cursor, Write};

use calamine::{open_workbook_auto_from_rs, CellErrorType, Data, Reader};
use excel_provider::cell::{CellError, CellValue};
use excel_provider::model::{Block, Document, Inline, ParagraphKind, Table, TableRowKind};
use excel_provider::provider::{ConversionError, ExcelProvider};
use excel_provider::sheet::Grid;
use zip::write::SimpleFileOptions;
use zip::{CompressionMethod, ZipWriter};

/// The decoder's cell value as the library's.
fn cell_value(data: &Data) -> CellValue {
    match data {
        Data::Int(i) => CellValue::Int(*i),
        Data::Float(f) => CellValue::Float(f.to_string()),
        Data::String(s) => CellValue::String(s.clone()),
        Data::Bool(b) => CellValue::Bool(*b),
        Data::DateTime(d) => CellValue::DateTime(d.to_string()),
        Data::DateTimeIso(s) => CellValue::DateTimeIso(s.clone()),
        Data::DurationIso(s) => CellValue::DurationIso(s.clone()),
        Data::Error(e) => CellValue::Error(match e {
            CellErrorType::Div0 => CellError::Div0,
            CellErrorType::NA => CellError::NA,
            CellErrorType::Name => CellError::Name,
            CellErrorType::Null => CellError::Null,
            CellErrorType::Num => CellError::Num,
            CellErrorType::Ref => CellError::Ref,
            CellErrorType::Value => CellError::Value,
            CellErrorType::GettingData => CellError::GettingData,
        }),
        Data::Empty => CellValue::Empty,
    }
}

/// Decodes a workbook: what reading each of its sheets gives, in the order of
/// the sheets, `None` for a sheet that cannot be read.
fn decode(data: &[u8]) -> Result<Vec<Option<Grid>>, calamine::Error> {
    let mut workbook = open_workbook_auto_from_rs(Cursor::new(data))?;
    let mut sheets = Vec::new();
    for name in workbook.sheet_names() {
        sheets.push(workbook.worksheet_range(&name).ok().map(|range| {
            range.rows().map(|row| row.iter().map(cell_value).collect()).collect()
        }));
    }
    Ok(sheets)
}

/// The document of a workbook, or the decoder's error.
fn convert(data: &[u8]) -> Result<Document, ConversionError<calamine::Error>> {
    ExcelProvider::new().parse_buffer(decode(data))
}

/// The bytes of a workbook in the Office Open XML format. Each sheet is given by
/// its name and the content of its `sheetData` element; a sheet given without
/// content is listed in the workbook but its part is left out of the archive.
fn workbook_bytes(sheets: &[(&str, Option<&str>)]) -> Vec<u8> {
    let mut archive = ZipWriter::new(Cursor::new(Vec::new()));
    let options = SimpleFileOptions::default().compression_method(CompressionMethod::Stored);

    let mut listed = String::new();
    let mut related = String::new();
    for (index, (name, _)) in sheets.iter().enumerate() {
        let id = index + 1;
        listed.push_str(&format!("<sheet name=\"{name}\" sheetId=\"{id}\" r:id=\"rId{id}\"/>"));
        related.push_str(&format!(
            "<Relationship Id=\"rId{id}\" \
             Type=\"http://schemas.openxmlformats.org/officeDocument/2006/relationships/worksheet\" \
             Target=\"worksheets/sheet{id}.xml\"/>"
        ));
    }

    archive.start_file("_rels/.rels", options).unwrap();
    archive
        .write_all(
            b"<?xml version=\"1.0\" encoding=\"UTF-8\"?>\
              <Relationships xmlns=\"http://schemas.openxmlformats.org/package/2006/relationships\">\
              <Relationship Id=\"rId1\" \
              Type=\"http://schemas.openxmlformats.org/officeDocument/2006/relationships/officeDocument\" \
              Target=\"xl/workbook.xml\"/>\
              </Relationships>",
        )
        .unwrap();

    archive.start_file("xl/workbook.xml", options).unwrap();
    archive
        .write_all(
            format!(
                "<?xml version=\"1.0\" encoding=\"UTF-8\"?>\
                 <workbook xmlns=\"http://schemas.openxmlformats.org/spreadsheetml/2006/main\" \
                 xmlns:r=\"http://schemas.openxmlformats.org/officeDocument/2006/relationships\">\
                 <sheets>{listed}</sheets></workbook>"
            )
            .as_bytes(),
        )
        .unwrap();

    archive.start_file("xl/_rels/workbook.xml.rels", options).unwrap();
    archive
        .write_all(
            format!(
                "<?xml version=\"1.0\" encoding=\"UTF-8\"?>\
                 <Relationships xmlns=\"http://schemas.openxmlformats.org/package/2006/relationships\">\
                 {related}</Relationships>"
            )
            .as_bytes(),
        )
        .unwrap();

    for (index, (_, content)) in sheets.iter().enumerate() {
        if let Some(rows) = content {
            let id = index + 1;
            archive.start_file(format!("xl/worksheets/sheet{id}.xml"), options).unwrap();
            archive
                .write_all(
                    format!(
                        "<?xml version=\"1.0\" encoding=\"UTF-8\"?>\
                         <worksheet xmlns=\"http://schemas.openxmlformats.org/spreadsheetml/2006/main\">\
                         <sheetData>{rows}</sheetData></worksheet>"
                    )
                    .as_bytes(),
                )
                .unwrap();
        }
    }

    archive.finish().unwrap().into_inner()
}

/// A cell that holds a string.
fn text(at: &str, value: &str) -> String {
    format!("<c r=\"{at}\" t=\"inlineStr\"><is><t>{value}</t></is></c>")
}

/// A cell that holds a number.
fn number(at: &str, value: &str) -> String {
    format!("<c r=\"{at}\"><v>{value}</v></c>")
}

/// A cell of the given type that holds the given value.
fn typed(at: &str, kind: &str, value: &str) -> String {
    format!("<c r=\"{at}\" t=\"{kind}\"><v>{value}</v></c>")
}

/// A row with the given number and cells.
fn row(number: u32, cells: &[String]) -> String {
    format!("<row r=\"{number}\">{}</row>", cells.concat())
}

/// The tables of a document, which must hold nothing else.
fn tables(document: &Document) -> Vec<&Table> {
    document
        .blocks
        .iter()
        .map(|block| match block {
            Block::Table(table) => table,
            other => panic!("not a table: {other:?}"),
        })
        .collect()
}

/// The text of each cell of a table, after checking that each cell holds one
/// normal paragraph with one text run and spans one column and one row.
fn texts(table: &Table) -> Vec<Vec<String>> {
    table
        .rows
        .iter()
        .map(|row| {
            row.cells
                .iter()
                .map(|cell| {
                    assert_eq!(cell.colspan, 1);
                    assert_eq!(cell.rowspan, 1);
                    assert_eq!(cell.blocks.len(), 1);
                    match &cell.blocks[0] {
                        Block::Paragraph(paragraph) => {
                            assert_eq!(paragraph.kind, ParagraphKind::Normal);
                            assert_eq!(paragraph.inlines.len(), 1);
                            match &paragraph.inlines[0] {
                                Inline::Text(text) => text.clone(),
                                other => panic!("not text: {other:?}"),
                            }
                        }
                        other => panic!("not a paragraph: {other:?}"),
                    }
                })
                .collect()
        })
        .collect()
}

/// The kind of each row of a table.
fn kinds(table: &Table) -> Vec<TableRowKind> {
    table.rows.iter().map(|row| row.kind).collect()
}

#[test]
fn workbook_with_one_sheet_of_strings() {
    let rows = [
        row(1, &[text("A1", "Name"), text("B1", "Age")]),
        row(2, &[text("A2", "Alice"), text("B2", "30")]),
    ]
    .concat();
    let bytes = workbook_bytes(&[("Sheet1", Some(&rows))]);

    let document = convert(&bytes).unwrap();

    let tables = tables(&document);
    assert_eq!(tables.len(), 1);
    assert_eq!(kinds(tables[0]), vec![TableRowKind::Header, TableRowKind::Body]);
    assert_eq!(
        texts(tables[0]),
        vec![
            vec!["Name".to_string(), "Age".to_string()],
            vec!["Alice".to_string(), "30".to_string()],
        ]
    );
    assert_eq!(document.metadata.title, None);
    assert_eq!(document.metadata.author, None);
    assert!(document.notes.is_empty());
    assert!(document.comments.is_empty());
}

#[test]
fn sheet_with_only_empty_cells_gives_no_block() {
    let rows = [
        row(1, &["<c r=\"A1\"/>".to_string(), "<c r=\"B1\"><v></v></c>".to_string()]),
        row(2, &["<c r=\"A2\"/>".to_string()]),
    ]
    .concat();
    let bytes = workbook_bytes(&[("Blank", Some(&rows))]);

    let document = convert(&bytes).unwrap();

    assert!(document.blocks.is_empty());
}

#[test]
fn sheet_without_rows_gives_no_block() {
    let filled = row(1, &[number("A1", "1")]);
    let bytes = workbook_bytes(&[("Blank", Some("")), ("Filled", Some(&filled))]);

    let document = convert(&bytes).unwrap();

    let tables = tables(&document);
    assert_eq!(tables.len(), 1);
    assert_eq!(texts(tables[0]), vec![vec!["1".to_string()]]);
}

#[test]
fn sheet_that_cannot_be_read_is_left_out() {
    let first = row(1, &[text("A1", "kept")]);
    let bytes = workbook_bytes(&[("Sheet1", Some(&first)), ("Sheet2", None)]);

    let document = convert(&bytes).unwrap();

    let tables = tables(&document);
    assert_eq!(tables.len(), 1);
    assert_eq!(texts(tables[0]), vec![vec!["kept".to_string()]]);
}

#[test]
fn sheet_with_a_malformed_cell_is_left_out_and_the_others_stay() {
    let first = row(1, &[number("A1", "1")]);
    let second = row(1, &[typed("A1", "b", "banana")]);
    let third = row(1, &[number("A1", "3")]);
    let bytes = workbook_bytes(&[
        ("First", Some(&first)),
        ("Second", Some(&second)),
        ("Third", Some(&third)),
    ]);

    let document = convert(&bytes).unwrap();

    let tables = tables(&document);
    assert_eq!(tables.len(), 2);
    assert_eq!(texts(tables[0]), vec![vec!["1".to_string()]]);
    assert_eq!(texts(tables[1]), vec![vec!["3".to_string()]]);
}

#[test]
fn malformed_buffer_is_a_decode_error() {
    let converted = convert(b"this is not a workbook");

    assert!(matches!(converted, Err(ConversionError::Decode(_))));
}

#[test]
fn empty_buffer_is_a_decode_error() {
    let converted = convert(&[]);

    assert!(matches!(converted, Err(ConversionError::Decode(_))));
}

#[test]
fn archive_without_a_workbook_is_a_decode_error() {
    let mut archive = ZipWriter::new(Cursor::new(Vec::new()));
    archive.start_file("readme.txt", SimpleFileOptions::default()).unwrap();
    archive.write_all(b"nothing to see").unwrap();
    let bytes = archive.finish().unwrap().into_inner();

    let converted = convert(&bytes);

    assert!(matches!(converted, Err(ConversionError::Decode(_))));
}

#[test]
fn blocks_stand_in_the_order_of_the_sheets() {
    let first = row(1, &[text("A1", "one")]);
    let second = row(1, &[text("A1", "two")]);
    let third = row(1, &[text("A1", "three")]);
    let bytes = workbook_bytes(&[
        ("Zulu", Some(&first)),
        ("Alpha", Some(&second)),
        ("Mike", Some(&third)),
    ]);

    let document = convert(&bytes).unwrap();

    let tables = tables(&document);
    assert_eq!(tables.len(), 3);
    assert_eq!(texts(tables[0]), vec![vec!["one".to_string()]]);
    assert_eq!(texts(tables[1]), vec![vec!["two".to_string()]]);
    assert_eq!(texts(tables[2]), vec![vec!["three".to_string()]]);
}

#[test]
fn cells_of_each_kind_are_shown_as_text() {
    let rows = [
        row(
            1,
            &[
                number("A1", "3.14"),
                number("B1", "30"),
                typed("C1", "b", "1"),
                typed("D1", "b", "0"),
                typed("E1", "e", "#DIV/0!"),
                typed("F1", "d", "2021-01-01T10:10:10"),
                typed("G1", "str", "formula text"),
                number("H1", "-2.5"),
            ],
        ),
    ]
    .concat();
    let bytes = workbook_bytes(&[("Kinds", Some(&rows))]);

    let document = convert(&bytes).unwrap();

    let tables = tables(&document);
    assert_eq!(tables.len(), 1);
    assert_eq!(
        texts(tables[0]),
        vec![vec![
            "3.14".to_string(),
            "30".to_string(),
            "true".to_string(),
            "false".to_string(),
            "Error: Div0".to_string(),
            "2021-01-01T10:10:10".to_string(),
            "formula text".to_string(),
            "-2.5".to_string(),
        ]]
    );
    assert_eq!(kinds(tables[0]), vec![TableRowKind::Header]);
}

#[test]
fn first_row_of_numbers_is_a_body_row() {
    let rows = [
        row(1, &[number("A1", "1"), number("B1", "2")]),
        row(2, &[text("A2", "late"), text("B2", "label")]),
    ]
    .concat();
    let bytes = workbook_bytes(&[("Numbers", Some(&rows))]);

    let document = convert(&bytes).unwrap();

    let tables = tables(&document);
    assert_eq!(kinds(tables[0]), vec![TableRowKind::Body, TableRowKind::Body]);
}

#[test]
fn gaps_in_a_sheet_are_empty_cells() {
    let rows = [
        row(1, &[text("A1", "a")]),
        row(3, &[text("C3", "c")]),
    ]
    .concat();
    let bytes = workbook_bytes(&[("Sparse", Some(&rows))]);

    let document = convert(&bytes).unwrap();

    let tables = tables(&document);
    assert_eq!(
        texts(tables[0]),
        vec![
            vec!["a".to_string(), "".to_string(), "".to_string()],
            vec!["".to_string(), "".to_string(), "".to_string()],
            vec!["".to_string(), "".to_string(), "c".to_string()],
        ]
    );
    assert_eq!(
        kinds(tables[0]),
        vec![TableRowKind::Header, TableRowKind::Body, TableRowKind::Body]
    );
}

#[test]
fn workbook_without_sheets_gives_an_empty_document() {
    let bytes = workbook_bytes(&[]);

    let document = convert(&bytes).unwrap();

    assert!(document.blocks.is_empty());
}

#[test]
fn same_bytes_give_the_same_document() {
    let rows = row(1, &[text("A1", "x"), number("B1", "1.5")]);
    let bytes = workbook_bytes(&[("Sheet1", Some(&rows)), ("Sheet2", None)]);

    let first = convert(&bytes).unwrap();
    let second = convert(&bytes).unwrap();

    assert_eq!(first, second);
}

#[test]
fn provider_is_called_excel() {
    assert_eq!(ExcelProvider::new().name(), "excel");
}
