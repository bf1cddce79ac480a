//! From the grid of one sheet to a table.
//!
//! A row of the grid without cells leaves no trace. Every other row becomes a table
//! row with one text cell for each of its cells. The first of these rows is a
//! header where it holds a string; all later ones are body rows. A grid in
//! which no row has a cell gives no table.

use vstd::prelude::*;

use crate::cell::{cell_text, data_to_string, row_contains_text, row_has_text, CellValue, CellView};
use crate::model::{
    text_cell, Table, TableCell, TableCellView, TableRow, TableRowKind, TableRowView, TableView,
};

verus! {

/// The grid of a sheet: its rows in order, each the cells of that row in order.
pub type Grid = Vec<Vec<CellValue>>;

/// The view of a [`Grid`].
pub type GridView = Seq<Seq<CellView>>;

/// Whether a row has a cell.
pub open spec fn has_cells() -> spec_fn(Seq<CellView>) -> bool {
    |row: Seq<CellView>| row.len() > 0
}

/// The rows of `grid` that have a cell, in the order of the grid.
pub open spec fn kept_rows(grid: GridView) -> GridView {
    grid.filter(has_cells())
}

/// The table cells of a row: for each cell of the row, the cell of its text.
pub open spec fn row_cells(row: Seq<CellView>) -> Seq<TableCellView> {
    Seq::new(row.len(), |j: int| text_cell(cell_text(row[j])))
}

/// The kind of the table row made from `row`, which is number `index` among the
/// rows that have a cell.
pub open spec fn row_kind(index: int, row: Seq<CellView>) -> TableRowKind {
    if index == 0 && row_has_text(row) {
        TableRowKind::Header
    } else {
        TableRowKind::Body
    }
}

/// The table row made from `row`, which is number `index` among the rows that
/// have a cell.
pub open spec fn table_row(index: int, row: Seq<CellView>) -> TableRowView {
    TableRowView { cells: row_cells(row), kind: row_kind(index, row) }
}

/// The table rows of a grid: one for each row that has a cell.
pub open spec fn table_rows(grid: GridView) -> Seq<TableRowView> {
    let kept = kept_rows(grid);
    Seq::new(kept.len(), |k: int| table_row(k, kept[k]))
}

/// The table of a grid, if it has one.
pub open spec fn sheet_table(grid: GridView) -> Option<TableView> {
    if kept_rows(grid).len() == 0 {
        None
    } else {
        Some(TableView { rows: table_rows(grid) })
    }
}

/// One more row at the end of a grid adds itself to the kept rows if it has a
/// cell, and nothing otherwise.
pub proof fn lemma_kept_rows_push(grid: GridView, row: Seq<CellView>)
    ensures
        kept_rows(grid.push(row)) == if row.len() > 0 {
            kept_rows(grid).push(row)
        } else {
            kept_rows(grid)
        },
{
    reveal(Seq::filter);
    assert(grid.push(row).drop_last() =~= grid);
}

/// One more row at the end of a grid adds its table row to the table rows if it has
/// a cell, and nothing otherwise.
pub proof fn lemma_table_rows_push(grid: GridView, row: Seq<CellView>)
    ensures
        table_rows(grid.push(row)) == if row.len() > 0 {
            table_rows(grid).push(table_row(kept_rows(grid).len() as int, row))
        } else {
            table_rows(grid)
        },
{
    lemma_kept_rows_push(grid, row);
}

/// The table row of a row that has a cell is well formed.
pub proof fn lemma_table_row_well_formed(index: int, row: Seq<CellView>)
    requires
        row.len() > 0,
    ensures
        table_row(index, row).well_formed(),
{
    let cells = row_cells(row);
    assert forall|j: int| 0 <= j < cells.len() implies (#[trigger] cells[j]).well_formed() by {
        let cell = text_cell(cell_text(row[j]));
        assert forall|b: int| 0 <= b < cell.blocks.len() implies (#[trigger] cell.blocks[b]).well_formed() by {
            assert(cell.blocks[b] is Paragraph);
        }
    }
}

/// Every kept row has a cell.
pub proof fn lemma_kept_rows_have_cells(grid: GridView)
    ensures
        forall|k: int| 0 <= k < kept_rows(grid).len() ==> (#[trigger] kept_rows(grid)[k]).len() > 0,
    decreases grid.len(),
{
    reveal(Seq::filter);
    if grid.len() > 0 {
        lemma_kept_rows_have_cells(grid.drop_last());
    }
}

/// The table of a grid, where it has one, is well formed.
pub proof fn lemma_sheet_table_well_formed(grid: GridView)
    ensures
        sheet_table(grid) matches Some(table) ==> table.well_formed(),
{
    if let Some(table) = sheet_table(grid) {
        lemma_kept_rows_have_cells(grid);
        let kept = kept_rows(grid);
        assert forall|k: int| 0 <= k < table.rows.len() implies (#[trigger] table.rows[k]).well_formed() by {
            lemma_table_row_well_formed(k, kept[k]);
        }
    }
}

/// A grid in which no row has a cell has no table, and only such a grid has none.
pub proof fn lemma_no_table_iff_no_cells(grid: GridView)
    ensures
        sheet_table(grid) is None <==> forall|i: int| 0 <= i < grid.len() ==> (#[trigger] grid[i]).len() == 0,
    decreases grid.len(),
{
    reveal(Seq::filter);
    if grid.len() > 0 {
        let rest = grid.drop_last();
        lemma_no_table_iff_no_cells(rest);
        if sheet_table(grid) is None {
            assert forall|i: int| 0 <= i < grid.len() implies (#[trigger] grid[i]).len() == 0 by {
                if i < rest.len() {
                    assert(rest[i] == grid[i]);
                }
            }
        } else if grid.last().len() == 0 {
            let i = choose|i: int| 0 <= i < rest.len() && (#[trigger] rest[i]).len() != 0;
            assert(grid[i] == rest[i]);
        }
    }
}

/// A grid in which some row has a cell has a table, and the table has as many rows
/// as the grid has rows with a cell.
pub proof fn lemma_table_row_count(grid: GridView, i: int)
    requires
        0 <= i < grid.len(),
        grid[i].len() > 0,
    ensures
        sheet_table(grid) matches Some(table) && table.rows.len() == kept_rows(grid).len(),
{
    lemma_no_table_iff_no_cells(grid);
}

/// The first row of a grid that has a cell is the first of the kept rows.
pub proof fn lemma_first_kept_row(grid: GridView, first: int)
    requires
        0 <= first < grid.len(),
        grid[first].len() > 0,
        forall|i: int| 0 <= i < first ==> (#[trigger] grid[i]).len() == 0,
    ensures
        kept_rows(grid).len() > 0,
        kept_rows(grid)[0] == grid[first],
    decreases grid.len(),
{
    reveal(Seq::filter);
    let rest = grid.drop_last();
    if first == grid.len() - 1 {
        assert forall|i: int| 0 <= i < rest.len() implies (#[trigger] rest[i]).len() == 0 by {
            assert(rest[i] == grid[i]);
        }
        lemma_no_table_iff_no_cells(rest);
    } else {
        assert forall|i: int| 0 <= i < first implies (#[trigger] rest[i]).len() == 0 by {
            assert(rest[i] == grid[i]);
        }
        lemma_first_kept_row(rest, first);
    }
}

/// The first row of a grid that has a cell decides the header: the first row of
/// the table is made from it and is a header exactly where it holds a string,
/// and every later row of the table is a body row whatever it holds.
pub proof fn lemma_header_only_first(grid: GridView, first: int)
    requires
        0 <= first < grid.len(),
        grid[first].len() > 0,
        forall|i: int| 0 <= i < first ==> (#[trigger] grid[i]).len() == 0,
    ensures
        sheet_table(grid) matches Some(table) && {
            &&& table.rows[0].cells == row_cells(grid[first])
            &&& table.rows[0].kind == TableRowKind::Header <==> row_has_text(grid[first])
            &&& forall|k: int| 1 <= k < table.rows.len() ==> (#[trigger] table.rows[k]).kind == TableRowKind::Body
        },
{
    lemma_first_kept_row(grid, first);
}

/// Makes the table cells of one row of a grid.
fn parse_row_cells(row: &Vec<CellValue>) -> (cells: Vec<TableCell>)
    ensures
        cells.deep_view() == row_cells(row.deep_view()),
{
    let mut cells: Vec<TableCell> = Vec::new();
    let mut j: usize = 0;
    while j < row.len()
        invariant
            j <= row.len(),
            cells.len() == j,
            forall|k: int| 0 <= k < j ==> (#[trigger] cells[k])@ == text_cell(cell_text(row[k]@)),
        decreases row.len() - j,
    {
        let text = data_to_string(&row[j]);
        cells.push(TableCell::from_text(text));
        j += 1;
    }
    cells
}

/// Turns the grid of a sheet into a table; `None` where no row of the grid has a
/// cell.
pub fn parse_sheet_to_table(grid: &Grid) -> (table: Option<Table>)
    ensures
        table.deep_view() == sheet_table(grid.deep_view()),
        table is None <==> forall|i: int| 0 <= i < grid.len() ==> (#[trigger] grid[i]).len() == 0,
        table matches Some(t) ==> t.rows.len() == kept_rows(grid.deep_view()).len()
            && t@.well_formed(),
{
    let ghost rows = grid.deep_view();
    let mut table_rows_built: Vec<TableRow> = Vec::new();
    let mut is_first_row = true;
    let mut i: usize = 0;
    proof {
        reveal(Seq::filter);
    }
    while i < grid.len()
        invariant
            i <= grid.len(),
            rows == grid.deep_view(),
            table_rows_built.deep_view() == table_rows(rows.take(i as int)),
            table_rows_built.len() == kept_rows(rows.take(i as int)).len(),
            is_first_row == (table_rows_built.len() == 0),
        decreases grid.len() - i,
    {
        let row = &grid[i];
        proof {
            assert(rows.take(i as int + 1) =~= rows.take(i as int).push(rows[i as int]));
            lemma_table_rows_push(rows.take(i as int), rows[i as int]);
            lemma_kept_rows_push(rows.take(i as int), rows[i as int]);
        }
        let cells = parse_row_cells(row);
        assert(cells.len() == cells.deep_view().len());
        if cells.len() > 0 {
            let kind = if is_first_row && row_contains_text(row.as_slice()) {
                TableRowKind::Header
            } else {
                TableRowKind::Body
            };
            is_first_row = false;
            let table_row_built = TableRow { cells, kind };
            assert(table_row_built@.cells =~= row_cells(row.deep_view()));
            table_rows_built.push(table_row_built);
        }
        i += 1;
    }
    assert(rows.take(i as int) =~= rows);
    proof {
        lemma_sheet_table_well_formed(rows);
        lemma_no_table_iff_no_cells(rows);
        if forall|k: int| 0 <= k < rows.len() ==> (#[trigger] rows[k]).len() == 0 {
            assert forall|k: int| 0 <= k < grid.len() implies (#[trigger] grid[k]).len() == 0 by {
                assert(rows[k] == grid[k].deep_view());
            }
        }
        if forall|k: int| 0 <= k < grid.len() ==> (#[trigger] grid[k]).len() == 0 {
            assert forall|k: int| 0 <= k < rows.len() implies (#[trigger] rows[k]).len() == 0 by {
                assert(rows[k] == grid[k].deep_view());
            }
        }
    }
    if table_rows_built.len() == 0 {
        None
    } else {
        let table = Table { rows: table_rows_built };
        assert(table@.rows =~= table_rows(rows));
        Some(table)
    }
}

} // verus!
