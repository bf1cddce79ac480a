//! From the sheets of a workbook to a document.
//!
//! Each sheet that was read and has a table gives one table block; a sheet that
//! could not be read, or has no table, gives nothing. The blocks stand in the
//! order of the sheets.

use vstd::prelude::*;

use crate::model::{Block, BlockView, Document, DocumentView};
use crate::sheet::{
    lemma_sheet_table_well_formed, parse_sheet_to_table, sheet_table, Grid, GridView,
};

verus! {

/// The block that a sheet gives: the table of its grid, if it was read and has
/// one. `None` for the sheet stands for a sheet that could not be read.
pub open spec fn sheet_block(sheet: Option<GridView>) -> Option<BlockView> {
    match sheet {
        Some(grid) => match sheet_table(grid) {
            Some(table) => Some(BlockView::Table(table)),
            None => None,
        },
        None => None,
    }
}

/// [`sheet_block`] as a function value.
pub open spec fn block_of_sheet() -> spec_fn(Option<GridView>) -> Option<BlockView> {
    |sheet: Option<GridView>| sheet_block(sheet)
}

/// The blocks that the sheets give, in the order of the sheets.
pub open spec fn sheet_blocks(sheets: Seq<Option<GridView>>) -> Seq<BlockView> {
    sheets.filter_map(block_of_sheet())
}

/// What one sheet adds to the blocks: its block, or nothing.
pub open spec fn sheet_addition(sheet: Option<GridView>) -> Seq<BlockView> {
    match sheet_block(sheet) {
        Some(block) => seq![block],
        None => Seq::empty(),
    }
}

/// One more sheet at the end adds what that sheet adds.
pub proof fn lemma_sheet_blocks_push(sheets: Seq<Option<GridView>>, sheet: Option<GridView>)
    ensures
        sheet_blocks(sheets.push(sheet)) == sheet_blocks(sheets) + sheet_addition(sheet),
{
    assert(sheets.push(sheet).drop_last() =~= sheets);
}

/// Every block that sheets give is well formed.
pub proof fn lemma_sheet_blocks_well_formed(sheets: Seq<Option<GridView>>)
    ensures
        forall|i: int|
            0 <= i < sheet_blocks(sheets).len() ==> (#[trigger] sheet_blocks(sheets)[i]).well_formed(),
    decreases sheets.len(),
{
    if sheets.len() > 0 {
        let rest = sheets.drop_last();
        lemma_sheet_blocks_well_formed(rest);
        lemma_sheet_blocks_push(rest, sheets.last());
        if let Some(grid) = sheets.last() {
            lemma_sheet_table_well_formed(grid);
        }
        let blocks = sheet_blocks(sheets);
        let earlier = sheet_blocks(rest);
        assert forall|i: int| 0 <= i < blocks.len() implies (#[trigger] blocks[i]).well_formed() by {
            if i < earlier.len() {
                assert(blocks[i] == earlier[i]);
            } else {
                assert(sheet_block(sheets.last()) == Some(blocks[i]));
            }
        }
    }
}

/// Whether a sheet was read and has a table.
pub open spec fn has_table() -> spec_fn(Option<GridView>) -> bool {
    |sheet: Option<GridView>| sheet matches Some(grid) && sheet_table(grid) is Some
}

/// There are as many blocks as there are sheets that were read and have a table.
pub proof fn lemma_block_count(sheets: Seq<Option<GridView>>)
    ensures
        sheet_blocks(sheets).len() == sheets.filter(has_table()).len(),
    decreases sheets.len(),
{
    reveal(Seq::filter);
    if sheets.len() > 0 {
        lemma_block_count(sheets.drop_last());
    }
}

/// The blocks of two runs of sheets, one after the other, are the blocks of the
/// first run followed by those of the second.
pub proof fn lemma_sheet_blocks_concat(front: Seq<Option<GridView>>, back: Seq<Option<GridView>>)
    ensures
        sheet_blocks(front + back) == sheet_blocks(front) + sheet_blocks(back),
    decreases back.len(),
{
    if back.len() == 0 {
        assert(front + back =~= front);
    } else {
        let rest = back.drop_last();
        lemma_sheet_blocks_concat(front, rest);
        assert(rest.push(back.last()) =~= back);
        assert((front + rest).push(back.last()) =~= front + back);
        lemma_sheet_blocks_push(front + rest, back.last());
        lemma_sheet_blocks_push(rest, back.last());
    }
}

/// A sheet that could not be read gives no block, and the sheets before and
/// after it give the blocks they give without it.
pub proof fn lemma_unread_sheet_gives_nothing(
    front: Seq<Option<GridView>>,
    back: Seq<Option<GridView>>,
)
    ensures
        sheet_blocks(front.push(None) + back) == sheet_blocks(front) + sheet_blocks(back),
{
    lemma_sheet_blocks_push(front, None);
    lemma_sheet_blocks_concat(front.push(None), back);
}

/// Appends to `blocks` what one sheet gives: the table of `sheet` where the
/// sheet was read and has one, nothing otherwise.
pub fn push_sheet(blocks: &mut Vec<Block>, sheet: &Option<Grid>)
    ensures
        final(blocks).deep_view() == old(blocks).deep_view() + sheet_addition(sheet.deep_view()),
{
    if let Some(grid) = sheet {
        if let Some(table) = parse_sheet_to_table(grid) {
            blocks.push(Block::Table(table));
        }
    }
}

/// Assembles a document from what reading each sheet of a workbook gave, in the
/// order of the sheets; `None` stands for a sheet that could not be read.
pub fn assemble(sheets: &Vec<Option<Grid>>) -> (document: Document)
    ensures
        document@ == DocumentView::of_blocks(sheet_blocks(sheets.deep_view())),
        document.blocks.len() == sheets.deep_view().filter(has_table()).len(),
        document@.well_formed(),
{
    let ghost reads = sheets.deep_view();
    let mut blocks: Vec<Block> = Vec::new();
    let mut i: usize = 0;
    while i < sheets.len()
        invariant
            i <= sheets.len(),
            reads == sheets.deep_view(),
            blocks.deep_view() == sheet_blocks(reads.take(i as int)),
        decreases sheets.len() - i,
    {
        proof {
            assert(reads.take(i as int + 1) =~= reads.take(i as int).push(reads[i as int]));
            lemma_sheet_blocks_push(reads.take(i as int), reads[i as int]);
        }
        push_sheet(&mut blocks, &sheets[i]);
        i += 1;
    }
    assert(reads.take(i as int) =~= reads);
    proof {
        lemma_sheet_blocks_well_formed(reads);
        lemma_block_count(reads);
    }
    Document::from_blocks(blocks)
}

} // verus!
