//! The document model: what every provider produces, whatever the format it read.
//!
//! Each executable type has a view, a value made of `Seq`s and plain data, and the
//! contracts of this crate are stated over the views.

use vstd::prelude::*;

verus! {

/// A run of inline content inside a paragraph. Only the kind that a spreadsheet
/// gives is listed.
#[derive(Debug, PartialEq, Eq)]
#[non_exhaustive]
pub enum Inline {
    /// Plain text.
    Text(String),
}

/// The view of an [`Inline`].
pub enum InlineView {
    Text(Seq<char>),
}

impl View for Inline {
    type V = InlineView;

    open spec fn view(&self) -> InlineView {
        match self {
            Inline::Text(text) => InlineView::Text(text@),
        }
    }
}

impl DeepView for Inline {
    type V = InlineView;

    open spec fn deep_view(&self) -> InlineView {
        self@
    }
}

/// What a paragraph is used for. Only the kind that a spreadsheet gives is listed.
#[derive(Clone, Copy, Debug, PartialEq, Eq, Structural)]
#[non_exhaustive]
pub enum ParagraphKind {
    /// Body text.
    Normal,
}

/// A paragraph: a kind and its inline content, in order.
#[derive(Debug, PartialEq, Eq)]
pub struct Paragraph {
    pub kind: ParagraphKind,
    pub inlines: Vec<Inline>,
}

/// The view of a [`Paragraph`].
pub struct ParagraphView {
    pub kind: ParagraphKind,
    pub inlines: Seq<InlineView>,
}

impl View for Paragraph {
    type V = ParagraphView;

    open spec fn view(&self) -> ParagraphView {
        ParagraphView { kind: self.kind, inlines: self.inlines.deep_view() }
    }
}

impl DeepView for Paragraph {
    type V = ParagraphView;

    open spec fn deep_view(&self) -> ParagraphView {
        self@
    }
}

/// Whether a table row holds column labels or data.
#[derive(Clone, Copy, Debug, PartialEq, Eq, Structural)]
pub enum TableRowKind {
    Header,
    Body,
}

/// A block-level element of a document. Only the kinds that a spreadsheet gives
/// are listed.
#[derive(Debug, PartialEq, Eq)]
#[non_exhaustive]
pub enum Block {
    Table(Table),
    Paragraph(Paragraph),
}

/// A table: its rows, in order. A well-formed table has at least one row.
#[derive(Debug, PartialEq, Eq)]
pub struct Table {
    pub rows: Vec<TableRow>,
}

/// A table row: its cells, in order, and its kind. A well-formed row has at least
/// one cell.
#[derive(Debug, PartialEq, Eq)]
pub struct TableRow {
    pub cells: Vec<TableCell>,
    pub kind: TableRowKind,
}

/// A table cell: its content and the number of columns and rows it spans. In a
/// well-formed cell both spans are at least 1.
#[derive(Debug, PartialEq, Eq)]
pub struct TableCell {
    pub blocks: Vec<Block>,
    pub colspan: u32,
    pub rowspan: u32,
}

/// The view of a [`Block`].
pub enum BlockView {
    Table(TableView),
    Paragraph(ParagraphView),
}

/// The view of a [`Table`].
pub struct TableView {
    pub rows: Seq<TableRowView>,
}

/// The view of a [`TableRow`].
pub struct TableRowView {
    pub cells: Seq<TableCellView>,
    pub kind: TableRowKind,
}

/// The view of a [`TableCell`].
pub struct TableCellView {
    pub blocks: Seq<BlockView>,
    pub colspan: u32,
    pub rowspan: u32,
}

impl View for Block {
    type V = BlockView;

    open spec fn view(&self) -> BlockView
        decreases self,
    {
        match self {
            Block::Table(table) => BlockView::Table(table.view()),
            Block::Paragraph(paragraph) => BlockView::Paragraph(paragraph.view()),
        }
    }
}

impl DeepView for Block {
    type V = BlockView;

    open spec fn deep_view(&self) -> BlockView {
        self@
    }
}

impl View for Table {
    type V = TableView;

    open spec fn view(&self) -> TableView
        decreases self,
    {
        TableView {
            rows: Seq::new(
                self.rows.len() as nat,
                |i: int|
                    if 0 <= i < self.rows.len() {
                        self.rows[i].view()
                    } else {
                        arbitrary()
                    },
            ),
        }
    }
}

impl DeepView for Table {
    type V = TableView;

    open spec fn deep_view(&self) -> TableView {
        self@
    }
}

impl View for TableRow {
    type V = TableRowView;

    open spec fn view(&self) -> TableRowView
        decreases self,
    {
        TableRowView {
            cells: Seq::new(
                self.cells.len() as nat,
                |i: int|
                    if 0 <= i < self.cells.len() {
                        self.cells[i].view()
                    } else {
                        arbitrary()
                    },
            ),
            kind: self.kind,
        }
    }
}

impl DeepView for TableRow {
    type V = TableRowView;

    open spec fn deep_view(&self) -> TableRowView {
        self@
    }
}

impl View for TableCell {
    type V = TableCellView;

    open spec fn view(&self) -> TableCellView
        decreases self,
    {
        TableCellView {
            blocks: Seq::new(
                self.blocks.len() as nat,
                |i: int|
                    if 0 <= i < self.blocks.len() {
                        self.blocks[i].view()
                    } else {
                        arbitrary()
                    },
            ),
            colspan: self.colspan,
            rowspan: self.rowspan,
        }
    }
}

impl DeepView for TableCell {
    type V = TableCellView;

    open spec fn deep_view(&self) -> TableCellView {
        self@
    }
}

impl BlockView {
    /// Every table in the block is well formed.
    pub open spec fn well_formed(self) -> bool
        decreases self,
    {
        match self {
            BlockView::Table(table) => table.well_formed(),
            BlockView::Paragraph(_) => true,
        }
    }
}

impl TableView {
    /// The table has a row, and each of its rows is well formed.
    pub open spec fn well_formed(self) -> bool
        decreases self,
    {
        &&& self.rows.len() > 0
        &&& forall|i: int| 0 <= i < self.rows.len() ==> (#[trigger] self.rows[i]).well_formed()
    }
}

impl TableRowView {
    /// The row has a cell, and each of its cells is well formed.
    pub open spec fn well_formed(self) -> bool
        decreases self,
    {
        &&& self.cells.len() > 0
        &&& forall|i: int| 0 <= i < self.cells.len() ==> (#[trigger] self.cells[i]).well_formed()
    }
}

impl TableCellView {
    /// The cell spans at least one column and one row, and each block in it is
    /// well formed.
    pub open spec fn well_formed(self) -> bool
        decreases self,
    {
        &&& self.colspan >= 1
        &&& self.rowspan >= 1
        &&& forall|i: int|
            0 <= i < self.blocks.len() ==> (#[trigger] self.blocks[i]).well_formed()
    }
}

/// The cell that holds `text` and nothing else: one normal paragraph with one
/// text run, spanning one column and one row.
pub open spec fn text_cell(text: Seq<char>) -> TableCellView {
    TableCellView {
        blocks: seq![
            BlockView::Paragraph(
                ParagraphView { kind: ParagraphKind::Normal, inlines: seq![InlineView::Text(text)] },
            ),
        ],
        colspan: 1,
        rowspan: 1,
    }
}

impl TableCell {
    /// A cell that holds `text` and nothing else.
    pub fn from_text(text: String) -> (cell: TableCell)
        ensures
            cell@ == text_cell(text@),
    {
        let ghost shown = text@;
        let mut inlines: Vec<Inline> = Vec::new();
        inlines.push(Inline::Text(text));
        let paragraph = Paragraph { kind: ParagraphKind::Normal, inlines };
        assert(paragraph@.inlines =~= seq![InlineView::Text(shown)]);
        let mut blocks: Vec<Block> = Vec::new();
        blocks.push(Block::Paragraph(paragraph));
        let cell = TableCell { blocks, colspan: 1, rowspan: 1 };
        assert(cell@.blocks =~= text_cell(shown).blocks);
        cell
    }
}

/// A note attached to a document.
#[derive(Debug, PartialEq, Eq)]
pub struct Note {
    pub text: String,
}

impl View for Note {
    type V = Seq<char>;

    open spec fn view(&self) -> Seq<char> {
        self.text@
    }
}

impl DeepView for Note {
    type V = Seq<char>;

    open spec fn deep_view(&self) -> Seq<char> {
        self@
    }
}

/// A remark that a reader left on a document.
#[derive(Debug, PartialEq, Eq)]
pub struct Comment {
    pub text: String,
}

impl View for Comment {
    type V = Seq<char>;

    open spec fn view(&self) -> Seq<char> {
        self.text@
    }
}

impl DeepView for Comment {
    type V = Seq<char>;

    open spec fn deep_view(&self) -> Seq<char> {
        self@
    }
}

/// What is known about a document besides its content.
#[derive(Debug, PartialEq, Eq)]
pub struct DocumentMetadata {
    pub title: Option<String>,
    pub author: Option<String>,
}

/// The view of a [`DocumentMetadata`].
pub struct DocumentMetadataView {
    pub title: Option<Seq<char>>,
    pub author: Option<Seq<char>>,
}

impl DocumentMetadataView {
    /// Metadata in which nothing is known.
    pub open spec fn empty() -> DocumentMetadataView {
        DocumentMetadataView { title: None, author: None }
    }
}

impl View for DocumentMetadata {
    type V = DocumentMetadataView;

    open spec fn view(&self) -> DocumentMetadataView {
        DocumentMetadataView { title: self.title.deep_view(), author: self.author.deep_view() }
    }
}

impl Default for DocumentMetadata {
    fn default() -> (metadata: DocumentMetadata)
        ensures
            metadata@ == DocumentMetadataView::empty(),
    {
        DocumentMetadata { title: None, author: None }
    }
}

/// A document: its blocks in order, its metadata, its notes and its comments.
#[derive(Debug, PartialEq, Eq)]
pub struct Document {
    pub blocks: Vec<Block>,
    pub metadata: DocumentMetadata,
    pub notes: Vec<Note>,
    pub comments: Vec<Comment>,
}

/// The view of a [`Document`].
pub struct DocumentView {
    pub blocks: Seq<BlockView>,
    pub metadata: DocumentMetadataView,
    pub notes: Seq<Seq<char>>,
    pub comments: Seq<Seq<char>>,
}

impl DocumentView {
    /// The document that holds `blocks` and nothing else: no metadata, no notes,
    /// no comments.
    pub open spec fn of_blocks(blocks: Seq<BlockView>) -> DocumentView {
        DocumentView {
            blocks,
            metadata: DocumentMetadataView::empty(),
            notes: Seq::empty(),
            comments: Seq::empty(),
        }
    }

    /// Every block of the document is well formed.
    pub open spec fn well_formed(self) -> bool {
        forall|i: int| 0 <= i < self.blocks.len() ==> (#[trigger] self.blocks[i]).well_formed()
    }
}

impl View for Document {
    type V = DocumentView;

    open spec fn view(&self) -> DocumentView {
        DocumentView {
            blocks: self.blocks.deep_view(),
            metadata: self.metadata@,
            notes: self.notes.deep_view(),
            comments: self.comments.deep_view(),
        }
    }
}

impl Document {
    /// The document that holds `blocks` and nothing else.
    pub fn from_blocks(blocks: Vec<Block>) -> (document: Document)
        ensures
            document@ == DocumentView::of_blocks(blocks.deep_view()),
    {
        let document = Document {
            blocks,
            metadata: DocumentMetadata::default(),
            notes: Vec::new(),
            comments: Vec::new(),
        };
        assert(document@.notes =~= Seq::empty());
        assert(document@.comments =~= Seq::empty());
        document
    }
}

} // verus!
