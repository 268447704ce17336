//! Text extraction from a word-processing document: the paragraphs and tables
//! of the document body become text segments.
//!
//! The document is held as the tree of what the extraction reads: text inside
//! runs inside paragraphs, and paragraphs inside the cells of tables. Anything
//! else in the tree is `Other` and contributes nothing.

use vstd::prelude::*;
use vstd::string::*;
use crate::text::{decimal_digits, decimal_text, is_blank, trimmed};

verus! {

/// A child of a run.
pub enum RunChild {
    Text(String),
    Other,
}

/// A child of a paragraph.
pub enum ParagraphChild {
    Run(Vec<RunChild>),
    Other,
}

pub struct Paragraph {
    pub children: Vec<ParagraphChild>,
}

/// A child of a table cell.
pub enum CellChild {
    Paragraph(Paragraph),
    Other,
}

pub struct TableCell {
    pub children: Vec<CellChild>,
}

pub struct TableRow {
    pub cells: Vec<TableCell>,
}

pub struct Table {
    pub rows: Vec<TableRow>,
}

/// A child of the document body.
pub enum DocumentChild {
    Paragraph(Paragraph),
    Table(Table),
    Other,
}

pub struct Document {
    pub children: Vec<DocumentChild>,
}

/// What follows each text of a run: a space inside tables, nothing elsewhere.
pub open spec fn separator(spaced: bool) -> Seq<char> {
    if spaced {
        " "@
    } else {
        Seq::empty()
    }
}

/// What one child of a run contributes.
pub open spec fn run_child_text(child: RunChild, spaced: bool) -> Seq<char> {
    match child {
        RunChild::Text(text) => text@ + separator(spaced),
        RunChild::Other => Seq::empty(),
    }
}

/// The texts of a run, in order.
pub open spec fn run_text(children: Seq<RunChild>, spaced: bool) -> Seq<char>
    decreases children.len(),
{
    if children.len() == 0 {
        Seq::empty()
    } else {
        run_text(children.drop_last(), spaced) + run_child_text(children.last(), spaced)
    }
}

/// What one child of a paragraph contributes.
pub open spec fn paragraph_child_text(child: ParagraphChild, spaced: bool) -> Seq<char> {
    match child {
        ParagraphChild::Run(children) => run_text(children@, spaced),
        ParagraphChild::Other => Seq::empty(),
    }
}

/// The texts of the runs of a paragraph, in order.
pub open spec fn paragraph_text(children: Seq<ParagraphChild>, spaced: bool) -> Seq<char>
    decreases children.len(),
{
    if children.len() == 0 {
        Seq::empty()
    } else {
        paragraph_text(children.drop_last(), spaced) + paragraph_child_text(
            children.last(),
            spaced,
        )
    }
}

/// What one child of a cell contributes.
pub open spec fn cell_child_text(child: CellChild) -> Seq<char> {
    match child {
        CellChild::Paragraph(paragraph) => paragraph_text(paragraph.children@, true),
        CellChild::Other => Seq::empty(),
    }
}

/// The text of a cell: that of its paragraphs, a space behind each text.
pub open spec fn cell_text(children: Seq<CellChild>) -> Seq<char>
    decreases children.len(),
{
    if children.len() == 0 {
        Seq::empty()
    } else {
        cell_text(children.drop_last()) + cell_child_text(children.last())
    }
}

/// The text of a row: a tab behind each cell.
pub open spec fn row_text(cells: Seq<TableCell>) -> Seq<char>
    decreases cells.len(),
{
    if cells.len() == 0 {
        Seq::empty()
    } else {
        row_text(cells.drop_last()) + cell_text(cells.last().children@) + "\t"@
    }
}

/// The text of a table: a line break behind each row.
pub open spec fn table_text(rows: Seq<TableRow>) -> Seq<char>
    decreases rows.len(),
{
    if rows.len() == 0 {
        Seq::empty()
    } else {
        table_text(rows.drop_last()) + row_text(rows.last().cells@) + "\n"@
    }
}

fn append_run(out: &mut String, children: &Vec<RunChild>, spaced: bool)
    ensures
        final(out)@ == old(out)@ + run_text(children@, spaced),
{
    let ghost start = out@;
    let mut i: usize = 0;
    assert(start + run_text(children@.take(0), spaced) =~= start);
    while i < children.len()
        invariant
            i <= children.len(),
            out@ == start + run_text(children@.take(i as int), spaced),
        decreases children.len() - i,
    {
        let ghost before = out@;
        match &children[i] {
            RunChild::Text(text) => {
                out.append(text.as_str());
                if spaced {
                    out.append(" ");
                }
            },
            RunChild::Other => {},
        }
        proof {
            let next = children@.take(i + 1);
            assert(next.drop_last() =~= children@.take(i as int));
            assert(next.last() == children@[i as int]);
            assert(out@ =~= before + run_child_text(children@[i as int], spaced));
            assert(out@ =~= start + run_text(next, spaced));
        }
        i = i + 1;
    }
    assert(children@.take(i as int) =~= children@);
}

fn append_paragraph(out: &mut String, children: &Vec<ParagraphChild>, spaced: bool)
    ensures
        final(out)@ == old(out)@ + paragraph_text(children@, spaced),
{
    let ghost start = out@;
    let mut i: usize = 0;
    assert(start + paragraph_text(children@.take(0), spaced) =~= start);
    while i < children.len()
        invariant
            i <= children.len(),
            out@ == start + paragraph_text(children@.take(i as int), spaced),
        decreases children.len() - i,
    {
        let ghost before = out@;
        match &children[i] {
            ParagraphChild::Run(run) => {
                append_run(out, run, spaced);
            },
            ParagraphChild::Other => {},
        }
        proof {
            let next = children@.take(i + 1);
            assert(next.drop_last() =~= children@.take(i as int));
            assert(next.last() == children@[i as int]);
            assert(out@ =~= before + paragraph_child_text(children@[i as int], spaced));
            assert(out@ =~= start + paragraph_text(next, spaced));
        }
        i = i + 1;
    }
    assert(children@.take(i as int) =~= children@);
}

fn append_cell(out: &mut String, children: &Vec<CellChild>)
    ensures
        final(out)@ == old(out)@ + cell_text(children@),
{
    let ghost start = out@;
    let mut i: usize = 0;
    assert(start + cell_text(children@.take(0)) =~= start);
    while i < children.len()
        invariant
            i <= children.len(),
            out@ == start + cell_text(children@.take(i as int)),
        decreases children.len() - i,
    {
        let ghost before = out@;
        match &children[i] {
            CellChild::Paragraph(paragraph) => {
                append_paragraph(out, &paragraph.children, true);
            },
            CellChild::Other => {},
        }
        proof {
            let next = children@.take(i + 1);
            assert(next.drop_last() =~= children@.take(i as int));
            assert(next.last() == children@[i as int]);
            assert(out@ =~= before + cell_child_text(children@[i as int]));
            assert(out@ =~= start + cell_text(next));
        }
        i = i + 1;
    }
    assert(children@.take(i as int) =~= children@);
}

fn append_row(out: &mut String, cells: &Vec<TableCell>)
    ensures
        final(out)@ == old(out)@ + row_text(cells@),
{
    let ghost start = out@;
    let mut i: usize = 0;
    assert(start + row_text(cells@.take(0)) =~= start);
    while i < cells.len()
        invariant
            i <= cells.len(),
            out@ == start + row_text(cells@.take(i as int)),
        decreases cells.len() - i,
    {
        let ghost before = out@;
        append_cell(out, &cells[i].children);
        out.append("\t");
        proof {
            let next = cells@.take(i + 1);
            assert(next.drop_last() =~= cells@.take(i as int));
            assert(next.last() == cells@[i as int]);
            assert(out@ =~= before + cell_text(cells@[i as int].children@) + "\t"@);
            assert(out@ =~= start + row_text(next));
        }
        i = i + 1;
    }
    assert(cells@.take(i as int) =~= cells@);
}

/// The text of a paragraph of the body: the texts of its runs, joined.
pub fn paragraph_string(paragraph: &Paragraph) -> (text: String)
    ensures
        text@ == paragraph_text(paragraph.children@, false),
{
    let mut out = String::new();
    append_paragraph(&mut out, &paragraph.children, false);
    assert(Seq::<char>::empty() + paragraph_text(paragraph.children@, false) =~= paragraph_text(
        paragraph.children@,
        false,
    ));
    out
}

/// The text of a table: a space behind each text, a tab behind each cell, a
/// line break behind each row.
pub fn table_string(table: &Table) -> (text: String)
    ensures
        text@ == table_text(table.rows@),
{
    let rows = &table.rows;
    let mut out = String::new();
    let mut i: usize = 0;
    assert(rows@.take(0) =~= Seq::<TableRow>::empty());
    while i < rows.len()
        invariant
            i <= rows.len(),
            out@ == table_text(rows@.take(i as int)),
        decreases rows.len() - i,
    {
        let ghost before = out@;
        append_row(&mut out, &rows[i].cells);
        out.append("\n");
        proof {
            let next = rows@.take(i + 1);
            assert(next.drop_last() =~= rows@.take(i as int));
            assert(next.last() == rows@[i as int]);
            assert(out@ =~= before + row_text(rows@[i as int].cells@) + "\n"@);
        }
        i = i + 1;
    }
    assert(rows@.take(i as int) =~= rows@);
    out
}

/// A piece of extracted text: where it stood, and how far it is to be
/// trusted, in percent.
pub struct TextSegment {
    pub text: String,
    pub page: Option<i32>,
    pub section: Option<String>,
    pub confidence_percent: u8,
}

/// What a segment holds, as plain values.
pub struct SegmentView {
    pub text: Seq<char>,
    pub page: Option<i32>,
    pub section: Option<Seq<char>>,
    pub confidence_percent: u8,
}

impl View for TextSegment {
    type V = SegmentView;

    open spec fn view(&self) -> SegmentView {
        SegmentView {
            text: self.text@,
            page: self.page,
            section: match self.section {
                Some(name) => Some(name@),
                None => None,
            },
            confidence_percent: self.confidence_percent,
        }
    }
}

impl TextSegment {
    pub fn new(text: String, page: Option<i32>, section: Option<String>, confidence_percent: u8) -> (s:
        Self)
        ensures
            s.text == text,
            s.page == page,
            s.section == section,
            s.confidence_percent == confidence_percent,
    {
        TextSegment { text, page, section, confidence_percent }
    }
}

/// The segment of a text found in a section, unless the text is blank. The
/// page is unknown and the text is trusted in full.
pub open spec fn segment_unless(blank: bool, text: Seq<char>, section: Seq<char>) -> Option<
    SegmentView,
> {
    if blank {
        None
    } else {
        Some(SegmentView { text, page: None, section: Some(section), confidence_percent: 100 })
    }
}

/// The segment of a text found in a section, if the text is worth one: a text
/// of white space alone gives none.
pub open spec fn segment_spec(text: Seq<char>, section: Seq<char>) -> Option<SegmentView> {
    segment_unless(trimmed(text).len() == 0, text, section)
}

/// The view of a segment that may be absent.
pub open spec fn segment_view(segment: Option<TextSegment>) -> Option<SegmentView> {
    match segment {
        Some(s) => Some(s@),
        None => None,
    }
}

/// Makes the segment of a text found in a section, unless the text is blank.
pub fn text_segment(blank: bool, text: String, section: String) -> (segment: Option<TextSegment>)
    ensures
        segment_view(segment) == segment_unless(blank, text@, section@),
{
    if blank {
        None
    } else {
        Some(TextSegment::new(text, None, Some(section), 100))
    }
}

/// The segment that the child at position `index` of the body gives, if any:
/// paragraphs and tables are named by their kind and position.
pub open spec fn child_segment(child: DocumentChild, index: nat) -> Option<SegmentView> {
    match child {
        DocumentChild::Paragraph(paragraph) => segment_spec(
            paragraph_text(paragraph.children@, false),
            "paragraph_"@ + decimal_digits(index),
        ),
        DocumentChild::Table(table) => segment_spec(
            table_text(table.rows@),
            "table_"@ + decimal_digits(index),
        ),
        DocumentChild::Other => None,
    }
}

/// The segments of the first `count` children of a body, in order.
pub open spec fn segments_spec(children: Seq<DocumentChild>, count: nat) -> Seq<SegmentView>
    decreases count,
{
    if count == 0 || count > children.len() {
        Seq::empty()
    } else {
        let before = segments_spec(children, (count - 1) as nat);
        match child_segment(children[count - 1], (count - 1) as nat) {
            Some(segment) => before.push(segment),
            None => before,
        }
    }
}

/// The views of a sequence of segments.
pub open spec fn segment_views(segments: Seq<TextSegment>) -> Seq<SegmentView> {
    segments.map_values(|s: TextSegment| s@)
}

/// Extracts the text segments of a document: one for each paragraph and each
/// table of the body whose text is more than white space, in the order of the
/// body.
pub fn extract_segments(document: &Document) -> (segments: Vec<TextSegment>)
    ensures
        segment_views(segments@) == segments_spec(document.children@, document.children@.len()),
{
    let children = &document.children;
    let mut segments: Vec<TextSegment> = Vec::new();
    let mut i: usize = 0;
    assert(segment_views(segments@) =~= Seq::<SegmentView>::empty());
    while i < children.len()
        invariant
            i <= children.len(),
            children@ == document.children@,
            segment_views(segments@) == segments_spec(children@, i as nat),
        decreases children.len() - i,
    {
        let ghost before = segment_views(segments@);
        match &children[i] {
            DocumentChild::Paragraph(paragraph) => {
                let text = paragraph_string(paragraph);
                let section = "paragraph_".to_owned().concat(decimal_text(i as u128).as_str());
                match text_segment(is_blank(text.as_str()), text, section) {
                    Some(segment) => {
                        segments.push(segment);
                        assert(segment_views(segments@) =~= before.push(segment@));
                    },
                    None => {},
                }
            },
            DocumentChild::Table(table) => {
                let text = table_string(table);
                let section = "table_".to_owned().concat(decimal_text(i as u128).as_str());
                match text_segment(is_blank(text.as_str()), text, section) {
                    Some(segment) => {
                        segments.push(segment);
                        assert(segment_views(segments@) =~= before.push(segment@));
                    },
                    None => {},
                }
            },
            DocumentChild::Other => {},
        }
        i = i + 1;
    }
    segments
}

/// What went wrong with an extraction.
pub struct ExtractionError {
    pub code: String,
    pub message: String,
    pub recoverable: bool,
}

impl ExtractionError {
    pub fn new(code: String, message: String, recoverable: bool) -> (e: Self)
        ensures
            e.code == code,
            e.message == message,
            e.recoverable == recoverable,
    {
        ExtractionError { code, message, recoverable }
    }
}

/// The step at which loading a document failed.
#[derive(Clone, Copy, PartialEq, Eq, Structural, Debug)]
pub enum LoadFailure {
    /// The file could not be opened.
    FileNotFound,
    /// The file could not be read to its end.
    ReadError,
    /// The bytes are no document.
    Corrupted,
}

impl LoadFailure {
    /// The code under which the failure is reported.
    pub open spec fn code_spec(self) -> Seq<char> {
        match self {
            LoadFailure::FileNotFound => "FILE_NOT_FOUND"@,
            LoadFailure::ReadError => "READ_ERROR"@,
            LoadFailure::Corrupted => "CORRUPTED"@,
        }
    }

    /// The message under which the failure is reported, given the detail that
    /// the failing step gave.
    pub open spec fn message_spec(self, detail: Seq<char>) -> Seq<char> {
        match self {
            LoadFailure::FileNotFound => "Failed to open file: "@ + detail,
            LoadFailure::ReadError => "Failed to read file: "@ + detail,
            LoadFailure::Corrupted => "Failed to parse DOCX: "@ + detail,
        }
    }

    /// The error that reports the failure. None of them can be recovered from.
    pub fn error(self, detail: &str) -> (e: ExtractionError)
        ensures
            e.code@ == self.code_spec(),
            e.message@ == self.message_spec(detail@),
            !e.recoverable,
    {
        match self {
            LoadFailure::FileNotFound => ExtractionError::new(
                "FILE_NOT_FOUND".to_owned(),
                "Failed to open file: ".to_owned().concat(detail),
                false,
            ),
            LoadFailure::ReadError => ExtractionError::new(
                "READ_ERROR".to_owned(),
                "Failed to read file: ".to_owned().concat(detail),
                false,
            ),
            LoadFailure::Corrupted => ExtractionError::new(
                "CORRUPTED".to_owned(),
                "Failed to parse DOCX: ".to_owned().concat(detail),
                false,
            ),
        }
    }
}

/// What an extraction gives: the segments, their number where the document
/// could be loaded, the size of the file, and the errors.
pub struct ExtractionResult {
    pub segments: Vec<TextSegment>,
    pub paragraph_count: Option<usize>,
    pub file_size_bytes: i64,
    pub errors: Vec<ExtractionError>,
    pub truncated: bool,
    pub extractor: String,
    pub version: String,
}

/// Extracts the text of a document from what loading its file gave: the
/// document, or the step that failed with its detail. A failure gives no
/// segments and one error; a document gives its segments, their number and no
/// error. Nothing is ever truncated.
pub fn extract_docx(loaded: Result<Document, (LoadFailure, String)>, file_size_bytes: i64) -> (r:
    ExtractionResult)
    ensures
        r.file_size_bytes == file_size_bytes,
        !r.truncated,
        r.extractor@ == "docx_rust"@,
        r.version@ == "1.0.0"@,
        loaded matches Ok(document) ==> {
            &&& segment_views(r.segments@) == segments_spec(
                document.children@,
                document.children@.len(),
            )
            &&& r.paragraph_count == Some(r.segments@.len() as usize)
            &&& r.errors@.len() == 0
        },
        loaded matches Err(failure) ==> {
            &&& r.segments@.len() == 0
            &&& r.paragraph_count is None
            &&& r.errors@.len() == 1
            &&& r.errors@[0].code@ == failure.0.code_spec()
            &&& r.errors@[0].message@ == failure.0.message_spec(failure.1@)
            &&& !r.errors@[0].recoverable
        },
{
    match loaded {
        Ok(document) => {
            let segments = extract_segments(&document);
            let count = segments.len();
            ExtractionResult {
                segments,
                paragraph_count: Some(count),
                file_size_bytes,
                errors: Vec::new(),
                truncated: false,
                extractor: "docx_rust".to_owned(),
                version: "1.0.0".to_owned(),
            }
        },
        Err(failure) => {
            let mut errors: Vec<ExtractionError> = Vec::new();
            errors.push(failure.0.error(failure.1.as_str()));
            ExtractionResult {
                segments: Vec::new(),
                paragraph_count: None,
                file_size_bytes,
                errors,
                truncated: false,
                extractor: "docx_rust".to_owned(),
                version: "1.0.0".to_owned(),
            }
        },
    }
}

} // verus!
