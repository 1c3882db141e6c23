//! Catalog entries and the load that assembles them.
//!
//! The caller lists the data directory, opens and locks the files and reads
//! their text; this module decides which names are records, decodes the
//! text, and builds the catalog. A file that another holder has locked
//! gives no entry. A file that could not be read or decoded still gives
//! one, without a record, so that it stays visible in the catalog.

use crate::book_data::{BookData, BookDataView};
use crate::decode::{decode_record, decode_table, Fault};
use crate::document::{document_content, error_message, parse_table};
use crate::filename::{identifier_of, is_record_name, record_identifier};
use vstd::prelude::*;

verus! {

/// What was read of a file: the text, and whether reading reached the end
/// of the file. Where it did not, `content` is what was read until then.
#[derive(Debug, Clone)]
pub struct FileText {
    pub content: String,
    pub complete: bool,
}

/// Why a file gave no record. Every variant carries the text that was read.
#[derive(Debug, Clone)]
pub enum ReadError {
    /// Reading the file failed.
    Io { content: String },
    /// The text is no TOML document; `message` is the parser's description.
    Syntax { message: String, content: String },
    /// The document does not provide `field` as the record needs it.
    Schema { field: String, fault: Fault, content: String },
}

/// The mathematical value of a [`ReadError`].
pub ghost enum ReadErrorView {
    Io { content: Seq<char> },
    Syntax { message: Seq<char>, content: Seq<char> },
    Schema { field: Seq<char>, fault: Fault, content: Seq<char> },
}

impl View for ReadError {
    type V = ReadErrorView;

    open spec fn view(&self) -> ReadErrorView {
        match *self {
            ReadError::Io { content } => ReadErrorView::Io { content: content@ },
            ReadError::Syntax { message, content } => ReadErrorView::Syntax {
                message: message@,
                content: content@,
            },
            ReadError::Schema { field, fault, content } => ReadErrorView::Schema {
                field: field@,
                fault,
                content: content@,
            },
        }
    }
}

/// What reading a record from a file gives, by the text read and whether
/// it is complete: the record, or the first thing that stood in its way.
pub open spec fn read_outcome(content: Seq<char>, complete: bool) -> Result<
    BookDataView,
    ReadErrorView,
> {
    if !complete {
        Err(ReadErrorView::Io { content })
    } else {
        match document_content(content) {
            Err(message) => Err(ReadErrorView::Syntax { message, content }),
            Ok(doc) => match decode_record(doc) {
                Ok(record) => Ok(record),
                Err(error) => Err(
                    ReadErrorView::Schema { field: error.field, fault: error.fault, content },
                ),
            },
        }
    }
}

/// Decodes the record in the text of a file. Text that was not read to the
/// end is an I/O failure; text that is no TOML document, or a document that
/// lacks a field of the record, is a decode failure. The error hands the
/// text back for the report.
pub fn read_book_from_file(text: FileText) -> (r: Result<BookData, ReadError>)
    ensures
        match r {
            Ok(record) => read_outcome(text.content@, text.complete) == Ok::<_, ReadErrorView>(
                record@,
            ),
            Err(error) => read_outcome(text.content@, text.complete) == Err::<BookDataView, _>(
                error@,
            ),
        },
{
    let FileText { content, complete } = text;
    if !complete {
        return Err(ReadError::Io { content });
    }
    match parse_table(content.as_str()) {
        Err(error) => {
            let message = error_message(&error).to_owned();
            Err(ReadError::Syntax { message, content })
        },
        Ok(table) => match decode_table(&table) {
            Ok(record) => Ok(record),
            Err(error) => Err(
                ReadError::Schema { field: error.field, fault: error.fault, content },
            ),
        },
    }
}

/// One book of the catalog. `H` is the open, locked file behind the entry:
/// the entry owns it, and the lock lasts as long as the entry does.
#[derive(Debug, Clone)]
pub struct Book<H> {
    /// The number written in the file's name.
    pub id: u32,
    /// The record, absent where the file could not be read or decoded.
    pub data: Option<BookData>,
    pub file: H,
    pub description_hovered: bool,
}

/// The mathematical value of a [`Book`].
pub ghost struct BookView<H> {
    pub id: u32,
    pub data: Option<BookDataView>,
    pub file: H,
    pub description_hovered: bool,
}

impl<H> View for Book<H> {
    type V = BookView<H>;

    open spec fn view(&self) -> BookView<H> {
        BookView {
            id: self.id,
            data: match self.data {
                Some(record) => Some(record@),
                None => None,
            },
            file: self.file,
            description_hovered: self.description_hovered,
        }
    }
}

/// What came of opening and locking a file.
#[derive(Debug, Clone)]
pub enum Access<H> {
    /// Another holder has the lock, or the file could not be opened.
    Contended,
    /// The file is open and locked, and this is what was read of it.
    Held { file: H, text: FileText },
}

/// A file of the data directory after the attempt to open, lock and read it.
#[derive(Debug, Clone)]
pub struct Candidate<H> {
    pub file_name: String,
    pub access: Access<H>,
}

/// The mathematical value of a [`Candidate`]: `held` is absent for a
/// contended file, and else holds the file, the text read and whether the
/// text is complete.
pub ghost struct CandidateView<H> {
    pub file_name: Seq<char>,
    pub held: Option<(H, Seq<char>, bool)>,
}

impl<H> View for Candidate<H> {
    type V = CandidateView<H>;

    open spec fn view(&self) -> CandidateView<H> {
        CandidateView {
            file_name: self.file_name@,
            held: match self.access {
                Access::Contended => None,
                Access::Held { file, text } => Some((file, text.content@, text.complete)),
            },
        }
    }
}

/// A failure met during the load. None of them ends the load.
#[derive(Debug, Clone)]
pub enum Diagnostic {
    /// The file is locked by another holder and was left out.
    LockContention { file_name: String },
    /// The file gave no record; its entry has none.
    ReadFailure { file_name: String, error: ReadError },
}

/// The mathematical value of a [`Diagnostic`].
pub ghost enum DiagnosticView {
    LockContention { file_name: Seq<char> },
    ReadFailure { file_name: Seq<char>, error: ReadErrorView },
}

impl View for Diagnostic {
    type V = DiagnosticView;

    open spec fn view(&self) -> DiagnosticView {
        match *self {
            Diagnostic::LockContention { file_name } => DiagnosticView::LockContention {
                file_name: file_name@,
            },
            Diagnostic::ReadFailure { file_name, error } => DiagnosticView::ReadFailure {
                file_name: file_name@,
                error: error@,
            },
        }
    }
}

/// The catalog and the failures met while loading it, each in the order of
/// the files that gave them.
#[derive(Debug)]
pub struct Loaded<H> {
    pub books: Vec<Book<H>>,
    pub diagnostics: Vec<Diagnostic>,
}

/// The values of a list of entries.
pub open spec fn book_views<H>(books: Seq<Book<H>>) -> Seq<BookView<H>> {
    Seq::new(books.len(), |i: int| books[i]@)
}

/// The values of a list of candidates.
pub open spec fn candidate_views<H>(candidates: Seq<Candidate<H>>) -> Seq<CandidateView<H>> {
    Seq::new(candidates.len(), |i: int| candidates[i]@)
}

/// The values of a list of diagnostics.
pub open spec fn diagnostic_views(diagnostics: Seq<Diagnostic>) -> Seq<DiagnosticView> {
    Seq::new(diagnostics.len(), |i: int| diagnostics[i]@)
}

/// The entry that a candidate gives: none unless its name is a record name
/// and its file is held; then one with the name's identifier, the record if
/// the text decodes, the file, and the hover state off.
pub open spec fn entry_of<H>(candidate: CandidateView<H>) -> Option<BookView<H>> {
    if !is_record_name(candidate.file_name) {
        None
    } else {
        match candidate.held {
            None => None,
            Some((file, content, complete)) => Some(
                BookView {
                    id: identifier_of(candidate.file_name) as u32,
                    data: match read_outcome(content, complete) {
                        Ok(record) => Some(record),
                        Err(_) => None,
                    },
                    file,
                    description_hovered: false,
                },
            ),
        }
    }
}

/// The failure that a candidate gives: none for a name that is no record
/// name, lock contention for a file that is not held, and else the error,
/// if any, of reading its record.
pub open spec fn diagnostic_of<H>(candidate: CandidateView<H>) -> Option<DiagnosticView> {
    if !is_record_name(candidate.file_name) {
        None
    } else {
        match candidate.held {
            None => Some(DiagnosticView::LockContention { file_name: candidate.file_name }),
            Some((_, content, complete)) => match read_outcome(content, complete) {
                Ok(_) => None,
                Err(error) => Some(
                    DiagnosticView::ReadFailure { file_name: candidate.file_name, error },
                ),
            },
        }
    }
}

/// The catalog that a list of candidates gives: the entries of those that
/// give one, in the candidates' order.
pub open spec fn catalog_of<H>(candidates: Seq<CandidateView<H>>) -> Seq<BookView<H>>
    decreases candidates.len(),
{
    if candidates.len() == 0 {
        Seq::empty()
    } else {
        let before = catalog_of(candidates.drop_last());
        match entry_of(candidates.last()) {
            Some(book) => before.push(book),
            None => before,
        }
    }
}

/// The failures that a list of candidates gives, in the candidates' order.
pub open spec fn diagnostics_of<H>(candidates: Seq<CandidateView<H>>) -> Seq<DiagnosticView>
    decreases candidates.len(),
{
    if candidates.len() == 0 {
        Seq::empty()
    } else {
        let before = diagnostics_of(candidates.drop_last());
        match diagnostic_of(candidates.last()) {
            Some(diagnostic) => before.push(diagnostic),
            None => before,
        }
    }
}

/// Turns one candidate into its entry and its diagnostic, if it gives any.
pub fn load_entry<H>(candidate: Candidate<H>) -> (r: (Option<Book<H>>, Option<Diagnostic>))
    ensures
        match r.0 {
            Some(book) => entry_of(candidate@) == Some(book@),
            None => entry_of(candidate@).is_none(),
        },
        match r.1 {
            Some(diagnostic) => diagnostic_of(candidate@) == Some(diagnostic@),
            None => diagnostic_of(candidate@).is_none(),
        },
{
    let Candidate { file_name, access } = candidate;
    let id = match record_identifier(file_name.as_str()) {
        None => {
            return (None, None);
        },
        Some(id) => id,
    };
    match access {
        Access::Contended => (None, Some(Diagnostic::LockContention { file_name })),
        Access::Held { file, text } => match read_book_from_file(text) {
            Ok(record) => (
                Some(Book { id, data: Some(record), file, description_hovered: false }),
                None,
            ),
            Err(error) => (
                Some(Book { id, data: None, file, description_hovered: false }),
                Some(Diagnostic::ReadFailure { file_name, error }),
            ),
        },
    }
}

/// Builds the catalog from the files of the data directory, each given
/// with its name and with what came of opening, locking and reading it.
///
/// Names that are no record names are passed over in silence. A contended
/// file gives no entry and a diagnostic. A held file gives an entry that
/// owns the file; where its text could not be read or decoded the entry has
/// no record and a diagnostic says why. No failure ends the load, and the
/// order of the files is kept.
pub fn load_data<H>(candidates: Vec<Candidate<H>>) -> (r: Loaded<H>)
    ensures
        book_views(r.books@) == catalog_of(candidate_views(candidates@)),
        diagnostic_views(r.diagnostics@) == diagnostics_of(candidate_views(candidates@)),
{
    let ghost all = candidate_views(candidates@);
    let mut books: Vec<Book<H>> = Vec::new();
    let mut diagnostics: Vec<Diagnostic> = Vec::new();
    for candidate in it: candidates
        invariant
            all == candidate_views(it.seq()),
            book_views(books@) == catalog_of(all.take(it.index() as int)),
            diagnostic_views(diagnostics@) == diagnostics_of(all.take(it.index() as int)),
    {
        let ghost done = it.index() as int;
        let ghost old_books = book_views(books@);
        let ghost old_diagnostics = diagnostic_views(diagnostics@);
        proof {
            assert(all.take(done + 1).drop_last() == all.take(done));
            assert(all.take(done + 1).last() == candidate@);
        }
        let (book, diagnostic) = load_entry(candidate);
        if let Some(book) = book {
            books.push(book);
            assert(book_views(books@) == old_books.push(book@));
        }
        if let Some(diagnostic) = diagnostic {
            diagnostics.push(diagnostic);
            assert(diagnostic_views(diagnostics@) == old_diagnostics.push(diagnostic@));
        }
    }
    proof {
        assert(all.take(all.len() as int) == all);
    }
    Loaded { books, diagnostics }
}

/// Sets the hover state of an entry and leaves the rest of it as it was.
pub fn set_description_hovered<H>(hovered: bool, book: &mut Book<H>)
    ensures
        final(book).description_hovered == hovered,
        final(book).id == old(book).id,
        final(book).data == old(book).data,
        final(book).file == old(book).file,
{
    book.description_hovered = hovered;
}

/// Sets the hover state of the entry at `index` and leaves every other
/// entry, and the rest of that entry, as it was.
pub fn hover_description<H>(books: &mut Vec<Book<H>>, index: usize, hovered: bool)
    requires
        index < old(books).len(),
    ensures
        final(books).len() == old(books).len(),
        final(books)[index as int].description_hovered == hovered,
        final(books)[index as int].id == old(books)[index as int].id,
        final(books)[index as int].data == old(books)[index as int].data,
        final(books)[index as int].file == old(books)[index as int].file,
        forall|i: int|
            0 <= i < old(books).len() && i != index ==> final(books)[i] == old(books)[i],
{
    set_description_hovered(hovered, &mut books[index]);
}

} // verus!
