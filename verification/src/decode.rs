//! Decoding a parsed document into a [`BookData`].
//!
//! Every field of the record must be present under its own name and hold a
//! value of its type: a string, a boolean, an integer that fits the field,
//! or, for the keywords, an array of strings (which may be empty). Keys that
//! the record does not know are ignored.

use crate::book_data::{texts_of, BookData, BookDataView};
use crate::document::{
    table_content, table_get, text_of, value_content, value_flag, value_integer, value_items,
    value_text, Content,
};
use vstd::prelude::*;
use vstd::string::*;

verus! {

/// What is wrong with one field of a document.
#[derive(Debug, Clone, Copy, PartialEq, Eq, Structural)]
pub enum Fault {
    /// The document has no such key.
    Missing,
    /// The key holds a value of another type.
    WrongType,
    /// The key holds an integer that does not fit the field.
    OutOfRange,
}

/// The first field of a document that kept it from being a record.
#[derive(Debug, Clone)]
pub struct DecodeError {
    /// The field's key.
    pub field: String,
    pub fault: Fault,
}

/// The mathematical value of a [`DecodeError`].
pub ghost struct DecodeErrorView {
    pub field: Seq<char>,
    pub fault: Fault,
}

impl View for DecodeError {
    type V = DecodeErrorView;

    open spec fn view(&self) -> DecodeErrorView {
        DecodeErrorView { field: self.field@, fault: self.fault }
    }
}

/// A document: its top-level keys with what each holds.
pub type Document = Map<Seq<char>, Content>;

/// The string under `key`.
pub open spec fn text_field(doc: Document, key: Seq<char>) -> Result<Seq<char>, Fault> {
    if !doc.contains_key(key) {
        Err(Fault::Missing)
    } else {
        match doc[key] {
            Content::Text(s) => Ok(s),
            _ => Err(Fault::WrongType),
        }
    }
}

/// The boolean under `key`.
pub open spec fn flag_field(doc: Document, key: Seq<char>) -> Result<bool, Fault> {
    if !doc.contains_key(key) {
        Err(Fault::Missing)
    } else {
        match doc[key] {
            Content::Flag(b) => Ok(b),
            _ => Err(Fault::WrongType),
        }
    }
}

/// The integer under `key`, which must lie between 0 and `max`.
pub open spec fn number_field(doc: Document, key: Seq<char>, max: int) -> Result<int, Fault> {
    if !doc.contains_key(key) {
        Err(Fault::Missing)
    } else {
        match doc[key] {
            Content::Integer(n) => if 0 <= n <= max {
                Ok(n as int)
            } else {
                Err(Fault::OutOfRange)
            },
            _ => Err(Fault::WrongType),
        }
    }
}

/// Whether every item of an array is a string.
pub open spec fn all_text(items: Seq<Option<Seq<char>>>) -> bool {
    forall|i: int| 0 <= i < items.len() ==> (#[trigger] items[i]).is_some()
}

/// The array of strings under `key`.
pub open spec fn list_field(doc: Document, key: Seq<char>) -> Result<Seq<Seq<char>>, Fault> {
    if !doc.contains_key(key) {
        Err(Fault::Missing)
    } else {
        match doc[key] {
            Content::Items(items) => if all_text(items) {
                Ok(Seq::new(items.len(), |i: int| items[i].unwrap()))
            } else {
                Err(Fault::WrongType)
            },
            _ => Err(Fault::WrongType),
        }
    }
}

fn fail<T>(key: &str, fault: Fault) -> (r: Result<T, DecodeError>)
    ensures
        r matches Err(e) && e@ == (DecodeErrorView { field: key@, fault }),
{
    Err(DecodeError { field: key.to_owned(), fault })
}

fn read_text(table: &toml::Table, key: &str) -> (r: Result<String, DecodeError>)
    ensures
        match r {
            Ok(s) => text_field(table_content(*table), key@) == Ok::<_, Fault>(s@),
            Err(e) => e.field@ == key@ && text_field(table_content(*table), key@) == Err::<
                Seq<char>,
                _,
            >(e.fault),
        },
{
    match table_get(table, key) {
        None => fail(key, Fault::Missing),
        Some(value) => match value_text(value) {
            Some(s) => Ok(s.to_owned()),
            None => fail(key, Fault::WrongType),
        },
    }
}

fn read_flag(table: &toml::Table, key: &str) -> (r: Result<bool, DecodeError>)
    ensures
        match r {
            Ok(b) => flag_field(table_content(*table), key@) == Ok::<_, Fault>(b),
            Err(e) => e.field@ == key@ && flag_field(table_content(*table), key@) == Err::<
                bool,
                _,
            >(e.fault),
        },
{
    match table_get(table, key) {
        None => fail(key, Fault::Missing),
        Some(value) => match value_flag(value) {
            Some(b) => Ok(b),
            None => fail(key, Fault::WrongType),
        },
    }
}

fn read_number(table: &toml::Table, key: &str, max: u16) -> (r: Result<u16, DecodeError>)
    ensures
        match r {
            Ok(n) => number_field(table_content(*table), key@, max as int) == Ok::<_, Fault>(
                n as int,
            ),
            Err(e) => e.field@ == key@ && number_field(table_content(*table), key@, max as int)
                == Err::<int, _>(e.fault),
        },
{
    match table_get(table, key) {
        None => fail(key, Fault::Missing),
        Some(value) => match value_integer(value) {
            Some(n) => if 0 <= n && n <= max as i64 {
                Ok(n as u16)
            } else {
                fail(key, Fault::OutOfRange)
            },
            None => fail(key, Fault::WrongType),
        },
    }
}

fn read_list(table: &toml::Table, key: &str) -> (r: Result<Vec<String>, DecodeError>)
    ensures
        match r {
            Ok(list) => list_field(table_content(*table), key@) == Ok::<_, Fault>(
                texts_of(list@),
            ),
            Err(e) => e.field@ == key@ && list_field(table_content(*table), key@) == Err::<
                Seq<Seq<char>>,
                _,
            >(e.fault),
        },
{
    match table_get(table, key) {
        None => fail(key, Fault::Missing),
        Some(value) => match value_items(value) {
            None => fail(key, Fault::WrongType),
            Some(items) => {
                let ghost texts = Seq::new(items@.len(), |i: int| text_of(value_content(items@[i])));
                let mut list: Vec<String> = Vec::new();
                let mut i: usize = 0;
                while i < items.len()
                    invariant
                        i <= items.len(),
                        list.len() == i,
                        forall|k: int| 0 <= k < i ==> (#[trigger] texts[k]) == Some(list@[k]@),
                        texts == Seq::new(items@.len(), |i: int| text_of(value_content(items@[i]))),
                        table_content(*table).contains_key(key@),
                        table_content(*table)[key@] == Content::Items(texts),
                    decreases items.len() - i,
                {
                    assert(texts[i as int] == text_of(value_content(items@[i as int])));
                    match value_text(&items[i]) {
                        Some(s) => {
                            list.push(s.to_owned());
                        },
                        None => {
                            return fail(key, Fault::WrongType);
                        },
                    }
                    i = i + 1;
                }
                proof {
                    assert(all_text(texts));
                    assert(texts_of(list@) =~= Seq::new(texts.len(), |i: int| texts[i].unwrap()));
                }
                Ok(list)
            },
        },
    }
}

/// The first field, in the record's order, that `doc` does not provide as
/// the record needs it, with what is wrong with it; `None` if there is none.
pub open spec fn first_fault(doc: Document) -> Option<DecodeErrorView> {
    if let Err(fault) = text_field(doc, "author"@) {
        Some(DecodeErrorView { field: "author"@, fault })
    } else if let Err(fault) = text_field(doc, "title"@) {
        Some(DecodeErrorView { field: "title"@, fault })
    } else if let Err(fault) = number_field(doc, "year"@, 0xffff) {
        Some(DecodeErrorView { field: "year"@, fault })
    } else if let Err(fault) = text_field(doc, "cover"@) {
        Some(DecodeErrorView { field: "cover"@, fault })
    } else if let Err(fault) = text_field(doc, "location"@) {
        Some(DecodeErrorView { field: "location"@, fault })
    } else if let Err(fault) = number_field(doc, "condition"@, 0xff) {
        Some(DecodeErrorView { field: "condition"@, fault })
    } else if let Err(fault) = text_field(doc, "edition"@) {
        Some(DecodeErrorView { field: "edition"@, fault })
    } else if let Err(fault) = text_field(doc, "publisher"@) {
        Some(DecodeErrorView { field: "publisher"@, fault })
    } else if let Err(fault) = number_field(doc, "category"@, 0xffff) {
        Some(DecodeErrorView { field: "category"@, fault })
    } else if let Err(fault) = text_field(doc, "description"@) {
        Some(DecodeErrorView { field: "description"@, fault })
    } else if let Err(fault) = text_field(doc, "language"@) {
        Some(DecodeErrorView { field: "language"@, fault })
    } else if let Err(fault) = text_field(doc, "isbn"@) {
        Some(DecodeErrorView { field: "isbn"@, fault })
    } else if let Err(fault) = text_field(doc, "pages"@) {
        Some(DecodeErrorView { field: "pages"@, fault })
    } else if let Err(fault) = text_field(doc, "format"@) {
        Some(DecodeErrorView { field: "format"@, fault })
    } else if let Err(fault) = number_field(doc, "weight"@, 0xffff) {
        Some(DecodeErrorView { field: "weight"@, fault })
    } else if let Err(fault) = number_field(doc, "price"@, 0xffff) {
        Some(DecodeErrorView { field: "price"@, fault })
    } else if let Err(fault) = text_field(doc, "cover_url"@) {
        Some(DecodeErrorView { field: "cover_url"@, fault })
    } else if let Err(fault) = list_field(doc, "keywords"@) {
        Some(DecodeErrorView { field: "keywords"@, fault })
    } else if let Err(fault) = flag_field(doc, "new"@) {
        Some(DecodeErrorView { field: "new"@, fault })
    } else if let Err(fault) = flag_field(doc, "first_edition"@) {
        Some(DecodeErrorView { field: "first_edition"@, fault })
    } else if let Err(fault) = flag_field(doc, "signed"@) {
        Some(DecodeErrorView { field: "signed"@, fault })
    } else if let Err(fault) = flag_field(doc, "unused"@) {
        Some(DecodeErrorView { field: "unused"@, fault })
    } else if let Err(fault) = text_field(doc, "personal_notice"@) {
        Some(DecodeErrorView { field: "personal_notice"@, fault })
    } else if let Err(fault) = flag_field(doc, "unlimited"@) {
        Some(DecodeErrorView { field: "unlimited"@, fault })
    } else {
        None
    }
}

/// The record that `doc` holds, where it provides every field.
pub open spec fn record_of(doc: Document) -> BookDataView
    recommends
        first_fault(doc).is_none(),
{
    BookDataView {
        author: text_field(doc, "author"@).unwrap(),
        title: text_field(doc, "title"@).unwrap(),
        year: number_field(doc, "year"@, 0xffff).unwrap() as u16,
        cover: text_field(doc, "cover"@).unwrap(),
        location: text_field(doc, "location"@).unwrap(),
        condition: number_field(doc, "condition"@, 0xff).unwrap() as u8,
        edition: text_field(doc, "edition"@).unwrap(),
        publisher: text_field(doc, "publisher"@).unwrap(),
        category: number_field(doc, "category"@, 0xffff).unwrap() as u16,
        description: text_field(doc, "description"@).unwrap(),
        language: text_field(doc, "language"@).unwrap(),
        isbn: text_field(doc, "isbn"@).unwrap(),
        pages: text_field(doc, "pages"@).unwrap(),
        format: text_field(doc, "format"@).unwrap(),
        weight: number_field(doc, "weight"@, 0xffff).unwrap() as u16,
        price: number_field(doc, "price"@, 0xffff).unwrap() as u16,
        cover_url: text_field(doc, "cover_url"@).unwrap(),
        keywords: list_field(doc, "keywords"@).unwrap(),
        new: flag_field(doc, "new"@).unwrap(),
        first_edition: flag_field(doc, "first_edition"@).unwrap(),
        signed: flag_field(doc, "signed"@).unwrap(),
        unused: flag_field(doc, "unused"@).unwrap(),
        personal_notice: text_field(doc, "personal_notice"@).unwrap(),
        unlimited: flag_field(doc, "unlimited"@).unwrap(),
    }
}

/// What decoding `doc` gives: its record, or its first fault.
pub open spec fn decode_record(doc: Document) -> Result<BookDataView, DecodeErrorView> {
    match first_fault(doc) {
        Some(error) => Err(error),
        None => Ok(record_of(doc)),
    }
}

/// The document that holds `record`: one key for each field.
pub open spec fn document_of(record: BookDataView) -> Document {
    Map::<Seq<char>, Content>::empty()
        .insert("author"@, Content::Text(record.author))
        .insert("title"@, Content::Text(record.title))
        .insert("year"@, Content::Integer(record.year as i64))
        .insert("cover"@, Content::Text(record.cover))
        .insert("location"@, Content::Text(record.location))
        .insert("condition"@, Content::Integer(record.condition as i64))
        .insert("edition"@, Content::Text(record.edition))
        .insert("publisher"@, Content::Text(record.publisher))
        .insert("category"@, Content::Integer(record.category as i64))
        .insert("description"@, Content::Text(record.description))
        .insert("language"@, Content::Text(record.language))
        .insert("isbn"@, Content::Text(record.isbn))
        .insert("pages"@, Content::Text(record.pages))
        .insert("format"@, Content::Text(record.format))
        .insert("weight"@, Content::Integer(record.weight as i64))
        .insert("price"@, Content::Integer(record.price as i64))
        .insert("cover_url"@, Content::Text(record.cover_url))
        .insert("keywords"@, Content::Items(Seq::new(record.keywords.len(), |i: int| Some(record.keywords[i]))))
        .insert("new"@, Content::Flag(record.new))
        .insert("first_edition"@, Content::Flag(record.first_edition))
        .insert("signed"@, Content::Flag(record.signed))
        .insert("unused"@, Content::Flag(record.unused))
        .insert("personal_notice"@, Content::Text(record.personal_notice))
        .insert("unlimited"@, Content::Flag(record.unlimited))
}

/// Decodes a parsed table into a record. It succeeds exactly where the table
/// provides every field of the record with a value of the field's type;
/// otherwise it names the first field, in the record's order, that is
/// missing, of another type or out of range.
pub fn decode_table(table: &toml::Table) -> (r: Result<BookData, DecodeError>)
    ensures
        match r {
            Ok(record) => decode_record(table_content(*table)) == Ok::<_, DecodeErrorView>(
                record@,
            ),
            Err(error) => decode_record(table_content(*table)) == Err::<BookDataView, _>(
                error@,
            ),
        },
{
    let author = read_text(table, "author")?;
    let title = read_text(table, "title")?;
    let year = read_number(table, "year", 0xffff)?;
    let cover = read_text(table, "cover")?;
    let location = read_text(table, "location")?;
    let condition = read_number(table, "condition", 0xff)? as u8;
    let edition = read_text(table, "edition")?;
    let publisher = read_text(table, "publisher")?;
    let category = read_number(table, "category", 0xffff)?;
    let description = read_text(table, "description")?;
    let language = read_text(table, "language")?;
    let isbn = read_text(table, "isbn")?;
    let pages = read_text(table, "pages")?;
    let format = read_text(table, "format")?;
    let weight = read_number(table, "weight", 0xffff)?;
    let price = read_number(table, "price", 0xffff)?;
    let cover_url = read_text(table, "cover_url")?;
    let keywords = read_list(table, "keywords")?;
    let new = read_flag(table, "new")?;
    let first_edition = read_flag(table, "first_edition")?;
    let signed = read_flag(table, "signed")?;
    let unused = read_flag(table, "unused")?;
    let personal_notice = read_text(table, "personal_notice")?;
    let unlimited = read_flag(table, "unlimited")?;
    Ok(
        BookData {
            author,
            title,
            year,
            cover,
            location,
            condition,
            edition,
            publisher,
            category,
            description,
            language,
            isbn,
            pages,
            format,
            weight,
            price,
            cover_url,
            keywords,
            new,
            first_edition,
            signed,
            unused,
            personal_notice,
            unlimited,
        },
    )
}

/// Whether `key` is the key of a field of the record.
pub open spec fn is_record_key(key: Seq<char>) -> bool {
    ||| key == "author"@
    ||| key == "title"@
    ||| key == "year"@
    ||| key == "cover"@
    ||| key == "location"@
    ||| key == "condition"@
    ||| key == "edition"@
    ||| key == "publisher"@
    ||| key == "category"@
    ||| key == "description"@
    ||| key == "language"@
    ||| key == "isbn"@
    ||| key == "pages"@
    ||| key == "format"@
    ||| key == "weight"@
    ||| key == "price"@
    ||| key == "cover_url"@
    ||| key == "keywords"@
    ||| key == "new"@
    ||| key == "first_edition"@
    ||| key == "signed"@
    ||| key == "unused"@
    ||| key == "personal_notice"@
    ||| key == "unlimited"@
}

/// Keys that the record does not know are ignored: adding one to a document,
/// or changing what it holds, changes nothing of what the document decodes
/// to.
pub proof fn lemma_unknown_key_ignored(doc: Document, key: Seq<char>, content: Content)
    requires
        !is_record_key(key),
    ensures
        decode_record(doc.insert(key, content)) == decode_record(doc),
{
}

/// The length and the first three characters of a key, which tell the
/// record's keys apart.
spec fn key_mark(key: Seq<char>) -> (nat, char, char, char) {
    (key.len(), key[0], key[1], key[2])
}

/// Writing a record out as a document and decoding that document gives the
/// record back, field for field.
pub proof fn lemma_decode_document_of(record: BookDataView)
    ensures
        decode_record(document_of(record)) == Ok::<_, DecodeErrorView>(record),
{
    reveal_strlit("author");
    reveal_strlit("title");
    reveal_strlit("year");
    reveal_strlit("cover");
    reveal_strlit("location");
    reveal_strlit("condition");
    reveal_strlit("edition");
    reveal_strlit("publisher");
    reveal_strlit("category");
    reveal_strlit("description");
    reveal_strlit("language");
    reveal_strlit("isbn");
    reveal_strlit("pages");
    reveal_strlit("format");
    reveal_strlit("weight");
    reveal_strlit("price");
    reveal_strlit("cover_url");
    reveal_strlit("keywords");
    reveal_strlit("new");
    reveal_strlit("first_edition");
    reveal_strlit("signed");
    reveal_strlit("unused");
    reveal_strlit("personal_notice");
    reveal_strlit("unlimited");
    assert(key_mark("author"@) == (6nat, 'a', 'u', 't'));
    assert(key_mark("title"@) == (5nat, 't', 'i', 't'));
    assert(key_mark("year"@) == (4nat, 'y', 'e', 'a'));
    assert(key_mark("cover"@) == (5nat, 'c', 'o', 'v'));
    assert(key_mark("location"@) == (8nat, 'l', 'o', 'c'));
    assert(key_mark("condition"@) == (9nat, 'c', 'o', 'n'));
    assert(key_mark("edition"@) == (7nat, 'e', 'd', 'i'));
    assert(key_mark("publisher"@) == (9nat, 'p', 'u', 'b'));
    assert(key_mark("category"@) == (8nat, 'c', 'a', 't'));
    assert(key_mark("description"@) == (11nat, 'd', 'e', 's'));
    assert(key_mark("language"@) == (8nat, 'l', 'a', 'n'));
    assert(key_mark("isbn"@) == (4nat, 'i', 's', 'b'));
    assert(key_mark("pages"@) == (5nat, 'p', 'a', 'g'));
    assert(key_mark("format"@) == (6nat, 'f', 'o', 'r'));
    assert(key_mark("weight"@) == (6nat, 'w', 'e', 'i'));
    assert(key_mark("price"@) == (5nat, 'p', 'r', 'i'));
    assert(key_mark("cover_url"@) == (9nat, 'c', 'o', 'v'));
    assert(key_mark("keywords"@) == (8nat, 'k', 'e', 'y'));
    assert(key_mark("new"@) == (3nat, 'n', 'e', 'w'));
    assert(key_mark("first_edition"@) == (13nat, 'f', 'i', 'r'));
    assert(key_mark("signed"@) == (6nat, 's', 'i', 'g'));
    assert(key_mark("unused"@) == (6nat, 'u', 'n', 'u'));
    assert(key_mark("personal_notice"@) == (15nat, 'p', 'e', 'r'));
    assert(key_mark("unlimited"@) == (9nat, 'u', 'n', 'l'));
    let doc = document_of(record);
    let items = Seq::new(record.keywords.len(), |i: int| Some(record.keywords[i]));
    assert(all_text(items));
    assert(Seq::new(items.len(), |i: int| items[i].unwrap()) =~= record.keywords);
    assert(first_fault(doc).is_none());
    assert(record_of(doc) == record);
}

} // verus!
