use antiquar::book::{read_book_from_file, FileText, ReadError};
use antiquar::book_data::BookData;
use antiquar::decode::{decode_table, Fault};

const RECORD: &str = r#"
author = "Theodor Fontane"
title = "Effi Briest"
year = 1896
cover = "Leinen"
location = "Regal 3"
condition = 2
edition = "2. Auflage"
publisher = "F. Fontane & Co."
category = 17
description = "Roman"
language = "de"
isbn = ""
pages = "374"
format = "8°"
weight = 420
price = 65
cover_url = "https://example.org/effi.jpg"
keywords = ["Roman", "Realismus"]
new = false
first_edition = true
signed = false
unused = true
personal_notice = "Geschenk"
unlimited = false
"#;

fn complete(text: &str) -> FileText {
    FileText { content: text.to_string(), complete: true }
}

fn table(text: &str) -> toml::Table {
    toml::from_str::<toml::Table>(text).unwrap()
}

fn with_line(key: &str, line: &str) -> String {
    let mut out = String::new();
    for l in RECORD.lines() {
        if l.starts_with(&format!("{key} =")) {
            out.push_str(line);
        } else {
            out.push_str(l);
        }
        out.push('\n');
    }
    out
}

fn schema_error(text: &str) -> (String, Fault) {
    match read_book_from_file(complete(text)) {
        Err(ReadError::Schema { field, fault, content }) => {
            assert_eq!(content, text);
            (field, fault)
        }
        other => panic!("expected a schema error, got {:?}", other),
    }
}

fn sample() -> BookData {
    BookData {
        author: "Theodor Fontane".to_string(),
        title: "Effi Briest".to_string(),
        year: 1896,
        cover: "Leinen".to_string(),
        location: "Regal 3".to_string(),
        condition: 2,
        edition: "2. Auflage".to_string(),
        publisher: "F. Fontane & Co.".to_string(),
        category: 17,
        description: "Roman".to_string(),
        language: "de".to_string(),
        isbn: String::new(),
        pages: "374".to_string(),
        format: "8\u{00b0}".to_string(),
        weight: 420,
        price: 65,
        cover_url: "https://example.org/effi.jpg".to_string(),
        keywords: vec!["Roman".to_string(), "Realismus".to_string()],
        new: false,
        first_edition: true,
        signed: false,
        unused: true,
        personal_notice: "Geschenk".to_string(),
        unlimited: false,
    }
}

fn assert_same(a: &BookData, b: &BookData) {
    assert_eq!(a.author, b.author);
    assert_eq!(a.title, b.title);
    assert_eq!(a.year, b.year);
    assert_eq!(a.cover, b.cover);
    assert_eq!(a.location, b.location);
    assert_eq!(a.condition, b.condition);
    assert_eq!(a.edition, b.edition);
    assert_eq!(a.publisher, b.publisher);
    assert_eq!(a.category, b.category);
    assert_eq!(a.description, b.description);
    assert_eq!(a.language, b.language);
    assert_eq!(a.isbn, b.isbn);
    assert_eq!(a.pages, b.pages);
    assert_eq!(a.format, b.format);
    assert_eq!(a.weight, b.weight);
    assert_eq!(a.price, b.price);
    assert_eq!(a.cover_url, b.cover_url);
    assert_eq!(a.keywords, b.keywords);
    assert_eq!(a.new, b.new);
    assert_eq!(a.first_edition, b.first_edition);
    assert_eq!(a.signed, b.signed);
    assert_eq!(a.unused, b.unused);
    assert_eq!(a.personal_notice, b.personal_notice);
    assert_eq!(a.unlimited, b.unlimited);
}

fn encode(b: &BookData) -> String {
    let mut t = toml::Table::new();
    let text = |s: &String| toml::Value::String(s.clone());
    t.insert("author".to_string(), text(&b.author));
    t.insert("title".to_string(), text(&b.title));
    t.insert("year".to_string(), toml::Value::Integer(i64::from(b.year)));
    t.insert("cover".to_string(), text(&b.cover));
    t.insert("location".to_string(), text(&b.location));
    t.insert("condition".to_string(), toml::Value::Integer(i64::from(b.condition)));
    t.insert("edition".to_string(), text(&b.edition));
    t.insert("publisher".to_string(), text(&b.publisher));
    t.insert("category".to_string(), toml::Value::Integer(i64::from(b.category)));
    t.insert("description".to_string(), text(&b.description));
    t.insert("language".to_string(), text(&b.language));
    t.insert("isbn".to_string(), text(&b.isbn));
    t.insert("pages".to_string(), text(&b.pages));
    t.insert("format".to_string(), text(&b.format));
    t.insert("weight".to_string(), toml::Value::Integer(i64::from(b.weight)));
    t.insert("price".to_string(), toml::Value::Integer(i64::from(b.price)));
    t.insert("cover_url".to_string(), text(&b.cover_url));
    t.insert(
        "keywords".to_string(),
        toml::Value::Array(b.keywords.iter().map(text).collect()),
    );
    t.insert("new".to_string(), toml::Value::Boolean(b.new));
    t.insert("first_edition".to_string(), toml::Value::Boolean(b.first_edition));
    t.insert("signed".to_string(), toml::Value::Boolean(b.signed));
    t.insert("unused".to_string(), toml::Value::Boolean(b.unused));
    t.insert("personal_notice".to_string(), text(&b.personal_notice));
    t.insert("unlimited".to_string(), toml::Value::Boolean(b.unlimited));
    toml::to_string(&t).unwrap()
}

#[test]
fn decodes_a_complete_record() {
    let book = read_book_from_file(complete(RECORD)).unwrap();
    assert_same(&book, &sample());
}

#[test]
fn decode_table_reads_every_field() {
    let book = decode_table(&table(RECORD)).unwrap();
    assert_same(&book, &sample());
}

#[test]
fn encoded_record_decodes_to_itself() {
    let written = sample();
    let book = read_book_from_file(complete(&encode(&written))).unwrap();
    assert_same(&book, &written);
}

#[test]
fn encoded_record_with_extreme_values_decodes_to_itself() {
    let mut written = sample();
    written.year = u16::MAX;
    written.condition = u8::MAX;
    written.category = 0;
    written.weight = u16::MAX;
    written.price = 0;
    written.keywords = Vec::new();
    written.description = "line one\nline \"two\"\t\\ end".to_string();
    written.new = true;
    written.unlimited = true;
    let book = read_book_from_file(complete(&encode(&written))).unwrap();
    assert_same(&book, &written);
}

#[test]
fn keywords_may_be_empty() {
    let book = read_book_from_file(complete(&with_line("keywords", "keywords = []"))).unwrap();
    assert!(book.keywords.is_empty());
    assert_eq!(book.title, "Effi Briest");
}

#[test]
fn unknown_keys_are_ignored() {
    let text = format!("shelf = 4\n{RECORD}\n[extra]\nnote = \"x\"\n");
    let book = read_book_from_file(complete(&text)).unwrap();
    assert_same(&book, &sample());
}

#[test]
fn missing_field_is_reported() {
    assert_eq!(schema_error(&with_line("author", "")), ("author".to_string(), Fault::Missing));
    assert_eq!(schema_error(&with_line("year", "")), ("year".to_string(), Fault::Missing));
    assert_eq!(schema_error(&with_line("keywords", "")), ("keywords".to_string(), Fault::Missing));
    assert_eq!(schema_error(&with_line("unlimited", "")), ("unlimited".to_string(), Fault::Missing));
    assert_eq!(schema_error(""), ("author".to_string(), Fault::Missing));
}

#[test]
fn wrong_type_is_reported() {
    assert_eq!(schema_error(&with_line("title", "title = 5")), ("title".to_string(), Fault::WrongType));
    assert_eq!(
        schema_error(&with_line("year", "year = \"1896\"")),
        ("year".to_string(), Fault::WrongType)
    );
    assert_eq!(schema_error(&with_line("year", "year = 1896.0")), ("year".to_string(), Fault::WrongType));
    assert_eq!(schema_error(&with_line("pages", "pages = 374")), ("pages".to_string(), Fault::WrongType));
    assert_eq!(schema_error(&with_line("new", "new = 0")), ("new".to_string(), Fault::WrongType));
    assert_eq!(
        schema_error(&with_line("signed", "signed = \"false\"")),
        ("signed".to_string(), Fault::WrongType)
    );
    assert_eq!(
        schema_error(&with_line("edition", "edition = 1979-05-27")),
        ("edition".to_string(), Fault::WrongType)
    );
    assert_eq!(
        schema_error(&with_line("keywords", "keywords = \"Roman\"")),
        ("keywords".to_string(), Fault::WrongType)
    );
    assert_eq!(
        schema_error(&with_line("keywords", "keywords = [\"Roman\", 3]")),
        ("keywords".to_string(), Fault::WrongType)
    );
    assert_eq!(
        schema_error(&with_line("keywords", "keywords = [[\"Roman\"]]")),
        ("keywords".to_string(), Fault::WrongType)
    );
}

#[test]
fn numbers_must_fit_their_field() {
    assert_eq!(schema_error(&with_line("year", "year = 65536")), ("year".to_string(), Fault::OutOfRange));
    assert_eq!(schema_error(&with_line("year", "year = -1")), ("year".to_string(), Fault::OutOfRange));
    assert_eq!(
        schema_error(&with_line("condition", "condition = 256")),
        ("condition".to_string(), Fault::OutOfRange)
    );
    assert_eq!(
        schema_error(&with_line("weight", "weight = 9223372036854775807")),
        ("weight".to_string(), Fault::OutOfRange)
    );
    let book = read_book_from_file(complete(&with_line("year", "year = 65535"))).unwrap();
    assert_eq!(book.year, 65535);
    let book = read_book_from_file(complete(&with_line("condition", "condition = 255"))).unwrap();
    assert_eq!(book.condition, 255);
    let book = read_book_from_file(complete(&with_line("price", "price = 0"))).unwrap();
    assert_eq!(book.price, 0);
}

#[test]
fn first_fault_in_record_order_is_reported() {
    let text = with_line("title", "title = 1");
    let text = text.replace("author = \"Theodor Fontane\"\n", "");
    let text = text.replace("year = 1896", "year = 70000");
    assert_eq!(schema_error(&text), ("author".to_string(), Fault::Missing));
    let text = with_line("unlimited", "unlimited = 1").replace("price = 65", "price = -65");
    assert_eq!(schema_error(&text), ("price".to_string(), Fault::OutOfRange));
}

#[test]
fn decode_table_names_the_fault() {
    let error = decode_table(&table("author = \"A\"\ntitle = true\n")).unwrap_err();
    assert_eq!(error.field, "title");
    assert_eq!(error.fault, Fault::WrongType);
    let error = decode_table(&toml::Table::new()).unwrap_err();
    assert_eq!(error.field, "author");
    assert_eq!(error.fault, Fault::Missing);
}

#[test]
fn text_that_is_no_document_is_a_syntax_error() {
    let text = "author = \"unterminated\ntitle = ";
    match read_book_from_file(complete(text)) {
        Err(ReadError::Syntax { message, content }) => {
            assert_eq!(content, text);
            assert!(!message.is_empty());
            let expected = toml::from_str::<toml::Table>(text).unwrap_err();
            assert_eq!(message, expected.message());
        }
        other => panic!("expected a syntax error, got {:?}", other),
    }
    let twice = "year = 1\nyear = 2\n";
    assert!(matches!(read_book_from_file(complete(twice)), Err(ReadError::Syntax { .. })));
}

#[test]
fn text_that_was_not_read_to_the_end_is_an_io_error() {
    let text = FileText { content: "author = \"Th".to_string(), complete: false };
    match read_book_from_file(text) {
        Err(ReadError::Io { content }) => assert_eq!(content, "author = \"Th"),
        other => panic!("expected an I/O error, got {:?}", other),
    }
    let whole = FileText { content: RECORD.to_string(), complete: false };
    assert!(matches!(read_book_from_file(whole), Err(ReadError::Io { .. })));
}
