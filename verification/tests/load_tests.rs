use antiquar::book::{
    hover_description, load_data, load_entry, set_description_hovered, Access, Book, Candidate,
    Diagnostic, FileText, ReadError,
};
use antiquar::config::Config;
use antiquar::scan::{select_record_files, DirEntry, Listing};

fn record(title: &str) -> String {
    format!(
        "author = \"A\"\ntitle = \"{title}\"\nyear = 1900\ncover = \"\"\nlocation = \"\"\n\
         condition = 1\nedition = \"\"\npublisher = \"\"\ncategory = 0\ndescription = \"\"\n\
         language = \"\"\nisbn = \"\"\npages = \"\"\nformat = \"\"\nweight = 0\nprice = 0\n\
         cover_url = \"\"\nkeywords = []\nnew = false\nfirst_edition = false\nsigned = false\n\
         unused = false\npersonal_notice = \"\"\nunlimited = false\n"
    )
}

fn held(name: &str, handle: u32, text: &str) -> Candidate<u32> {
    Candidate {
        file_name: name.to_string(),
        access: Access::Held {
            file: handle,
            text: FileText { content: text.to_string(), complete: true },
        },
    }
}

fn contended(name: &str) -> Candidate<u32> {
    Candidate { file_name: name.to_string(), access: Access::Contended }
}

fn summary(books: &[Book<u32>]) -> Vec<(u32, Option<String>, u32, bool)> {
    books
        .iter()
        .map(|b| (b.id, b.data.as_ref().map(|d| d.title.clone()), b.file, b.description_hovered))
        .collect()
}

#[test]
fn empty_directory_gives_empty_catalog() {
    let loaded = load_data(Vec::<Candidate<u32>>::new());
    assert!(loaded.books.is_empty());
    assert!(loaded.diagnostics.is_empty());
}

#[test]
fn well_formed_files_give_entries_in_scan_order() {
    let loaded = load_data(vec![
        held("00042.toml", 7, &record("Second")),
        held("00001.toml", 8, &record("First")),
        held("99999.toml", 9, &record("Last")),
    ]);
    assert_eq!(
        summary(&loaded.books),
        vec![
            (42, Some("Second".to_string()), 7, false),
            (1, Some("First".to_string()), 8, false),
            (99999, Some("Last".to_string()), 9, false),
        ]
    );
    assert!(loaded.diagnostics.is_empty());
}

#[test]
fn locked_file_is_left_out_and_the_rest_is_loaded() {
    let loaded = load_data(vec![
        held("00001.toml", 1, &record("One")),
        contended("00002.toml"),
        held("00003.toml", 3, &record("Three")),
    ]);
    assert_eq!(
        summary(&loaded.books),
        vec![(1, Some("One".to_string()), 1, false), (3, Some("Three".to_string()), 3, false)]
    );
    assert_eq!(loaded.diagnostics.len(), 1);
    match &loaded.diagnostics[0] {
        Diagnostic::LockContention { file_name } => assert_eq!(file_name, "00002.toml"),
        other => panic!("expected lock contention, got {:?}", other),
    }
}

#[test]
fn invalid_content_keeps_the_entry_without_a_record() {
    let loaded = load_data(vec![
        held("00010.toml", 1, &record("Good")),
        held("00011.toml", 2, "this is = = not toml"),
    ]);
    assert!(loaded.books.len() >= 1);
    assert_eq!(
        summary(&loaded.books),
        vec![(10, Some("Good".to_string()), 1, false), (11, None, 2, false)]
    );
    assert_eq!(loaded.diagnostics.len(), 1);
    match &loaded.diagnostics[0] {
        Diagnostic::ReadFailure { file_name, error: ReadError::Syntax { content, .. } } => {
            assert_eq!(file_name, "00011.toml");
            assert_eq!(content, "this is = = not toml");
        }
        other => panic!("expected a syntax failure, got {:?}", other),
    }
}

#[test]
fn incomplete_record_and_failed_read_keep_their_entries() {
    let failed = Candidate {
        file_name: "00021.toml".to_string(),
        access: Access::Held {
            file: 21,
            text: FileText { content: "auth".to_string(), complete: false },
        },
    };
    let loaded = load_data(vec![held("00020.toml", 20, "author = \"A\"\n"), failed]);
    assert_eq!(summary(&loaded.books), vec![(20, None, 20, false), (21, None, 21, false)]);
    assert_eq!(loaded.diagnostics.len(), 2);
    assert!(matches!(
        &loaded.diagnostics[0],
        Diagnostic::ReadFailure { error: ReadError::Schema { .. }, .. }
    ));
    assert!(matches!(
        &loaded.diagnostics[1],
        Diagnostic::ReadFailure { error: ReadError::Io { .. }, .. }
    ));
}

#[test]
fn names_that_are_no_records_are_passed_over() {
    let loaded = load_data(vec![
        held("abc.toml", 1, &record("x")),
        held("1234.toml", 2, &record("x")),
        held("123456.toml", 3, &record("x")),
        held("00001.txt", 4, &record("x")),
        contended("notes.md"),
        held("00005.toml", 5, &record("Five")),
    ]);
    assert_eq!(summary(&loaded.books), vec![(5, Some("Five".to_string()), 5, false)]);
    assert!(loaded.diagnostics.is_empty());
}

#[test]
fn load_entry_decides_each_file() {
    let (book, diagnostic) = load_entry(held("00042.toml", 1, &record("T")));
    let book = book.unwrap();
    assert_eq!((book.id, book.file, book.description_hovered), (42, 1, false));
    assert_eq!(book.data.unwrap().title, "T");
    assert!(diagnostic.is_none());

    let (book, diagnostic) = load_entry(contended("00042.toml"));
    assert!(book.is_none());
    assert!(matches!(diagnostic, Some(Diagnostic::LockContention { .. })));

    let (book, diagnostic) = load_entry(contended("cover.png"));
    assert!(book.is_none());
    assert!(diagnostic.is_none());
}

#[test]
fn two_loads_of_the_same_files_agree() {
    let first = load_data(vec![
        held("00001.toml", 1, &record("One")),
        held("00002.toml", 2, "broken ="),
        held("00003.toml", 3, &record("Three")),
    ]);
    let second = load_data(vec![
        held("00003.toml", 30, &record("Three")),
        held("00001.toml", 10, &record("One")),
        held("00002.toml", 20, "broken ="),
    ]);
    let mut a: Vec<(u32, Option<String>)> =
        summary(&first.books).into_iter().map(|e| (e.0, e.1)).collect();
    let mut b: Vec<(u32, Option<String>)> =
        summary(&second.books).into_iter().map(|e| (e.0, e.1)).collect();
    a.sort();
    b.sort();
    assert_eq!(a, b);
    assert_eq!(a, vec![(1, Some("One".to_string())), (2, None), (3, Some("Three".to_string()))]);
}

#[test]
fn scanner_keeps_regular_files_with_record_names() {
    let entry = |name: &str, is_file: bool| DirEntry { file_name: name.to_string(), is_file };
    let listing = Listing::Entries(vec![
        entry("00002.toml", true),
        entry("books", false),
        entry("00003.toml", false),
        entry("abc.toml", true),
        entry("1234.toml", true),
        entry("123456.toml", true),
        entry("00001.txt", true),
        entry("00001.toml", true),
    ]);
    assert_eq!(select_record_files(&listing), vec!["00002.toml".to_string(), "00001.toml".to_string()]);
    assert!(select_record_files(&Listing::Entries(Vec::new())).is_empty());
}

#[test]
fn unavailable_directory_gives_no_files() {
    assert!(select_record_files(&Listing::Unavailable).is_empty());
}

#[test]
fn hover_state_is_set_and_cleared() {
    let mut loaded = load_data(vec![
        held("00001.toml", 1, &record("One")),
        held("00002.toml", 2, &record("Two")),
    ]);
    hover_description(&mut loaded.books, 1, true);
    assert_eq!(
        summary(&loaded.books),
        vec![(1, Some("One".to_string()), 1, false), (2, Some("Two".to_string()), 2, true)]
    );
    hover_description(&mut loaded.books, 1, false);
    hover_description(&mut loaded.books, 0, true);
    assert_eq!(
        summary(&loaded.books),
        vec![(1, Some("One".to_string()), 1, true), (2, Some("Two".to_string()), 2, false)]
    );
    let mut book = Book { id: 9, data: None, file: 0u32, description_hovered: false };
    set_description_hovered(true, &mut book);
    assert!(book.description_hovered);
    assert_eq!((book.id, book.file), (9, 0));
    assert!(book.data.is_none());
    set_description_hovered(false, &mut book);
    assert!(!book.description_hovered);
}

#[test]
fn default_data_path_follows_the_environment() {
    let config = Config::from_environment(Some("/data"), "/home/u");
    assert_eq!(config.data_path, "/data/antiquar");
    let config = Config::from_environment(None, "/home/u");
    assert_eq!(config.data_path, "/home/u/.local/share/antiquar");
}
