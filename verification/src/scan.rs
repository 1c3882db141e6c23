//! Choosing the record files among the entries of the data directory.

use crate::book_data::texts_of;
use crate::filename::{is_record_name, record_identifier};
use vstd::prelude::*;

verus! {

/// One entry directly inside the data directory.
#[derive(Debug, Clone)]
pub struct DirEntry {
    pub file_name: String,
    /// Whether the entry is a regular file.
    pub is_file: bool,
}

/// What listing the data directory gave.
#[derive(Debug, Clone)]
pub enum Listing {
    /// The directory is missing and could not be created.
    Unavailable,
    /// The entries directly inside the directory, in the order of the scan.
    Entries(Vec<DirEntry>),
}

/// Whether an entry is a record file: a regular file with a record name.
pub open spec fn is_record_file(entry: DirEntry) -> bool {
    entry.is_file && is_record_name(entry.file_name@)
}

/// The names of the record files among `entries`, in their order.
pub open spec fn record_files(entries: Seq<DirEntry>) -> Seq<Seq<char>>
    decreases entries.len(),
{
    if entries.len() == 0 {
        Seq::empty()
    } else {
        let before = record_files(entries.drop_last());
        if is_record_file(entries.last()) {
            before.push(entries.last().file_name@)
        } else {
            before
        }
    }
}

/// The names that a listing gives to the load: none where the directory is
/// unavailable.
pub open spec fn selected_files(listing: Listing) -> Seq<Seq<char>> {
    match listing {
        Listing::Unavailable => Seq::empty(),
        Listing::Entries(entries) => record_files(entries@),
    }
}

/// A name is among the record files of `entries` exactly if it is a record
/// name and the name of a regular file among them: no other name is ever
/// chosen, and no record file is left out.
pub proof fn lemma_record_files_contains(entries: Seq<DirEntry>, name: Seq<char>)
    ensures
        record_files(entries).contains(name) <==> is_record_name(name) && exists|i: int|
            0 <= i < entries.len() && (#[trigger] entries[i]).is_file && entries[i].file_name@
                == name,
    decreases entries.len(),
{
    if entries.len() > 0 {
        let front = entries.drop_last();
        let last = entries.last();
        let before = record_files(front);
        lemma_record_files_contains(front, name);
        if record_files(entries).contains(name) {
            let j = choose|j: int|
                0 <= j < record_files(entries).len() && record_files(entries)[j] == name;
            if is_record_file(last) && j == before.len() {
                assert(entries[entries.len() - 1].is_file);
            } else {
                assert(before[j] == name);
                let i = choose|i: int|
                    0 <= i < front.len() && (#[trigger] front[i]).is_file && front[i].file_name@
                        == name;
                assert(entries[i].is_file);
            }
        }
        if is_record_name(name) && exists|i: int|
            0 <= i < entries.len() && (#[trigger] entries[i]).is_file && entries[i].file_name@
                == name {
            let i = choose|i: int|
                0 <= i < entries.len() && (#[trigger] entries[i]).is_file && entries[i].file_name@
                    == name;
            if i == entries.len() - 1 {
                assert(record_files(entries)[before.len() as int] == name);
            } else {
                assert(front[i].is_file);
                let j = choose|j: int| 0 <= j < before.len() && before[j] == name;
                assert(record_files(entries)[j] == name);
            }
        }
    }
}

/// Chooses the record files of a listing: the regular files whose name is
/// five digits and `.toml`, in the order of the scan. Directories, other
/// names and an unavailable directory give nothing.
pub fn select_record_files(listing: &Listing) -> (r: Vec<String>)
    ensures
        texts_of(r@) == selected_files(*listing),
{
    let mut names: Vec<String> = Vec::new();
    match listing {
        Listing::Unavailable => {
            assert(texts_of(names@) =~= Seq::empty());
        },
        Listing::Entries(entries) => {
            let mut i: usize = 0;
            assert(texts_of(names@) =~= Seq::empty());
            while i < entries.len()
                invariant
                    i <= entries.len(),
                    texts_of(names@) == record_files(entries@.take(i as int)),
                decreases entries.len() - i,
            {
                let ghost old_names = texts_of(names@);
                proof {
                    assert(entries@.take(i + 1).drop_last() == entries@.take(i as int));
                    assert(entries@.take(i + 1).last() == entries@[i as int]);
                }
                let entry = &entries[i];
                if entry.is_file && record_identifier(entry.file_name.as_str()).is_some() {
                    names.push(entry.file_name.clone());
                    assert(texts_of(names@) =~= old_names.push(entry.file_name@));
                }
                i = i + 1;
            }
            assert(entries@.take(entries.len() as int) == entries@);
        },
    }
    names
}

} // verus!
