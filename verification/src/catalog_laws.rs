//! What holds of every catalog that a load builds.

use crate::book::{catalog_of, entry_of, read_outcome, BookView, CandidateView};
use crate::book_data::BookDataView;
use crate::filename::{identifier_of, is_record_name};
use vstd::multiset::Multiset;
use vstd::prelude::*;

verus! {

/// Loading two lists of files one after the other gives the catalog of the
/// first followed by the catalog of the second.
pub proof fn lemma_catalog_of_concat<H>(a: Seq<CandidateView<H>>, b: Seq<CandidateView<H>>)
    ensures
        catalog_of(a + b) == catalog_of(a) + catalog_of(b),
    decreases b.len(),
{
    if b.len() == 0 {
        assert(a + b == a);
        assert(catalog_of(a) + catalog_of(b) == catalog_of(a));
    } else {
        lemma_catalog_of_concat(a, b.drop_last());
        assert((a + b).drop_last() == a + b.drop_last());
        assert((a + b).last() == b.last());
        match entry_of(b.last()) {
            Some(book) => {
                assert((catalog_of(a) + catalog_of(b.drop_last())).push(book) == catalog_of(a)
                    + catalog_of(b.drop_last()).push(book));
            },
            None => {},
        }
    }
}

/// An entry is in the catalog exactly if one of the files gives it. So every
/// entry stands for a held file with a record name and carries the number
/// written in that name, and every such file has its entry, whether or not
/// its text could be decoded.
pub proof fn lemma_catalog_of_contains<H>(candidates: Seq<CandidateView<H>>, book: BookView<H>)
    ensures
        catalog_of(candidates).contains(book) <==> exists|i: int|
            0 <= i < candidates.len() && entry_of(#[trigger] candidates[i]) == Some(book),
    decreases candidates.len(),
{
    if candidates.len() > 0 {
        let front = candidates.drop_last();
        let before = catalog_of(front);
        let catalog = catalog_of(candidates);
        lemma_catalog_of_contains(front, book);
        if catalog.contains(book) {
            let j = choose|j: int| 0 <= j < catalog.len() && catalog[j] == book;
            if entry_of(candidates.last()).is_some() && j == before.len() {
                assert(entry_of(candidates[candidates.len() - 1]) == Some(book));
            } else {
                assert(before[j] == book);
                let i = choose|i: int|
                    0 <= i < front.len() && entry_of(#[trigger] front[i]) == Some(book);
                assert(entry_of(candidates[i]) == Some(book));
            }
        }
        if exists|i: int|
            0 <= i < candidates.len() && entry_of(#[trigger] candidates[i]) == Some(book) {
            let i = choose|i: int|
                0 <= i < candidates.len() && entry_of(#[trigger] candidates[i]) == Some(book);
            if i == candidates.len() - 1 {
                assert(catalog[before.len() as int] == book);
            } else {
                assert(entry_of(front[i]) == Some(book));
                let j = choose|j: int| 0 <= j < before.len() && before[j] == book;
                assert(catalog[j] == book);
            }
        }
    }
}

/// Every entry of a catalog carries an identifier of at most five digits
/// and starts with the hover state off.
pub proof fn lemma_catalog_entries_fresh<H>(candidates: Seq<CandidateView<H>>, j: int)
    requires
        0 <= j < catalog_of(candidates).len(),
    ensures
        catalog_of(candidates)[j].id <= 99999,
        !catalog_of(candidates)[j].description_hovered,
{
    let book = catalog_of(candidates)[j];
    lemma_catalog_of_contains(candidates, book);
    let i = choose|i: int|
        0 <= i < candidates.len() && entry_of(#[trigger] candidates[i]) == Some(book);
    crate::filename::lemma_identifier_bound(
        candidates[i].file_name,
        crate::filename::record_extension(),
    );
}

/// A file that is locked by another holder, or whose name is no record
/// name, gives no entry, and the catalog is the one that the other files
/// give without it.
pub proof fn lemma_skipped_file_left_out<H>(candidates: Seq<CandidateView<H>>, i: int)
    requires
        0 <= i < candidates.len(),
        candidates[i].held.is_none() || !is_record_name(candidates[i].file_name),
    ensures
        catalog_of(candidates) == catalog_of(candidates.remove(i)),
{
    let a = candidates.subrange(0, i);
    let b = candidates.subrange(i + 1, candidates.len() as int);
    let one = seq![candidates[i]];
    assert(candidates == a + one + b);
    assert(one.drop_last() == Seq::<CandidateView<H>>::empty());
    assert(catalog_of(one) == Seq::<BookView<H>>::empty()) by {
        reveal_with_fuel(catalog_of, 2);
    }
    lemma_catalog_of_concat(a, one);
    lemma_catalog_of_concat(a + one, b);
    lemma_catalog_of_concat(a, b);
    assert(catalog_of(a) + Seq::<BookView<H>>::empty() == catalog_of(a));
}

/// A held file with a record name has an entry in the catalog, with the
/// number written in its name and the file itself; the entry has the record
/// exactly where the text read decodes. So a file that cannot be decoded
/// neither ends the load nor hides the files beside it.
pub proof fn lemma_held_file_has_entry<H>(candidates: Seq<CandidateView<H>>, i: int)
    requires
        0 <= i < candidates.len(),
        is_record_name(candidates[i].file_name),
        candidates[i].held.is_some(),
    ensures
        catalog_of(candidates).len() >= 1,
        exists|j: int|
            0 <= j < catalog_of(candidates).len() && (#[trigger] catalog_of(candidates)[j]).id
                == identifier_of(candidates[i].file_name) && catalog_of(candidates)[j].file
                == candidates[i].held.unwrap().0 && catalog_of(candidates)[j].data.is_some()
                == read_outcome(
                candidates[i].held.unwrap().1,
                candidates[i].held.unwrap().2,
            ).is_ok(),
{
    let book = entry_of(candidates[i]).unwrap();
    lemma_catalog_of_contains(candidates, book);
    let j = choose|j: int|
        0 <= j < catalog_of(candidates).len() && catalog_of(candidates)[j] == book;
    crate::filename::lemma_identifier_bound(
        candidates[i].file_name,
        crate::filename::record_extension(),
    );
    assert(catalog_of(candidates)[j].id == identifier_of(candidates[i].file_name));
}

/// What a file holds on disk, whoever has opened it: its name, and, where
/// it is held, the text read and whether the text is complete.
pub open spec fn source_of<H>(candidate: CandidateView<H>) -> (
    Seq<char>,
    Option<(Seq<char>, bool)>,
) {
    (
        candidate.file_name,
        match candidate.held {
            Some((_, content, complete)) => Some((content, complete)),
            None => None,
        },
    )
}

/// What the files of a list hold on disk.
pub open spec fn sources_of<H>(candidates: Seq<CandidateView<H>>) -> Seq<
    (Seq<char>, Option<(Seq<char>, bool)>),
> {
    Seq::new(candidates.len(), |i: int| source_of(candidates[i]))
}

/// The identifier and the record of each entry of a catalog.
pub open spec fn records_of<H>(catalog: Seq<BookView<H>>) -> Seq<(u32, Option<BookDataView>)> {
    Seq::new(catalog.len(), |i: int| (catalog[i].id, catalog[i].data))
}

/// The identifier and the record that a file gives by what it holds on disk.
pub open spec fn record_of_source(source: (Seq<char>, Option<(Seq<char>, bool)>)) -> Option<
    (u32, Option<BookDataView>),
> {
    if !is_record_name(source.0) {
        None
    } else {
        match source.1 {
            None => None,
            Some((content, complete)) => Some(
                (
                    identifier_of(source.0) as u32,
                    match read_outcome(content, complete) {
                        Ok(record) => Some(record),
                        Err(_) => None,
                    },
                ),
            ),
        }
    }
}

/// The identifiers and records that a list of files gives, without their
/// order.
pub open spec fn loaded_records(sources: Seq<(Seq<char>, Option<(Seq<char>, bool)>)>) -> Multiset<
    (u32, Option<BookDataView>),
>
    decreases sources.len(),
{
    if sources.len() == 0 {
        Multiset::empty()
    } else {
        let before = loaded_records(sources.drop_last());
        match record_of_source(sources.last()) {
            Some(record) => before.insert(record),
            None => before,
        }
    }
}

proof fn lemma_records_of_catalog<H>(candidates: Seq<CandidateView<H>>)
    ensures
        records_of(catalog_of(candidates)).to_multiset() == loaded_records(sources_of(candidates)),
    decreases candidates.len(),
{
    broadcast use vstd::seq_lib::to_multiset_build;

    if candidates.len() == 0 {
        assert(records_of(catalog_of(candidates)) == Seq::<(u32, Option<BookDataView>)>::empty());
        assert(sources_of(candidates) == Seq::<(Seq<char>, Option<(Seq<char>, bool)>)>::empty());
        Seq::<(u32, Option<BookDataView>)>::empty().to_multiset_ensures();
        assert(records_of(catalog_of(candidates)).to_multiset() =~= Multiset::empty());
    } else {
        let front = candidates.drop_last();
        lemma_records_of_catalog(front);
        assert(sources_of(candidates).drop_last() == sources_of(front));
        assert(sources_of(candidates).last() == source_of(candidates.last()));
        match entry_of(candidates.last()) {
            Some(book) => {
                assert(record_of_source(source_of(candidates.last())) == Some(
                    (book.id, book.data),
                ));
                assert(records_of(catalog_of(front).push(book)) == records_of(
                    catalog_of(front),
                ).push((book.id, book.data)));
            },
            None => {
                assert(record_of_source(source_of(candidates.last())).is_none());
            },
        }
    }
}

proof fn lemma_loaded_records_remove(
    sources: Seq<(Seq<char>, Option<(Seq<char>, bool)>)>,
    i: int,
)
    requires
        0 <= i < sources.len(),
    ensures
        loaded_records(sources) == match record_of_source(sources[i]) {
            Some(record) => loaded_records(sources.remove(i)).insert(record),
            None => loaded_records(sources.remove(i)),
        },
    decreases sources.len(),
{
    if i == sources.len() - 1 {
        assert(sources.remove(i) == sources.drop_last());
    } else {
        lemma_loaded_records_remove(sources.drop_last(), i);
        assert(sources.remove(i).drop_last() == sources.drop_last().remove(i));
        assert(sources.remove(i).last() == sources.last());
        assert(sources.drop_last()[i] == sources[i]);
        let rest = loaded_records(sources.drop_last().remove(i));
        match (record_of_source(sources[i]), record_of_source(sources.last())) {
            (Some(x), Some(y)) => {
                assert(rest.insert(x).insert(y) =~= rest.insert(y).insert(x));
            },
            _ => {},
        }
    }
}

proof fn lemma_loaded_records_unordered(
    a: Seq<(Seq<char>, Option<(Seq<char>, bool)>)>,
    b: Seq<(Seq<char>, Option<(Seq<char>, bool)>)>,
)
    requires
        a.to_multiset() == b.to_multiset(),
    ensures
        loaded_records(a) == loaded_records(b),
    decreases a.len(),
{
    broadcast use {
        vstd::seq_lib::to_multiset_len,
        vstd::seq_lib::to_multiset_contains,
        vstd::seq_lib::to_multiset_remove,
    };

    assert(a.len() == b.len()) by {
        assert(a.len() == a.to_multiset().len());
        assert(b.len() == b.to_multiset().len());
    }
    if a.len() > 0 {
        let x = a.last();
        let last = a.len() - 1;
        assert(a.contains(x)) by {
            assert(a[last] == x);
        }
        assert(a.to_multiset().count(x) > 0);
        assert(b.to_multiset().count(x) > 0);
        assert(b.contains(x));
        let j = choose|j: int| 0 <= j < b.len() && b[j] == x;
        assert(a.remove(last).to_multiset() == a.to_multiset().remove(x));
        assert(b.remove(j).to_multiset() == b.to_multiset().remove(x));
        lemma_loaded_records_unordered(a.remove(last), b.remove(j));
        lemma_loaded_records_remove(a, last);
        lemma_loaded_records_remove(b, j);
    }
}

/// Two loads of the same directory give the same books, whatever the order
/// of the scan and whichever handles hold the files: where two lists of
/// files hold the same names and texts, up to order, their catalogs hold the
/// same identifiers and records, up to order.
pub proof fn lemma_catalog_of_same_files<H, G>(
    a: Seq<CandidateView<H>>,
    b: Seq<CandidateView<G>>,
)
    requires
        sources_of(a).to_multiset() == sources_of(b).to_multiset(),
    ensures
        records_of(catalog_of(a)).to_multiset() == records_of(catalog_of(b)).to_multiset(),
{
    lemma_records_of_catalog(a);
    lemma_records_of_catalog(b);
    lemma_loaded_records_unordered(sources_of(a), sources_of(b));
}

} // verus!
