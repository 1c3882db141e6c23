//! Catalog loader for a personal collection of physical books.
//!
//! Every book is one file `NNNNN.toml` in a data directory. This library
//! holds the rules of loading them: which file names are records and what
//! identifier each carries, how the text of a record is decoded into a
//! [`book_data::BookData`], and how the outcomes of opening, locking and
//! reading the files are assembled into the catalog.

pub mod book;
pub mod book_data;
pub mod catalog_laws;
pub mod config;
pub mod decode;
pub mod document;
pub mod filename;
pub mod scan;
