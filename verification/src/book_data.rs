//! The record of one book.

use vstd::prelude::*;

verus! {

/// What is recorded of one physical book.
#[derive(Debug, Clone)]
pub struct BookData {
    pub author: String,
    pub title: String,
    pub year: u16,
    pub cover: String,
    pub location: String,
    pub condition: u8,
    pub edition: String,
    pub publisher: String,
    pub category: u16,
    pub description: String,
    pub language: String,
    pub isbn: String,
    pub pages: String,
    pub format: String,
    pub weight: u16,
    pub price: u16,
    pub cover_url: String,
    pub keywords: Vec<String>,
    pub new: bool,
    pub first_edition: bool,
    pub signed: bool,
    pub unused: bool,
    pub personal_notice: String,
    pub unlimited: bool,
}

/// The mathematical value of a [`BookData`]: texts as sequences of characters.
pub ghost struct BookDataView {
    pub author: Seq<char>,
    pub title: Seq<char>,
    pub year: u16,
    pub cover: Seq<char>,
    pub location: Seq<char>,
    pub condition: u8,
    pub edition: Seq<char>,
    pub publisher: Seq<char>,
    pub category: u16,
    pub description: Seq<char>,
    pub language: Seq<char>,
    pub isbn: Seq<char>,
    pub pages: Seq<char>,
    pub format: Seq<char>,
    pub weight: u16,
    pub price: u16,
    pub cover_url: Seq<char>,
    pub keywords: Seq<Seq<char>>,
    pub new: bool,
    pub first_edition: bool,
    pub signed: bool,
    pub unused: bool,
    pub personal_notice: Seq<char>,
    pub unlimited: bool,
}

/// The texts of a list of strings.
pub open spec fn texts_of(list: Seq<String>) -> Seq<Seq<char>> {
    Seq::new(list.len(), |i: int| list[i]@)
}

impl View for BookData {
    type V = BookDataView;

    open spec fn view(&self) -> BookDataView {
        BookDataView {
            author: self.author@,
            title: self.title@,
            year: self.year,
            cover: self.cover@,
            location: self.location@,
            condition: self.condition,
            edition: self.edition@,
            publisher: self.publisher@,
            category: self.category,
            description: self.description@,
            language: self.language@,
            isbn: self.isbn@,
            pages: self.pages@,
            format: self.format@,
            weight: self.weight,
            price: self.price,
            cover_url: self.cover_url@,
            keywords: texts_of(self.keywords@),
            new: self.new,
            first_edition: self.first_edition,
            signed: self.signed,
            unused: self.unused,
            personal_notice: self.personal_notice@,
            unlimited: self.unlimited,
        }
    }
}

} // verus!
