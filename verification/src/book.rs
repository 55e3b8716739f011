//! The records of the library catalog: a book, its status and the errors of
//! the catalog's operations.

use vstd::prelude::*;

verus! {

/// Where a book stands in the lending cycle.
#[derive(Clone, Copy, Debug, PartialEq, Eq, Structural)]
pub enum BookStatus {
    /// On the shelf: it can be borrowed or reserved.
    Available,
    /// Lent out: it can only be returned.
    Borrowed,
    /// Set aside: no operation moves it on.
    Reserved,
}

/// Why an operation of the catalog was refused.
#[derive(Clone, Copy, Debug, PartialEq, Eq, PartialOrd, Ord, Structural)]
pub enum LibraryError {
    /// No book is stored under the given identifier.
    BookNotFound,
    /// The book is not in the status that the operation needs.
    BookNotAvailable,
    /// A title or an author was empty.
    InvalidBookData,
}

/// A book of the catalog.
#[derive(Clone, Debug, PartialEq, Eq)]
pub struct Book {
    /// The identifier the catalog gave the book.
    pub id: u32,
    /// The title, never empty in a book that the catalog made.
    pub title: String,
    /// The author, never empty in a book that the catalog made.
    pub author: String,
    /// The current status.
    pub status: BookStatus,
}

/// A book as a mathematical value.
pub struct BookView {
    pub id: u32,
    pub title: Seq<char>,
    pub author: Seq<char>,
    pub status: BookStatus,
}

impl View for Book {
    type V = BookView;

    open spec fn view(&self) -> BookView {
        BookView { id: self.id, title: self.title@, author: self.author@, status: self.status }
    }
}

/// The books of a list, each as a mathematical value, in the list's order.
pub open spec fn book_views(books: Seq<Book>) -> Seq<BookView> {
    books.map_values(|book: Book| book@)
}

impl BookStatus {
    /// The number that stands for a status in storage.
    pub open spec fn spec_code(self) -> u32 {
        match self {
            BookStatus::Available => 0,
            BookStatus::Borrowed => 1,
            BookStatus::Reserved => 2,
        }
    }

    /// The status that a stored number stands for.
    pub open spec fn spec_from_code(code: u32) -> BookStatus
        recommends
            code <= 2,
    {
        if code == 0 {
            BookStatus::Available
        } else if code == 1 {
            BookStatus::Borrowed
        } else {
            BookStatus::Reserved
        }
    }

    /// The number that stands for this status in storage: 0, 1 or 2.
    pub fn code(self) -> (code: u32)
        ensures
            code == self.spec_code(),
            code <= 2,
            BookStatus::spec_from_code(code) == self,
    {
        match self {
            BookStatus::Available => 0,
            BookStatus::Borrowed => 1,
            BookStatus::Reserved => 2,
        }
    }

    /// The status that `code` stands for, if it stands for one.
    pub fn from_code(code: u32) -> (status: Option<BookStatus>)
        ensures
            code <= 2 ==> status == Some(BookStatus::spec_from_code(code)),
            code > 2 ==> status is None,
            status matches Some(found) ==> found.spec_code() == code,
    {
        if code == 0 {
            Some(BookStatus::Available)
        } else if code == 1 {
            Some(BookStatus::Borrowed)
        } else if code == 2 {
            Some(BookStatus::Reserved)
        } else {
            None
        }
    }
}

impl LibraryError {
    /// The number by which a contract reports this error: 1 for a missing
    /// book, 2 for a book in the wrong status, 3 for empty input.
    pub fn code(self) -> (code: u32)
        ensures
            code == match self {
                LibraryError::BookNotFound => 1u32,
                LibraryError::BookNotAvailable => 2u32,
                LibraryError::InvalidBookData => 3u32,
            },
    {
        match self {
            LibraryError::BookNotFound => 1,
            LibraryError::BookNotAvailable => 2,
            LibraryError::InvalidBookData => 3,
        }
    }
}

} // verus!
