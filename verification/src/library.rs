//! The library catalog as a contract: books kept in the storage behind an
//! [`Env`].
//!
//! The contract holds no state of its own.  Every entry point reads what it
//! needs from storage, decides, and writes whole records back.  What it
//! returns and what it leaves in storage is given by the spec functions of
//! [`crate::catalog`], applied to the storage as it was on entry.

use crate::book::{book_views, Book, BookStatus, BookView, LibraryError};
use crate::catalog::{
    add_keeps_consistent, add_result, after_add, after_borrow, after_reserve, after_return,
    after_status_change, all_books, available_below, available_books, book_at, books_below,
    borrow_result, consistent, counter_name, is_available, next_id, reserve_result,
    return_result, status_change_result, status_change_touches_one_book, well_typed,
};
use crate::host;
use crate::library_laws::all_books_are_counted;
use soroban_sdk::Env;
use vstd::prelude::*;

verus! {

/// The contract of the library catalog.  Its functions are the catalog's
/// entry points.
pub struct LibraryContract;

/// What every entry point of the catalog asks of its environment: a contract
/// is running, and its storage is well typed.  A contract whose storage only
/// the catalog writes meets this on every call.
pub open spec fn usable(env: Env) -> bool {
    &&& host::contract_running(env)
    &&& well_typed(host::contract_storage(env))
}

/// The counter's name is a text that the host takes as a symbol.
pub proof fn counter_name_is_symbol()
    ensures
        host::is_symbol_text(counter_name()),
{
    reveal_strlit("next_id");
}

impl LibraryContract {
    /// The identifier that the next new book gets: 1 in a catalog to which
    /// nothing was added yet.
    pub fn get_next_book_id(env: &Env) -> (next: u32)
        requires
            usable(*env),
        ensures
            next == next_id(host::contract_storage(*env)),
    {
        proof {
            counter_name_is_symbol();
        }
        match host::load_u32(env, "next_id") {
            Some(next) => next,
            None => 1,
        }
    }

    /// Adds a book with the given title and author, available for lending,
    /// and returns its identifier.  An empty title or author is refused with
    /// `InvalidBookData`, and nothing is written.
    ///
    /// The counter is a `u32`: the catalog is full once it stands at
    /// `u32::MAX`, and `requires` leaves out a book that would be added then.
    pub fn add_book(env: &mut Env, title: String, author: String) -> (added: Result<
        u32,
        LibraryError,
    >)
        requires
            usable(*old(env)),
            title@.len() > 0 && author@.len() > 0 ==> next_id(host::contract_storage(*old(env)))
                < u32::MAX,
        ensures
            added == add_result(host::contract_storage(*old(env)), title@, author@),
            host::contract_storage(*final(env)) == after_add(
                host::contract_storage(*old(env)),
                title@,
                author@,
            ),
            usable(*final(env)),
            consistent(host::contract_storage(*old(env))) ==> consistent(
                host::contract_storage(*final(env)),
            ),
    {
        if title.as_str().is_empty() || author.as_str().is_empty() {
            return Err(LibraryError::InvalidBookData);
        }
        let id: u32 = Self::get_next_book_id(env);
        proof {
            counter_name_is_symbol();
            add_keeps_consistent(host::contract_storage(*env), title@, author@);
        }
        host::store_record(
            env,
            id,
            id,
            title.as_str(),
            author.as_str(),
            BookStatus::Available.code(),
        );
        host::store_u32(env, "next_id", id + 1);
        Ok(id)
    }

    /// The book stored under `book_id`, or `None` where there is none.
    pub fn get_book(env: &Env, book_id: u32) -> (found: Option<Book>)
        requires
            usable(*env),
        ensures
            match found {
                Some(book) => book_at(host::contract_storage(*env), book_id) == Some(book@),
                None => book_at(host::contract_storage(*env), book_id) is None,
            },
    {
        match host::load_record(env, book_id) {
            Some((id, title, author, code)) => match BookStatus::from_code(code) {
                Some(status) => Some(Book { id, title, author, status }),
                None => None,
            },
            None => None,
        }
    }

    /// Gives the book under `book_id` the status `new_status`, whatever its
    /// status was, and writes the whole record back.  Where there is no such
    /// book it fails with `BookNotFound` and writes nothing.
    pub fn change_book_status(env: &mut Env, book_id: u32, new_status: BookStatus) -> (changed:
        Result<(), LibraryError>)
        requires
            usable(*old(env)),
        ensures
            changed == status_change_result(host::contract_storage(*old(env)), book_id),
            host::contract_storage(*final(env)) == after_status_change(
                host::contract_storage(*old(env)),
                book_id,
                new_status,
            ),
            usable(*final(env)),
            consistent(host::contract_storage(*old(env))) ==> consistent(
                host::contract_storage(*final(env)),
            ),
    {
        let book = match Self::get_book(env, book_id) {
            Some(book) => book,
            None => {
                return Err(LibraryError::BookNotFound);
            },
        };
        proof {
            status_change_touches_one_book(host::contract_storage(*env), book_id, new_status);
        }
        host::store_record(
            env,
            book_id,
            book.id,
            book.title.as_str(),
            book.author.as_str(),
            new_status.code(),
        );
        Ok(())
    }

    /// Lends the book under `book_id`: an available book becomes borrowed.
    /// It fails with `BookNotFound` where there is no such book, with
    /// `BookNotAvailable` where the book is not available, and then writes
    /// nothing.
    pub fn borrow_book(env: &mut Env, book_id: u32) -> (lent: Result<(), LibraryError>)
        requires
            usable(*old(env)),
        ensures
            lent == borrow_result(host::contract_storage(*old(env)), book_id),
            host::contract_storage(*final(env)) == after_borrow(
                host::contract_storage(*old(env)),
                book_id,
            ),
            usable(*final(env)),
            consistent(host::contract_storage(*old(env))) ==> consistent(
                host::contract_storage(*final(env)),
            ),
    {
        let book = match Self::get_book(env, book_id) {
            Some(book) => book,
            None => {
                return Err(LibraryError::BookNotFound);
            },
        };
        match book.status {
            BookStatus::Available => Self::change_book_status(env, book_id, BookStatus::Borrowed),
            _ => Err(LibraryError::BookNotAvailable),
        }
    }

    /// Takes the book under `book_id` back: a borrowed book becomes
    /// available.  It fails with `BookNotFound` where there is no such book,
    /// with `BookNotAvailable` where the book is not borrowed, and then
    /// writes nothing.
    pub fn return_book(env: &mut Env, book_id: u32) -> (returned: Result<(), LibraryError>)
        requires
            usable(*old(env)),
        ensures
            returned == return_result(host::contract_storage(*old(env)), book_id),
            host::contract_storage(*final(env)) == after_return(
                host::contract_storage(*old(env)),
                book_id,
            ),
            usable(*final(env)),
            consistent(host::contract_storage(*old(env))) ==> consistent(
                host::contract_storage(*final(env)),
            ),
    {
        let book = match Self::get_book(env, book_id) {
            Some(book) => book,
            None => {
                return Err(LibraryError::BookNotFound);
            },
        };
        match book.status {
            BookStatus::Borrowed => Self::change_book_status(env, book_id, BookStatus::Available),
            _ => Err(LibraryError::BookNotAvailable),
        }
    }

    /// Sets the book under `book_id` aside: an available book becomes
    /// reserved.  It fails with `BookNotFound` where there is no such book,
    /// with `BookNotAvailable` where the book is not available, and then
    /// writes nothing.
    pub fn reserve_book(env: &mut Env, book_id: u32) -> (reserved: Result<(), LibraryError>)
        requires
            usable(*old(env)),
        ensures
            reserved == reserve_result(host::contract_storage(*old(env)), book_id),
            host::contract_storage(*final(env)) == after_reserve(
                host::contract_storage(*old(env)),
                book_id,
            ),
            usable(*final(env)),
            consistent(host::contract_storage(*old(env))) ==> consistent(
                host::contract_storage(*final(env)),
            ),
    {
        let book = match Self::get_book(env, book_id) {
            Some(book) => book,
            None => {
                return Err(LibraryError::BookNotFound);
            },
        };
        match book.status {
            BookStatus::Available => Self::change_book_status(env, book_id, BookStatus::Reserved),
            _ => Err(LibraryError::BookNotAvailable),
        }
    }

    /// All books of the catalog, in ascending order of identifier: the book
    /// under each identifier from 1 up to the counter, an identifier with no
    /// book under it passed over.  In a consistent catalog these are as many
    /// books as identifiers were given out.
    pub fn get_all_books(env: &Env) -> (books: Vec<Book>)
        requires
            usable(*env),
        ensures
            book_views(books@) == all_books(host::contract_storage(*env)),
            books@.len() == all_books(host::contract_storage(*env)).len(),
            forall|i: int|
                0 <= i < books@.len() ==> (#[trigger] books@[i])@ == all_books(
                    host::contract_storage(*env),
                )[i],
            consistent(host::contract_storage(*env)) ==> books@.len() == next_id(
                host::contract_storage(*env),
            ) - 1,
    {
        let mut books: Vec<Book> = Vec::new();
        let next: u32 = Self::get_next_book_id(env);
        let mut id: u32 = 1;
        while id < next
            invariant
                usable(*env),
                next == next_id(host::contract_storage(*env)),
                1 <= id,
                id <= next || id == 1,
                book_views(books@) == books_below(host::contract_storage(*env), id as nat),
            decreases next - id,
        {
            if let Some(book) = Self::get_book(env, id) {
                books.push(book);
            }
            id = id + 1;
        }
        proof {
            if consistent(host::contract_storage(*env)) {
                all_books_are_counted(host::contract_storage(*env));
            }
        }
        books
    }

    /// The available books of the catalog, in ascending order of identifier:
    /// of all books those that are available, in the same order.
    pub fn get_available_books(env: &Env) -> (books: Vec<Book>)
        requires
            usable(*env),
        ensures
            book_views(books@) == available_books(host::contract_storage(*env)),
            books@.len() == available_books(host::contract_storage(*env)).len(),
            forall|i: int|
                0 <= i < books@.len() ==> (#[trigger] books@[i])@ == available_books(
                    host::contract_storage(*env),
                )[i],
    {
        let mut books: Vec<Book> = Vec::new();
        let next: u32 = Self::get_next_book_id(env);
        let mut id: u32 = 1;
        while id < next
            invariant
                usable(*env),
                next == next_id(host::contract_storage(*env)),
                1 <= id,
                id <= next || id == 1,
                book_views(books@) == available_below(host::contract_storage(*env), id as nat),
            decreases next - id,
        {
            if let Some(book) = Self::get_book(env, id) {
                proof {
                    books_below(host::contract_storage(*env), id as nat).lemma_filter_push(
                        book@,
                        |book: BookView| is_available(book),
                    );
                }
                if book.status == BookStatus::Available {
                    books.push(book);
                }
            }
            id = id + 1;
        }
        books
    }
}

} // verus!
