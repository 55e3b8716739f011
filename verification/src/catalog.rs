//! The library catalog as mathematics.
//!
//! A catalog lives in the storage of a contract: the next free identifier
//! under the symbol `next_id` in instance storage, and each book under its
//! identifier.  This module says, over the content of such storage, what the
//! catalog holds and what each of its operations returns and leaves behind.
//! [`crate::library`] holds the operations themselves, each proved to compute
//! what is said here, and [`crate::library_laws`] what follows for runs of
//! them.

use crate::book::{BookStatus, BookView, LibraryError};
use crate::host::{instance_id, instance_name, StorageKey, StorageKind, StorageValue};
use vstd::prelude::*;

verus! {

/// The content of a contract's storage.
pub type Entries = Map<(StorageKind, StorageKey), StorageValue>;

/// The text of the symbol under which the next free identifier is stored.
pub open spec fn counter_name() -> Seq<char> {
    "next_id"@
}

/// The place of the next free identifier in storage.
pub open spec fn counter_key() -> (StorageKind, StorageKey) {
    instance_name(counter_name())
}

/// The identifier that the next new book gets: the stored counter, or 1 where
/// none was stored yet.
pub open spec fn next_id(entries: Entries) -> u32 {
    match entries.get(counter_key()) {
        Some(StorageValue::Unsigned(next)) => next,
        _ => 1,
    }
}

/// The stored form of a book: its identifier, title and author, and the code
/// of its status.
pub open spec fn record_of(book: BookView) -> StorageValue {
    StorageValue::Record(book.id, book.title, book.author, book.status.spec_code())
}

/// Whether a stored value is a book: a record whose last part is the code of
/// a status.
pub open spec fn is_book_record(value: StorageValue) -> bool {
    value matches StorageValue::Record(_, _, _, code) && code <= 2
}

/// The book stored under `id`, where there is one.
pub open spec fn book_at(entries: Entries, id: u32) -> Option<BookView> {
    match entries.get(instance_id(id)) {
        Some(StorageValue::Record(number, title, author, code)) => Some(
            BookView { id: number, title, author, status: BookStatus::spec_from_code(code) },
        ),
        _ => None,
    }
}

/// Storage that the catalog can read: the counter, if stored, is a number, and
/// whatever is stored under a number is a book.
pub open spec fn well_typed(entries: Entries) -> bool {
    &&& entries.contains_key(counter_key()) ==> entries[counter_key()] is Unsigned
    &&& forall|id: u32| #[trigger]
        entries.contains_key(instance_id(id)) ==> is_book_record(entries[instance_id(id)])
}

/// Storage as the catalog leaves it: well typed, with a book under each
/// identifier from 1 up to the counter and under no other, each book holding
/// the identifier it is stored under and a title and an author that are not
/// empty.
pub open spec fn consistent(entries: Entries) -> bool {
    &&& well_typed(entries)
    &&& 1 <= next_id(entries)
    &&& forall|id: u32| #[trigger]
        entries.contains_key(instance_id(id)) <==> 1 <= id < next_id(entries)
    &&& forall|id: u32|
        1 <= id < next_id(entries) ==> (#[trigger] book_at(entries, id) matches Some(book)
            && book.id == id && book.title.len() > 0 && book.author.len() > 0)
}

/// The storage with `book` stored under `id`.
pub open spec fn put_book(entries: Entries, id: u32, book: BookView) -> Entries {
    entries.insert(instance_id(id), record_of(book))
}

/// The book that `add_book` makes of a title and an author: available, under
/// the next free identifier.
pub open spec fn new_book(entries: Entries, title: Seq<char>, author: Seq<char>) -> BookView {
    BookView { id: next_id(entries), title, author, status: BookStatus::Available }
}

/// What `add_book` returns: the identifier of the new book, or
/// `InvalidBookData` where the title or the author is empty.
pub open spec fn add_result(entries: Entries, title: Seq<char>, author: Seq<char>) -> Result<
    u32,
    LibraryError,
> {
    if title.len() == 0 || author.len() == 0 {
        Err(LibraryError::InvalidBookData)
    } else {
        Ok(next_id(entries))
    }
}

/// The storage that `add_book` leaves: unchanged where it fails, else with the
/// new book under the next free identifier and the counter one higher.
pub open spec fn after_add(entries: Entries, title: Seq<char>, author: Seq<char>) -> Entries
    recommends
        next_id(entries) < u32::MAX,
{
    if title.len() == 0 || author.len() == 0 {
        entries
    } else {
        put_book(entries, next_id(entries), new_book(entries, title, author)).insert(
            counter_key(),
            StorageValue::Unsigned((next_id(entries) + 1) as u32),
        )
    }
}

/// What `change_book_status` returns: `BookNotFound` where no book is stored
/// under `id`.
pub open spec fn status_change_result(entries: Entries, id: u32) -> Result<(), LibraryError> {
    if book_at(entries, id) is Some {
        Ok(())
    } else {
        Err(LibraryError::BookNotFound)
    }
}

/// The storage that `change_book_status` leaves: the book under `id` written
/// back whole with the new status, or nothing changed where there is no such
/// book.
pub open spec fn after_status_change(entries: Entries, id: u32, status: BookStatus) -> Entries {
    match book_at(entries, id) {
        Some(book) => put_book(
            entries,
            id,
            BookView { id: book.id, title: book.title, author: book.author, status },
        ),
        None => entries,
    }
}

/// What an operation returns that takes a book from the status `from` to
/// another: a missing book is reported first, then a book in another status.
pub open spec fn transition_result(entries: Entries, id: u32, from: BookStatus) -> Result<
    (),
    LibraryError,
> {
    match book_at(entries, id) {
        None => Err(LibraryError::BookNotFound),
        Some(book) => if book.status == from {
            Ok(())
        } else {
            Err(LibraryError::BookNotAvailable)
        },
    }
}

/// The storage that such an operation leaves: the book in the status `to`
/// where the operation succeeds, else nothing changed.
pub open spec fn after_transition(
    entries: Entries,
    id: u32,
    from: BookStatus,
    to: BookStatus,
) -> Entries {
    if transition_result(entries, id, from) is Ok {
        after_status_change(entries, id, to)
    } else {
        entries
    }
}

/// What `borrow_book` returns: it needs an available book.
pub open spec fn borrow_result(entries: Entries, id: u32) -> Result<(), LibraryError> {
    transition_result(entries, id, BookStatus::Available)
}

/// The storage that `borrow_book` leaves: an available book becomes borrowed.
pub open spec fn after_borrow(entries: Entries, id: u32) -> Entries {
    after_transition(entries, id, BookStatus::Available, BookStatus::Borrowed)
}

/// What `return_book` returns: it needs a borrowed book.
pub open spec fn return_result(entries: Entries, id: u32) -> Result<(), LibraryError> {
    transition_result(entries, id, BookStatus::Borrowed)
}

/// The storage that `return_book` leaves: a borrowed book becomes available.
pub open spec fn after_return(entries: Entries, id: u32) -> Entries {
    after_transition(entries, id, BookStatus::Borrowed, BookStatus::Available)
}

/// What `reserve_book` returns: it needs an available book.
pub open spec fn reserve_result(entries: Entries, id: u32) -> Result<(), LibraryError> {
    transition_result(entries, id, BookStatus::Available)
}

/// The storage that `reserve_book` leaves: an available book becomes
/// reserved.
pub open spec fn after_reserve(entries: Entries, id: u32) -> Entries {
    after_transition(entries, id, BookStatus::Available, BookStatus::Reserved)
}

/// The books stored under the identifiers from 1 up to, not including,
/// `bound`, in ascending order of identifier.  An identifier with no book
/// under it is passed over.
pub open spec fn books_below(entries: Entries, bound: nat) -> Seq<BookView>
    decreases bound,
{
    if bound <= 1 {
        Seq::empty()
    } else {
        let before = books_below(entries, (bound - 1) as nat);
        match book_at(entries, (bound - 1) as u32) {
            Some(book) => before.push(book),
            None => before,
        }
    }
}

/// What `get_all_books` returns: the books under the identifiers below the
/// counter.
pub open spec fn all_books(entries: Entries) -> Seq<BookView> {
    books_below(entries, next_id(entries) as nat)
}

/// Whether a book can be borrowed or reserved.
pub open spec fn is_available(book: BookView) -> bool {
    book.status == BookStatus::Available
}

/// The available books among those below `bound`, in the same order.
pub open spec fn available_below(entries: Entries, bound: nat) -> Seq<BookView> {
    books_below(entries, bound).filter(|book: BookView| is_available(book))
}

/// What `get_available_books` returns: of all books those that are available,
/// in the same order.
pub open spec fn available_books(entries: Entries) -> Seq<BookView> {
    available_below(entries, next_id(entries) as nat)
}

/// Storing a book under `id` changes what is found under `id` and nothing
/// else: the counter and the other books stay, and well-typed storage stays
/// well typed.
pub proof fn put_book_touches_one_book(entries: Entries, id: u32, book: BookView)
    ensures
        next_id(put_book(entries, id, book)) == next_id(entries),
        book_at(put_book(entries, id, book), id) == Some(book),
        forall|other: u32|
            other != id ==> #[trigger] book_at(put_book(entries, id, book), other) == book_at(
                entries,
                other,
            ),
        forall|other: u32|
            other != id ==> #[trigger] put_book(entries, id, book).contains_key(
                instance_id(other),
            ) == entries.contains_key(instance_id(other)),
        well_typed(entries) ==> well_typed(put_book(entries, id, book)),
{
}

/// `add_book` keeps well-typed storage well typed and consistent storage
/// consistent, and raises the counter by one exactly when it accepts its
/// input.
pub proof fn add_keeps_consistent(entries: Entries, title: Seq<char>, author: Seq<char>)
    requires
        next_id(entries) < u32::MAX,
    ensures
        next_id(after_add(entries, title, author)) == next_id(entries) + if title.len() > 0
            && author.len() > 0 {
            1int
        } else {
            0int
        },
        well_typed(entries) ==> well_typed(after_add(entries, title, author)),
        consistent(entries) ==> consistent(after_add(entries, title, author)),
{
    if title.len() > 0 && author.len() > 0 {
        let id = next_id(entries);
        let book = new_book(entries, title, author);
        let stored = put_book(entries, id, book);
        let after = after_add(entries, title, author);
        put_book_touches_one_book(entries, id, book);
        if consistent(entries) {
            assert forall|other: u32| 1 <= other < next_id(after) implies (#[trigger] book_at(
                after,
                other,
            ) matches Some(found) && found.id == other && found.title.len() > 0
                && found.author.len() > 0) by {
                if other != id {
                    assert(book_at(stored, other) == book_at(entries, other));
                }
            }
        }
    }
}

/// Changing the status of a book rewrites that book and nothing else: the
/// counter and the other books stay, the book keeps its identifier, title and
/// author, and well-typed or consistent storage stays so.
pub proof fn status_change_touches_one_book(entries: Entries, id: u32, status: BookStatus)
    requires
        book_at(entries, id) is Some,
    ensures
        status_change_result(entries, id) == Ok::<(), LibraryError>(()),
        next_id(after_status_change(entries, id, status)) == next_id(entries),
        book_at(after_status_change(entries, id, status), id) == Some(
            BookView {
                id: book_at(entries, id)->0.id,
                title: book_at(entries, id)->0.title,
                author: book_at(entries, id)->0.author,
                status,
            },
        ),
        forall|other: u32|
            other != id ==> #[trigger] book_at(after_status_change(entries, id, status), other)
                == book_at(entries, other),
        forall|other: u32| #[trigger]
            after_status_change(entries, id, status).contains_key(instance_id(other))
                == entries.contains_key(instance_id(other)),
        well_typed(entries) ==> well_typed(after_status_change(entries, id, status)),
        consistent(entries) ==> consistent(after_status_change(entries, id, status)),
{
    let book = book_at(entries, id)->0;
    let changed = BookView { id: book.id, title: book.title, author: book.author, status };
    put_book_touches_one_book(entries, id, changed);
}

} // verus!
