//! What holds of the library catalog over any run of its operations.
//!
//! The entry points of [`crate::library`] are proved to compute the spec
//! functions of [`crate::catalog`].  The laws here are stated and proved over
//! those functions, so they hold of every call that the contracts admit.

use crate::book::{BookStatus, BookView, LibraryError};
use crate::catalog::{
    add_keeps_consistent, add_result, after_add, after_borrow, after_reserve, after_return,
    after_status_change, after_transition, all_books, available_below, available_books, book_at,
    books_below, borrow_result, consistent, is_available, new_book, next_id,
    put_book_touches_one_book, reserve_result, return_result, status_change_result,
    status_change_touches_one_book, transition_result, well_typed, Entries,
};
use crate::host::{StorageKey, StorageKind, StorageValue};
use vstd::prelude::*;

verus! {

/// A title and an author that `add_book` accepts: neither is empty.
pub open spec fn accepted(input: (Seq<char>, Seq<char>)) -> bool {
    input.0.len() > 0 && input.1.len() > 0
}

/// How many of the inputs `add_book` accepts.
pub open spec fn accepted_count(inputs: Seq<(Seq<char>, Seq<char>)>) -> nat
    decreases inputs.len(),
{
    if inputs.len() == 0 {
        0
    } else {
        accepted_count(inputs.drop_last()) + if accepted(inputs.last()) {
            1nat
        } else {
            0nat
        }
    }
}

/// The storage after one call of `add_book` for each input, in order.
pub open spec fn after_adds(entries: Entries, inputs: Seq<(Seq<char>, Seq<char>)>) -> Entries
    decreases inputs.len(),
{
    if inputs.len() == 0 {
        entries
    } else {
        let before = after_adds(entries, inputs.drop_last());
        after_add(before, inputs.last().0, inputs.last().1)
    }
}

/// Storage in which nothing was stored yet.
pub open spec fn fresh() -> Entries {
    Map::<(StorageKind, StorageKey), StorageValue>::empty()
}

/// Fresh storage is consistent, its counter stands at 1 and its lists are
/// empty.
pub proof fn fresh_storage_is_consistent()
    ensures
        consistent(fresh()),
        next_id(fresh()) == 1,
        all_books(fresh()) == Seq::<BookView>::empty(),
        available_books(fresh()) == Seq::<BookView>::empty(),
{
}

/// After any run of `add_book` calls the counter stands higher by the number
/// of calls that were accepted: a refused call does not move it.  Storage
/// that was well typed or consistent before the run is so after it.
pub proof fn counter_counts_accepted_adds(entries: Entries, inputs: Seq<(Seq<char>, Seq<char>)>)
    requires
        next_id(entries) + inputs.len() <= u32::MAX,
    ensures
        next_id(after_adds(entries, inputs)) == next_id(entries) + accepted_count(inputs),
        accepted_count(inputs) <= inputs.len(),
        well_typed(entries) ==> well_typed(after_adds(entries, inputs)),
        consistent(entries) ==> consistent(after_adds(entries, inputs)),
    decreases inputs.len(),
{
    if inputs.len() > 0 {
        counter_counts_accepted_adds(entries, inputs.drop_last());
        add_keeps_consistent(
            after_adds(entries, inputs.drop_last()),
            inputs.last().0,
            inputs.last().1,
        );
    }
}

/// In a run of `add_book` calls that are all accepted, the call at position
/// `i` returns the identifier `i` above the counter at the start: identifiers
/// come in the order of the calls, with no gaps and no repeats.
pub proof fn identifiers_count_up(entries: Entries, inputs: Seq<(Seq<char>, Seq<char>)>, i: int)
    requires
        next_id(entries) + inputs.len() <= u32::MAX,
        forall|k: int| 0 <= k < inputs.len() ==> accepted(#[trigger] inputs[k]),
        0 <= i < inputs.len(),
    ensures
        add_result(after_adds(entries, inputs.take(i)), inputs[i].0, inputs[i].1) == Ok::<
            u32,
            LibraryError,
        >((next_id(entries) + i) as u32),
{
    let earlier = inputs.take(i);
    counter_counts_accepted_adds(entries, earlier);
    all_accepted_count(earlier);
}

/// A call of `add_book` that is accepted after any run of calls, accepted or
/// refused, returns the identifier above the counter at the start by the
/// number of calls that were accepted before it.
pub proof fn refused_adds_cost_no_identifier(
    entries: Entries,
    inputs: Seq<(Seq<char>, Seq<char>)>,
    title: Seq<char>,
    author: Seq<char>,
)
    requires
        next_id(entries) + inputs.len() <= u32::MAX,
        title.len() > 0,
        author.len() > 0,
    ensures
        add_result(after_adds(entries, inputs), title, author) == Ok::<u32, LibraryError>(
            (next_id(entries) + accepted_count(inputs)) as u32,
        ),
{
    counter_counts_accepted_adds(entries, inputs);
}

/// From fresh storage, a run of `add_book` calls that are all accepted
/// returns the identifiers 1, 2, 3 and so on, in the order of the calls.
pub proof fn identifiers_start_at_one(inputs: Seq<(Seq<char>, Seq<char>)>, i: int)
    requires
        inputs.len() < u32::MAX,
        forall|k: int| 0 <= k < inputs.len() ==> accepted(#[trigger] inputs[k]),
        0 <= i < inputs.len(),
    ensures
        add_result(after_adds(fresh(), inputs.take(i)), inputs[i].0, inputs[i].1) == Ok::<
            u32,
            LibraryError,
        >((i + 1) as u32),
{
    fresh_storage_is_consistent();
    identifiers_count_up(fresh(), inputs, i);
}

/// Where every input is accepted, the count of accepted inputs is the count
/// of inputs.
proof fn all_accepted_count(inputs: Seq<(Seq<char>, Seq<char>)>)
    requires
        forall|k: int| 0 <= k < inputs.len() ==> accepted(#[trigger] inputs[k]),
    ensures
        accepted_count(inputs) == inputs.len(),
    decreases inputs.len(),
{
    if inputs.len() > 0 {
        all_accepted_count(inputs.drop_last());
    }
}

/// An empty title or an empty author is refused with `InvalidBookData`, and
/// the storage, the counter with it, stays as it was.
pub proof fn empty_input_is_refused(entries: Entries, title: Seq<char>, author: Seq<char>)
    requires
        title.len() == 0 || author.len() == 0,
    ensures
        add_result(entries, title, author) == Err::<u32, LibraryError>(
            LibraryError::InvalidBookData,
        ),
        after_add(entries, title, author) == entries,
{
}

/// A book that `add_book` has stored is found again under the identifier that
/// was returned, available, with the title and the author that were given.
pub proof fn added_book_is_found(entries: Entries, title: Seq<char>, author: Seq<char>)
    requires
        title.len() > 0,
        author.len() > 0,
    ensures
        add_result(entries, title, author) == Ok::<u32, LibraryError>(next_id(entries)),
        book_at(after_add(entries, title, author), next_id(entries)) == Some(
            BookView { id: next_id(entries), title, author, status: BookStatus::Available },
        ),
{
}

/// Lending, returning and reserving never move the counter, and keep
/// well-typed or consistent storage so.
pub proof fn transition_keeps_consistent(
    entries: Entries,
    id: u32,
    from: BookStatus,
    to: BookStatus,
)
    ensures
        next_id(after_transition(entries, id, from, to)) == next_id(entries),
        well_typed(entries) ==> well_typed(after_transition(entries, id, from, to)),
        consistent(entries) ==> consistent(after_transition(entries, id, from, to)),
{
    if transition_result(entries, id, from) is Ok {
        status_change_touches_one_book(entries, id, to);
    }
}

/// Whether two books are the same but for their status.
pub open spec fn same_but_for_status(one: BookView, other: BookView) -> bool {
    one.id == other.id && one.title == other.title && one.author == other.author
}

/// Adding a book leaves every book of a consistent catalog as it is.
pub proof fn add_leaves_the_books(entries: Entries, title: Seq<char>, author: Seq<char>, id: u32)
    requires
        consistent(entries),
        next_id(entries) < u32::MAX,
        book_at(entries, id) is Some,
    ensures
        book_at(after_add(entries, title, author), id) == book_at(entries, id),
{
    if title.len() > 0 && author.len() > 0 {
        let book = new_book(entries, title, author);
        put_book_touches_one_book(entries, next_id(entries), book);
    }
}

/// No book is ever removed or rewritten but for its status: whatever book is
/// given whatever status, lent, returned or reserved, a book that is stored
/// stays stored, with its identifier, title and author as they were.
pub proof fn status_changes_keep_the_books(
    entries: Entries,
    changed: u32,
    from: BookStatus,
    to: BookStatus,
    id: u32,
)
    requires
        book_at(entries, id) is Some,
    ensures
        book_at(after_status_change(entries, changed, to), id) matches Some(book)
            && same_but_for_status(book, book_at(entries, id)->0),
        book_at(after_transition(entries, changed, from, to), id) matches Some(book)
            && same_but_for_status(book, book_at(entries, id)->0),
        changed != id ==> book_at(after_status_change(entries, changed, to), id) == book_at(
            entries,
            id,
        ),
        changed != id ==> book_at(after_transition(entries, changed, from, to), id) == book_at(
            entries,
            id,
        ),
{
    if book_at(entries, changed) is Some {
        status_change_touches_one_book(entries, changed, to);
    }
}

/// The counter never falls: lending, returning, reserving and changing a
/// status leave it, and adding a book leaves it or raises it by one.
pub proof fn counter_never_falls(
    entries: Entries,
    id: u32,
    title: Seq<char>,
    author: Seq<char>,
    status: BookStatus,
)
    requires
        next_id(entries) < u32::MAX,
    ensures
        next_id(entries) <= next_id(after_add(entries, title, author)) <= next_id(entries) + 1,
        next_id(after_status_change(entries, id, status)) == next_id(entries),
        next_id(after_borrow(entries, id)) == next_id(entries),
        next_id(after_return(entries, id)) == next_id(entries),
        next_id(after_reserve(entries, id)) == next_id(entries),
{
    add_keeps_consistent(entries, title, author);
    if book_at(entries, id) is Some {
        status_change_touches_one_book(entries, id, status);
    }
    transition_keeps_consistent(entries, id, BookStatus::Available, BookStatus::Borrowed);
    transition_keeps_consistent(entries, id, BookStatus::Borrowed, BookStatus::Available);
    transition_keeps_consistent(entries, id, BookStatus::Available, BookStatus::Reserved);
}

/// A book that was just lent cannot be lent again: the second call fails with
/// `BookNotAvailable` and leaves the storage, the book's status with it, as
/// the first call left it.
pub proof fn second_loan_is_refused(entries: Entries, id: u32)
    requires
        borrow_result(entries, id) is Ok,
    ensures
        book_at(after_borrow(entries, id), id) matches Some(book) && book.status
            == BookStatus::Borrowed,
        borrow_result(after_borrow(entries, id), id) == Err::<(), LibraryError>(
            LibraryError::BookNotAvailable,
        ),
        after_borrow(after_borrow(entries, id), id) == after_borrow(entries, id),
{
    status_change_touches_one_book(entries, id, BookStatus::Borrowed);
}

/// Returning a book that was just lent succeeds and makes it available again,
/// with its identifier, title and author as before.  In well-typed storage the
/// two calls together leave the storage exactly as it was.
pub proof fn return_undoes_loan(entries: Entries, id: u32)
    requires
        borrow_result(entries, id) is Ok,
    ensures
        return_result(after_borrow(entries, id), id) == Ok::<(), LibraryError>(()),
        book_at(after_return(after_borrow(entries, id), id), id) == book_at(entries, id),
        book_at(after_return(after_borrow(entries, id), id), id) matches Some(book)
            && book.status == BookStatus::Available,
        well_typed(entries) ==> after_return(after_borrow(entries, id), id) == entries,
{
    status_change_touches_one_book(entries, id, BookStatus::Borrowed);
    status_change_touches_one_book(after_borrow(entries, id), id, BookStatus::Available);
}

/// Returning needs a borrowed book: on an available or a reserved one it fails
/// with `BookNotAvailable` and changes nothing.
pub proof fn return_needs_a_borrowed_book(entries: Entries, id: u32)
    requires
        book_at(entries, id) matches Some(book) && book.status != BookStatus::Borrowed,
    ensures
        return_result(entries, id) == Err::<(), LibraryError>(LibraryError::BookNotAvailable),
        after_return(entries, id) == entries,
{
}

/// Reserving needs an available book: on a borrowed or a reserved one it fails
/// with `BookNotAvailable` and changes nothing.
pub proof fn reserve_needs_an_available_book(entries: Entries, id: u32)
    requires
        book_at(entries, id) matches Some(book) && book.status != BookStatus::Available,
    ensures
        reserve_result(entries, id) == Err::<(), LibraryError>(LibraryError::BookNotAvailable),
        after_reserve(entries, id) == entries,
{
}

/// Reserving an available book succeeds and leaves it reserved, with its
/// identifier, title and author as before.
pub proof fn reserve_of_an_available_book(entries: Entries, id: u32)
    requires
        book_at(entries, id) matches Some(book) && book.status == BookStatus::Available,
    ensures
        reserve_result(entries, id) == Ok::<(), LibraryError>(()),
        book_at(after_reserve(entries, id), id) == Some(
            BookView {
                id: book_at(entries, id)->0.id,
                title: book_at(entries, id)->0.title,
                author: book_at(entries, id)->0.author,
                status: BookStatus::Reserved,
            },
        ),
{
    status_change_touches_one_book(entries, id, BookStatus::Reserved);
}

/// No operation moves a reserved book on: lending, returning and reserving
/// all fail on it with `BookNotAvailable` and change nothing.
pub proof fn reserved_book_stays_reserved(entries: Entries, id: u32)
    requires
        book_at(entries, id) matches Some(book) && book.status == BookStatus::Reserved,
    ensures
        borrow_result(entries, id) == Err::<(), LibraryError>(LibraryError::BookNotAvailable),
        return_result(entries, id) == Err::<(), LibraryError>(LibraryError::BookNotAvailable),
        reserve_result(entries, id) == Err::<(), LibraryError>(LibraryError::BookNotAvailable),
        after_borrow(entries, id) == entries,
        after_return(entries, id) == entries,
        after_reserve(entries, id) == entries,
{
}

/// Where no book is stored under `id`, every operation on it fails with
/// `BookNotFound` and changes nothing.
pub proof fn missing_book_is_reported(entries: Entries, id: u32)
    requires
        book_at(entries, id) is None,
    ensures
        borrow_result(entries, id) == Err::<(), LibraryError>(LibraryError::BookNotFound),
        return_result(entries, id) == Err::<(), LibraryError>(LibraryError::BookNotFound),
        reserve_result(entries, id) == Err::<(), LibraryError>(LibraryError::BookNotFound),
        status_change_result(entries, id) == Err::<(), LibraryError>(LibraryError::BookNotFound),
        after_borrow(entries, id) == entries,
        after_return(entries, id) == entries,
        after_reserve(entries, id) == entries,
        forall|status: BookStatus| #[trigger] after_status_change(entries, id, status) == entries,
{
}

/// In consistent storage the books are those under the identifiers given out
/// so far: there is none under 0, nor under the counter or above it.
pub proof fn books_are_the_issued_identifiers(entries: Entries, id: u32)
    requires
        consistent(entries),
    ensures
        book_at(entries, id) is Some <==> 1 <= id < next_id(entries),
{
}

/// In consistent storage the books below a bound are one for each identifier:
/// the book at position `i` holds the identifier `i + 1`.
pub proof fn books_below_are_dense(entries: Entries, bound: nat)
    requires
        consistent(entries),
        bound <= next_id(entries),
    ensures
        books_below(entries, bound).len() == if bound <= 1 {
            0
        } else {
            bound - 1
        },
        forall|i: int|
            0 <= i < books_below(entries, bound).len() ==> #[trigger] books_below(
                entries,
                bound,
            )[i] == book_at(entries, (i + 1) as u32)->0,
    decreases bound,
{
    if bound > 1 {
        books_below_are_dense(entries, (bound - 1) as nat);
    }
}

/// In consistent storage `get_all_books` returns as many books as identifiers
/// were given out, in ascending order of identifier with none left out: the
/// book at position `i` is the book stored under `i + 1`.
pub proof fn all_books_are_counted(entries: Entries)
    requires
        consistent(entries),
    ensures
        all_books(entries).len() == next_id(entries) - 1,
        forall|i: int|
            0 <= i < all_books(entries).len() ==> (#[trigger] all_books(entries)[i]).id == i + 1
                && Some(all_books(entries)[i]) == book_at(entries, (i + 1) as u32),
{
    books_below_are_dense(entries, next_id(entries) as nat);
}

/// From fresh storage, `get_all_books` returns as many books as calls of
/// `add_book` were accepted.
pub proof fn all_books_count_accepted_adds(inputs: Seq<(Seq<char>, Seq<char>)>)
    requires
        inputs.len() < u32::MAX,
    ensures
        all_books(after_adds(fresh(), inputs)).len() == accepted_count(inputs),
{
    fresh_storage_is_consistent();
    counter_counts_accepted_adds(fresh(), inputs);
    all_books_are_counted(after_adds(fresh(), inputs));
}

/// `get_available_books` returns the available ones among the books that
/// `get_all_books` returns, in the same order: every book of it is available
/// and listed among all books, every available book is in it, and it is as
/// long as there are available books.
pub proof fn available_books_are_all_books_filtered(entries: Entries)
    ensures
        available_books(entries) == all_books(entries).filter(
            |book: BookView| is_available(book),
        ),
        available_books(entries).len() <= all_books(entries).len(),
        forall|i: int|
            0 <= i < available_books(entries).len() ==> is_available(
                #[trigger] available_books(entries)[i],
            ) && all_books(entries).contains(available_books(entries)[i]),
        forall|i: int|
            0 <= i < all_books(entries).len() && is_available(#[trigger] all_books(entries)[i])
                ==> available_books(entries).contains(all_books(entries)[i]),
{
    let wanted = |book: BookView| is_available(book);
    let all = all_books(entries);
    let kept = all.filter(wanted);
    all.lemma_filter_len(wanted);
    assert forall|i: int| 0 <= i < kept.len() implies is_available(#[trigger] kept[i])
        && all.contains(kept[i]) by {
        all.lemma_filter_pred(wanted, i);
        all.lemma_filter_contains_rev(wanted, kept[i]);
    }
}

/// The available books below a bound hold identifiers below the bound, in
/// strictly ascending order.
proof fn available_below_ascend(entries: Entries, bound: nat)
    requires
        consistent(entries),
        bound <= next_id(entries),
    ensures
        forall|i: int|
            0 <= i < available_below(entries, bound).len() ==> (#[trigger] available_below(
                entries,
                bound,
            )[i]).id < bound,
        forall|i: int, j: int|
            0 <= i < j < available_below(entries, bound).len() ==> (#[trigger] available_below(
                entries,
                bound,
            )[i]).id < (#[trigger] available_below(entries, bound)[j]).id,
    decreases bound,
{
    let wanted = |book: BookView| is_available(book);
    if bound > 1 {
        let before = books_below(entries, (bound - 1) as nat);
        available_below_ascend(entries, (bound - 1) as nat);
        let last = book_at(entries, (bound - 1) as u32);
        before.lemma_filter_push(last->0, wanted);
    }
}

/// In consistent storage `get_available_books` lists its books in strictly
/// ascending order of identifier, as `get_all_books` does.
pub proof fn available_books_ascend(entries: Entries)
    requires
        consistent(entries),
    ensures
        forall|i: int, j: int|
            0 <= i < j < available_books(entries).len() ==> (#[trigger] available_books(
                entries,
            )[i]).id < (#[trigger] available_books(entries)[j]).id,
{
    available_below_ascend(entries, next_id(entries) as nat);
}

} // verus!
