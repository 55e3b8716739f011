use example_contracts::{Book, BookStatus, LibraryContract, LibraryError};
use soroban_sdk::testutils::{ContractFunctionSet, EnvTestConfig};
use soroban_sdk::{Address, Env, Val};

/// A contract with no functions: the ledger needs one to hang storage on.
struct Shell;

impl ContractFunctionSet for Shell {
    fn call(&self, _func: &str, _env: Env, _args: &[Val]) -> Option<Val> {
        None
    }
}

/// The catalog of one contract in a ledger of its own.
struct Client {
    env: Env,
    contract: Address,
}

impl Client {
    fn new() -> Client {
        let env = Env::new_with_config(EnvTestConfig { capture_snapshot_at_drop: false });
        let contract = env.register(Shell, ());
        Client { env, contract }
    }

    fn try_add_book(&self, title: &str, author: &str) -> Result<u32, LibraryError> {
        let mut env = self.env.clone();
        self.env.as_contract(&self.contract, || {
            LibraryContract::add_book(&mut env, title.to_string(), author.to_string())
        })
    }

    fn add_book(&self, title: &str, author: &str) -> u32 {
        self.try_add_book(title, author).unwrap()
    }

    fn get_book(&self, id: u32) -> Option<Book> {
        self.env.as_contract(&self.contract, || LibraryContract::get_book(&self.env, id))
    }

    fn next_id(&self) -> u32 {
        self.env.as_contract(&self.contract, || LibraryContract::get_next_book_id(&self.env))
    }

    fn try_change_book_status(&self, id: u32, status: BookStatus) -> Result<(), LibraryError> {
        let mut env = self.env.clone();
        self.env.as_contract(&self.contract, || {
            LibraryContract::change_book_status(&mut env, id, status)
        })
    }

    fn try_borrow_book(&self, id: u32) -> Result<(), LibraryError> {
        let mut env = self.env.clone();
        self.env.as_contract(&self.contract, || LibraryContract::borrow_book(&mut env, id))
    }

    fn borrow_book(&self, id: u32) {
        self.try_borrow_book(id).unwrap()
    }

    fn try_return_book(&self, id: u32) -> Result<(), LibraryError> {
        let mut env = self.env.clone();
        self.env.as_contract(&self.contract, || LibraryContract::return_book(&mut env, id))
    }

    fn return_book(&self, id: u32) {
        self.try_return_book(id).unwrap()
    }

    fn try_reserve_book(&self, id: u32) -> Result<(), LibraryError> {
        let mut env = self.env.clone();
        self.env.as_contract(&self.contract, || LibraryContract::reserve_book(&mut env, id))
    }

    fn reserve_book(&self, id: u32) {
        self.try_reserve_book(id).unwrap()
    }

    fn get_all_books(&self) -> Vec<Book> {
        self.env.as_contract(&self.contract, || LibraryContract::get_all_books(&self.env))
    }

    fn get_available_books(&self) -> Vec<Book> {
        self.env.as_contract(&self.contract, || LibraryContract::get_available_books(&self.env))
    }
}

fn book(id: u32, title: &str, author: &str, status: BookStatus) -> Book {
    Book { id, title: title.to_string(), author: author.to_string(), status }
}

#[test]
fn test_add_and_get_book() {
    let client = Client::new();

    let title = "El Quijote";
    let author = "Cervantes";

    let result = client.add_book(title, author);
    assert_eq!(result, 1);

    let book = client.get_book(1);
    assert!(book.is_some());

    let book = book.unwrap();
    assert_eq!(book.id, 1);
    assert_eq!(book.title, title);
    assert_eq!(book.author, author);
    assert_eq!(book.status, BookStatus::Available);
}

#[test]
fn test_borrow_book() {
    let client = Client::new();

    client.add_book("Cien Años de Soledad", "García Márquez");

    client.borrow_book(1);

    let book = client.get_book(1).unwrap();
    assert_eq!(book.status, BookStatus::Borrowed);

    let result = client.try_borrow_book(1);
    assert_eq!(result, Err(LibraryError::BookNotAvailable));
}

#[test]
fn test_invalid_book_data() {
    let client = Client::new();

    let result = client.try_add_book("", "Algún Autor");
    assert_eq!(result, Err(LibraryError::InvalidBookData));
}

#[test]
fn test_book_not_found() {
    let client = Client::new();

    let book = client.get_book(999);
    assert!(book.is_none());

    let result = client.try_borrow_book(999);
    assert_eq!(result, Err(LibraryError::BookNotFound));
}

#[test]
fn test_get_available_books() {
    let client = Client::new();

    client.add_book("Libro 1", "Autor 1");
    client.add_book("Libro 2", "Autor 2");
    client.add_book("Libro 3", "Autor 3");

    client.borrow_book(2);

    let available = client.get_available_books();
    assert_eq!(available.len(), 2);

    let book1 = available.get(0).unwrap();
    let book3 = available.get(1).unwrap();
    assert_eq!(book1.id, 1);
    assert_eq!(book3.id, 3);
}

#[test]
fn test_return_book() {
    let client = Client::new();

    client.add_book("La Casa de los Espíritus", "Isabel Allende");
    client.borrow_book(1);

    let book = client.get_book(1).unwrap();
    assert_eq!(book.status, BookStatus::Borrowed);

    client.return_book(1);

    let book = client.get_book(1).unwrap();
    assert_eq!(book.status, BookStatus::Available);

    let result = client.try_return_book(1);
    assert_eq!(result, Err(LibraryError::BookNotAvailable));
}

#[test]
fn test_reserve_book() {
    let client = Client::new();

    client.add_book("Rayuela", "Julio Cortázar");

    client.reserve_book(1);

    let book = client.get_book(1).unwrap();
    assert_eq!(book.status, BookStatus::Reserved);

    let result = client.try_reserve_book(1);
    assert_eq!(result, Err(LibraryError::BookNotAvailable));
}

#[test]
fn test_get_all_books() {
    let client = Client::new();

    let all_books = client.get_all_books();
    assert_eq!(all_books.len(), 0);

    client.add_book("Libro A", "Autor A");
    client.add_book("Libro B", "Autor B");
    client.add_book("Libro C", "Autor C");

    client.borrow_book(1);
    client.reserve_book(2);

    let all_books = client.get_all_books();
    assert_eq!(all_books.len(), 3);

    let book1 = all_books.get(0).unwrap();
    let book2 = all_books.get(1).unwrap();
    let book3 = all_books.get(2).unwrap();

    assert_eq!(book1.id, 1);
    assert_eq!(book1.status, BookStatus::Borrowed);

    assert_eq!(book2.id, 2);
    assert_eq!(book2.status, BookStatus::Reserved);

    assert_eq!(book3.id, 3);
    assert_eq!(book3.status, BookStatus::Available);
}

#[test]
fn ids_count_up_from_one() {
    let client = Client::new();
    assert_eq!(client.next_id(), 1);
    for expected in 1..=20u32 {
        assert_eq!(client.add_book("Título", "Autora"), expected);
        assert_eq!(client.next_id(), expected + 1);
    }
}

#[test]
fn refused_input_leaves_the_counter() {
    let client = Client::new();
    assert_eq!(client.add_book("A", "o1"), 1);
    assert_eq!(client.try_add_book("", "x"), Err(LibraryError::InvalidBookData));
    assert_eq!(client.try_add_book("x", ""), Err(LibraryError::InvalidBookData));
    assert_eq!(client.try_add_book("", ""), Err(LibraryError::InvalidBookData));
    assert_eq!(client.next_id(), 2);
    assert_eq!(client.get_all_books().len(), 1);
    assert_eq!(client.add_book("B", "o2"), 2);
}

#[test]
fn added_book_is_read_back_whole() {
    let client = Client::new();
    let id = client.add_book("Ficciones — «El Aleph»", "Jorge Luis Borges");
    assert_eq!(
        client.get_book(id),
        Some(book(1, "Ficciones — «El Aleph»", "Jorge Luis Borges", BookStatus::Available))
    );
}

#[test]
fn failed_loan_leaves_the_book() {
    let client = Client::new();
    client.add_book("Pedro Páramo", "Juan Rulfo");
    client.borrow_book(1);
    let before = client.get_book(1);
    assert_eq!(client.try_borrow_book(1), Err(LibraryError::BookNotAvailable));
    assert_eq!(client.get_book(1), before);
    assert_eq!(before, Some(book(1, "Pedro Páramo", "Juan Rulfo", BookStatus::Borrowed)));
}

#[test]
fn return_of_an_available_book_is_refused() {
    let client = Client::new();
    client.add_book("Rayuela", "Julio Cortázar");
    assert_eq!(client.try_return_book(1), Err(LibraryError::BookNotAvailable));
    assert_eq!(client.get_book(1).unwrap().status, BookStatus::Available);
}

#[test]
fn reserve_of_a_borrowed_book_is_refused() {
    let client = Client::new();
    client.add_book("Rayuela", "Julio Cortázar");
    client.borrow_book(1);
    assert_eq!(client.try_reserve_book(1), Err(LibraryError::BookNotAvailable));
    assert_eq!(client.get_book(1).unwrap().status, BookStatus::Borrowed);
}

#[test]
fn a_reserved_book_stays_reserved() {
    let client = Client::new();
    client.add_book("Rayuela", "Julio Cortázar");
    client.reserve_book(1);
    assert_eq!(client.try_borrow_book(1), Err(LibraryError::BookNotAvailable));
    assert_eq!(client.try_return_book(1), Err(LibraryError::BookNotAvailable));
    assert_eq!(client.try_reserve_book(1), Err(LibraryError::BookNotAvailable));
    assert_eq!(client.get_book(1).unwrap().status, BookStatus::Reserved);
    assert_eq!(client.get_available_books().len(), 0);
}

#[test]
fn every_operation_reports_a_missing_book() {
    let client = Client::new();
    client.add_book("A", "o1");
    for id in [0u32, 2, 999, u32::MAX] {
        assert_eq!(client.get_book(id), None);
        assert_eq!(client.try_borrow_book(id), Err(LibraryError::BookNotFound));
        assert_eq!(client.try_return_book(id), Err(LibraryError::BookNotFound));
        assert_eq!(client.try_reserve_book(id), Err(LibraryError::BookNotFound));
        assert_eq!(
            client.try_change_book_status(id, BookStatus::Borrowed),
            Err(LibraryError::BookNotFound)
        );
    }
    assert_eq!(client.get_all_books(), vec![book(1, "A", "o1", BookStatus::Available)]);
    assert_eq!(client.next_id(), 2);
}

#[test]
fn change_book_status_sets_any_status() {
    let client = Client::new();
    client.add_book("A", "o1");
    assert_eq!(client.try_change_book_status(1, BookStatus::Reserved), Ok(()));
    assert_eq!(client.get_book(1), Some(book(1, "A", "o1", BookStatus::Reserved)));
    assert_eq!(client.try_change_book_status(1, BookStatus::Available), Ok(()));
    assert_eq!(client.get_book(1), Some(book(1, "A", "o1", BookStatus::Available)));
    assert_eq!(client.try_change_book_status(1, BookStatus::Borrowed), Ok(()));
    assert_eq!(client.get_book(1), Some(book(1, "A", "o1", BookStatus::Borrowed)));
}

#[test]
fn lists_follow_the_catalog() {
    let client = Client::new();
    assert_eq!(client.get_all_books(), vec![]);
    assert_eq!(client.get_available_books(), vec![]);

    assert_eq!(client.add_book("A", "o1"), 1);
    assert_eq!(client.add_book("B", "o2"), 2);
    client.borrow_book(2);

    assert_eq!(client.get_available_books(), vec![book(1, "A", "o1", BookStatus::Available)]);
    assert_eq!(
        client.get_all_books(),
        vec![book(1, "A", "o1", BookStatus::Available), book(2, "B", "o2", BookStatus::Borrowed)]
    );
}

#[test]
fn available_books_are_all_books_filtered() {
    let client = Client::new();
    for n in 1..=9u32 {
        client.add_book(&format!("Libro {n}"), &format!("Autor {n}"));
    }
    client.borrow_book(2);
    client.reserve_book(3);
    client.borrow_book(5);
    client.return_book(5);
    client.borrow_book(9);

    let all = client.get_all_books();
    let available = client.get_available_books();
    assert_eq!(all.len(), 9);
    assert_eq!(all.iter().map(|b| b.id).collect::<Vec<u32>>(), (1..=9).collect::<Vec<u32>>());
    let filtered: Vec<Book> =
        all.into_iter().filter(|b| b.status == BookStatus::Available).collect();
    assert_eq!(available, filtered);
    assert_eq!(available.iter().map(|b| b.id).collect::<Vec<u32>>(), vec![1, 4, 5, 6, 7, 8]);
}

#[test]
fn status_codes_round_trip() {
    assert_eq!(BookStatus::Available.code(), 0);
    assert_eq!(BookStatus::Borrowed.code(), 1);
    assert_eq!(BookStatus::Reserved.code(), 2);
    assert_eq!(BookStatus::from_code(0), Some(BookStatus::Available));
    assert_eq!(BookStatus::from_code(1), Some(BookStatus::Borrowed));
    assert_eq!(BookStatus::from_code(2), Some(BookStatus::Reserved));
    assert_eq!(BookStatus::from_code(3), None);
    assert_eq!(BookStatus::from_code(u32::MAX), None);
}

#[test]
fn error_codes() {
    assert_eq!(LibraryError::BookNotFound.code(), 1);
    assert_eq!(LibraryError::BookNotAvailable.code(), 2);
    assert_eq!(LibraryError::InvalidBookData.code(), 3);
}
