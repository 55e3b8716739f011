//! Verified logic of a set of small contracts for the Soroban host.
//!
//! - [`library`] is a library catalog: books are added, lent, returned,
//!   reserved and listed.  [`book`] holds its records, [`catalog`] says over
//!   the content of storage what each operation does, and [`library_laws`]
//!   what follows for runs of operations.
//! - [`calculator`] adds and multiplies, and remembers its last sum.
//! - [`age_evaluator`] sorts ages into brackets.
//! - [`primitives`] is a tour of the primitive types.
//! - [`todo`] is a task list.
//! - [`host`] is what the crate takes on trust about the SDK: the storage of
//!   a contract and the calls that read and write it.
//!
//! Every function but those of [`host`] is proved to meet its contract.

pub mod age_evaluator;
pub mod book;
pub mod calculator;
pub mod catalog;
pub mod host;
pub mod library;
pub mod library_laws;
pub mod primitives;
pub mod todo;

pub use age_evaluator::AgeEvaluatorContract;
pub use book::{Book, BookStatus, LibraryError};
pub use calculator::CalculatorContract;
pub use library::LibraryContract;
pub use primitives::PrimitivesContract;
pub use todo::{Task, TodoContract};
