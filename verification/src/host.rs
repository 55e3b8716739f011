//! The Soroban host, as far as this crate relies on it.
//!
//! A contract reaches the ledger through an [`Env`] handle.  Verus cannot look
//! inside one, so this module gives the handle a mathematical reading,
//! [`contract_storage`], and states what the two storage calls of the SDK,
//! `get` and `set`, do to it.  Nothing in this module is proved: it is what
//! the rest of the crate takes on trust, and the rest of the crate is proved
//! from it.
//!
//! Three things the model leaves to the host.
//!
//! - A host that runs out of budget, or that finds an entry expired, aborts
//!   the whole call and keeps nothing of it.  No contract here speaks of
//!   that: each says what holds when the call returns.
//! - The SDK writes through a shared `&Env`.  The functions here take
//!   `&mut Env` wherever the storage changes, so that a change shows in the
//!   types, and the crate never clones a handle.
//! - The host hands strings and vectors out as handles that mean something
//!   only in the host that made them.  The functions here take and return
//!   owned Rust values, and make and read the handles in the environment at
//!   hand.

use crate::todo::{task_views, Task, TaskView};
use soroban_sdk::Env;
use vstd::prelude::*;

verus! {

/// The SDK's `Env`, the handle through which a contract reaches its host.
/// Nothing inside it is visible here; [`contract_running`] and
/// [`contract_storage`] say what the crate takes it to stand for.
#[verifier::external_type_specification]
#[verifier::external_body]
pub struct ExEnv(soroban_sdk::Env);

/// The two kinds of contract storage that the crate uses.
pub enum StorageKind {
    /// Kept with the contract instance itself.
    Instance,
    /// Kept as ledger entries of their own.
    Persistent,
}

/// A key of contract storage.
pub enum StorageKey {
    /// A symbol, given by its text.
    Name(Seq<char>),
    /// An unsigned 32-bit integer.
    Id(u32),
}

/// A value of contract storage.
pub enum StorageValue {
    /// An unsigned 32-bit integer.
    Unsigned(u32),
    /// A signed 32-bit integer.
    Signed(i32),
    /// A vector of four: an unsigned 32-bit integer, two strings of valid
    /// UTF-8, and another unsigned 32-bit integer.
    Record(u32, Seq<char>, Seq<char>, u32),
    /// A vector of pairs, each a string of valid UTF-8 and a boolean.
    Tasks(Seq<TaskView>),
    /// Anything else that the host can hold.
    Other,
}

/// Whether a contract is running in `env`.  Only then is there storage to
/// read and write; outside a contract the SDK's storage calls panic.
pub uninterp spec fn contract_running(env: Env) -> bool;

/// The storage of the contract that is running in `env`: what is stored, by
/// kind of storage and key.
pub uninterp spec fn contract_storage(env: Env) -> Map<(StorageKind, StorageKey), StorageValue>;

/// The characters that a symbol may hold: ASCII letters, digits and the
/// underscore.
pub open spec fn is_symbol_char(c: char) -> bool {
    ||| 'a' <= c <= 'z'
    ||| 'A' <= c <= 'Z'
    ||| '0' <= c <= '9'
    ||| c == '_'
}

/// The texts that the host takes as a symbol: at most 32 symbol characters.
pub open spec fn is_symbol_text(text: Seq<char>) -> bool {
    &&& text.len() <= 32
    &&& forall|i: int| 0 <= i < text.len() ==> is_symbol_char(#[trigger] text[i])
}

/// The place of the symbol `name` in instance storage.
#[verifier::inline]
pub open spec fn instance_name(name: Seq<char>) -> (StorageKind, StorageKey) {
    (StorageKind::Instance, StorageKey::Name(name))
}

/// The place of the integer `id` in instance storage.
#[verifier::inline]
pub open spec fn instance_id(id: u32) -> (StorageKind, StorageKey) {
    (StorageKind::Instance, StorageKey::Id(id))
}

/// The place of the symbol `name` in persistent storage.
#[verifier::inline]
pub open spec fn persistent_name(name: Seq<char>) -> (StorageKind, StorageKey) {
    (StorageKind::Persistent, StorageKey::Name(name))
}

/// Reads the `u32` under the symbol `key` in instance storage:
/// `Instance::get::<Symbol, u32>`, with `Symbol::new` for the key.
///
/// Trusted: the call returns the stored number, or `None` where nothing is
/// stored under the key.  `Symbol::new` panics on a text that is no symbol,
/// `get` outside a contract and on a stored value that is no `u32`; `requires`
/// leaves all three out.
#[verifier::external_body]
pub(crate) fn load_u32(env: &Env, key: &str) -> (found: Option<u32>)
    requires
        contract_running(*env),
        is_symbol_text(key@),
        contract_storage(*env).contains_key(instance_name(key@)) ==> contract_storage(
            *env,
        )[instance_name(key@)] is Unsigned,
    ensures
        match found {
            Some(number) => contract_storage(*env).get(instance_name(key@)) == Some(
                StorageValue::Unsigned(number),
            ),
            None => !contract_storage(*env).contains_key(instance_name(key@)),
        },
{
    env.storage().instance().get(&soroban_sdk::Symbol::new(env, key))
}

/// Writes a `u32` under the symbol `key` in instance storage:
/// `Instance::set::<Symbol, u32>`, with `Symbol::new` for the key.
///
/// Trusted: the call puts the number under the key, in place of what was
/// there, and leaves every other entry as it was.  `Symbol::new` panics on a
/// text that is no symbol, `set` outside a contract; `requires` leaves both
/// out.
#[verifier::external_body]
pub(crate) fn store_u32(env: &mut Env, key: &str, number: u32)
    requires
        contract_running(*old(env)),
        is_symbol_text(key@),
    ensures
        contract_running(*final(env)),
        contract_storage(*final(env)) == contract_storage(*old(env)).insert(
            instance_name(key@),
            StorageValue::Unsigned(number),
        ),
{
    env.storage().instance().set(&soroban_sdk::Symbol::new(env, key), &number);
}

/// Reads the `i32` under the symbol `key` in instance storage:
/// `Instance::get::<Symbol, i32>`, with `Symbol::new` for the key.
///
/// Trusted: the call returns the stored number, or `None` where nothing is
/// stored under the key.  `Symbol::new` panics on a text that is no symbol,
/// `get` outside a contract and on a stored value that is no `i32`; `requires`
/// leaves all three out.
#[verifier::external_body]
pub(crate) fn load_i32(env: &Env, key: &str) -> (found: Option<i32>)
    requires
        contract_running(*env),
        is_symbol_text(key@),
        contract_storage(*env).contains_key(instance_name(key@)) ==> contract_storage(
            *env,
        )[instance_name(key@)] is Signed,
    ensures
        match found {
            Some(number) => contract_storage(*env).get(instance_name(key@)) == Some(
                StorageValue::Signed(number),
            ),
            None => !contract_storage(*env).contains_key(instance_name(key@)),
        },
{
    env.storage().instance().get(&soroban_sdk::Symbol::new(env, key))
}

/// Writes an `i32` under the symbol `key` in instance storage:
/// `Instance::set::<Symbol, i32>`, with `Symbol::new` for the key.
///
/// Trusted: the call puts the number under the key, in place of what was
/// there, and leaves every other entry as it was.  `Symbol::new` panics on a
/// text that is no symbol, `set` outside a contract; `requires` leaves both
/// out.
#[verifier::external_body]
pub(crate) fn store_i32(env: &mut Env, key: &str, number: i32)
    requires
        contract_running(*old(env)),
        is_symbol_text(key@),
    ensures
        contract_running(*final(env)),
        contract_storage(*final(env)) == contract_storage(*old(env)).insert(
            instance_name(key@),
            StorageValue::Signed(number),
        ),
{
    env.storage().instance().set(&soroban_sdk::Symbol::new(env, key), &number);
}

/// Reads the record under the integer `id` in instance storage:
/// `Instance::get::<u32, (u32, String, String, u32)>`, the strings being the
/// host's, each copied out with `to_string`.
///
/// Trusted: the call returns the four parts of the stored record, or `None`
/// where nothing is stored under the key.  `get` panics outside a contract
/// and on a stored value that is no such vector of four, `to_string` on a
/// string that is not UTF-8; `requires` leaves all three out.
#[verifier::external_body]
pub(crate) fn load_record(env: &Env, id: u32) -> (found: Option<(u32, String, String, u32)>)
    requires
        contract_running(*env),
        contract_storage(*env).contains_key(instance_id(id)) ==> contract_storage(
            *env,
        )[instance_id(id)] is Record,
    ensures
        match found {
            Some((number, first, second, code)) => contract_storage(*env).get(instance_id(id))
                == Some(StorageValue::Record(number, first@, second@, code)),
            None => !contract_storage(*env).contains_key(instance_id(id)),
        },
{
    let raw: Option<(u32, soroban_sdk::String, soroban_sdk::String, u32)> =
        env.storage().instance().get(&id);
    raw.map(|(number, first, second, code)| (number, first.to_string(), second.to_string(), code))
}

/// Writes a record under the integer `id` in instance storage:
/// `Instance::set::<u32, (u32, String, String, u32)>`, the strings being the
/// host's, each made with `String::from_str`.
///
/// Trusted: the call puts the record under the key, in place of what was
/// there, and leaves every other entry as it was.  `set` panics outside a
/// contract; `requires` leaves that out.
#[verifier::external_body]
pub(crate) fn store_record(
    env: &mut Env,
    id: u32,
    number: u32,
    first: &str,
    second: &str,
    code: u32,
)
    requires
        contract_running(*old(env)),
    ensures
        contract_running(*final(env)),
        contract_storage(*final(env)) == contract_storage(*old(env)).insert(
            instance_id(id),
            StorageValue::Record(number, first@, second@, code),
        ),
{
    let first = soroban_sdk::String::from_str(env, first);
    let second = soroban_sdk::String::from_str(env, second);
    env.storage().instance().set(&id, &(number, first, second, code));
}

/// Reads the task list under the symbol `key` in persistent storage:
/// `Persistent::get::<Symbol, Vec<(String, bool)>>`, the vector and the
/// strings being the host's; `Vec::iter` hands the pairs out and `to_string`
/// copies each string.
///
/// Trusted: the call returns the stored tasks in their order, or `None` where
/// nothing is stored under the key.  `Symbol::new` panics on a text that is no
/// symbol, `get` outside a contract and on a stored value that is no vector,
/// `iter` on an item that is no such pair, `to_string` on a string that is not
/// UTF-8; `requires` leaves all of them out.
#[verifier::external_body]
pub(crate) fn load_tasks(env: &Env, key: &str) -> (found: Option<Vec<Task>>)
    requires
        contract_running(*env),
        is_symbol_text(key@),
        contract_storage(*env).contains_key(persistent_name(key@)) ==> contract_storage(
            *env,
        )[persistent_name(key@)] is Tasks,
    ensures
        match found {
            Some(tasks) => contract_storage(*env).get(persistent_name(key@)) == Some(
                StorageValue::Tasks(task_views(tasks@)),
            ),
            None => !contract_storage(*env).contains_key(persistent_name(key@)),
        },
{
    let raw: Option<soroban_sdk::Vec<(soroban_sdk::String, bool)>> =
        env.storage().persistent().get(&soroban_sdk::Symbol::new(env, key));
    raw.map(
        |list|
            list.iter().map(|(text, done)| Task { description: text.to_string(), done }).collect(),
    )
}

/// Writes a task list under the symbol `key` in persistent storage:
/// `Persistent::set::<Symbol, Vec<(String, bool)>>`, the vector made with
/// `Vec::from_iter`, each string with `String::from_str`.
///
/// Trusted: the call puts the tasks, in their order, under the key, in place
/// of what was there, and leaves every other entry as it was.  `Symbol::new`
/// panics on a text that is no symbol, `set` outside a contract; `requires`
/// leaves both out.
#[verifier::external_body]
pub(crate) fn store_tasks(env: &mut Env, key: &str, tasks: &Vec<Task>)
    requires
        contract_running(*old(env)),
        is_symbol_text(key@),
    ensures
        contract_running(*final(env)),
        contract_storage(*final(env)) == contract_storage(*old(env)).insert(
            persistent_name(key@),
            StorageValue::Tasks(task_views(tasks@)),
        ),
{
    let list: soroban_sdk::Vec<(soroban_sdk::String, bool)> = soroban_sdk::Vec::from_iter(
        env,
        tasks.iter().map(
            |task| (soroban_sdk::String::from_str(env, &task.description), task.done),
        ),
    );
    env.storage().persistent().set(&soroban_sdk::Symbol::new(env, key), &list);
}

} // verus!
