//! A calculator that remembers its last sum in the contract's storage.

use crate::host;
use crate::host::{instance_name, StorageKey, StorageKind, StorageValue};
use soroban_sdk::Env;
use vstd::prelude::*;

verus! {

/// The contract of the calculator.
pub struct CalculatorContract;

/// The text of the symbol under which the last sum is stored.
pub open spec fn last_sum_name() -> Seq<char> {
    "last_calc"@
}

/// The key under which the last sum is stored.
pub open spec fn last_sum_key() -> (StorageKind, StorageKey) {
    instance_name(last_sum_name())
}

/// The last sum that was stored, or 0 where none was stored yet.
pub open spec fn last_sum(entries: Map<(StorageKind, StorageKey), StorageValue>) -> i32 {
    match entries.get(last_sum_key()) {
        Some(StorageValue::Signed(sum)) => sum,
        _ => 0,
    }
}

/// What the calculator asks of its environment: a contract is running, and
/// what is stored as the last sum, if anything, is a signed number.
pub open spec fn usable(env: Env) -> bool {
    &&& host::contract_running(env)
    &&& host::contract_storage(env).contains_key(last_sum_key()) ==> host::contract_storage(
        env,
    )[last_sum_key()] is Signed
}

/// The name of the last sum is a text that the host takes as a symbol.
pub proof fn last_sum_name_is_symbol()
    ensures
        host::is_symbol_text(last_sum_name()),
{
    reveal_strlit("last_calc");
}

impl CalculatorContract {
    /// The calculator's greeting.
    pub fn greet() -> (greeting: &'static str)
        ensures
            greeting@ == "Hello Soroban!"@,
    {
        "Hello Soroban!"
    }

    /// The sum of `a` and `b`, where an `i32` holds it.
    pub fn add(a: i32, b: i32) -> (sum: i32)
        requires
            i32::MIN <= a + b <= i32::MAX,
        ensures
            sum == a + b,
    {
        a + b
    }

    /// The product of `a` and `b`, where an `i32` holds it.
    pub fn multiply(a: i32, b: i32) -> (product: i32)
        requires
            i32::MIN <= a * b <= i32::MAX,
        ensures
            product == a * b,
    {
        a * b
    }

    /// Adds `a` and `b`, stores the sum as the last sum and returns it.
    pub fn calculate_and_store(env: &mut Env, a: i32, b: i32) -> (sum: i32)
        requires
            host::contract_running(*old(env)),
            i32::MIN <= a + b <= i32::MAX,
        ensures
            sum == a + b,
            usable(*final(env)),
            last_sum(host::contract_storage(*final(env))) == sum,
            host::contract_storage(*final(env)) == host::contract_storage(*old(env)).insert(
                last_sum_key(),
                StorageValue::Signed(sum),
            ),
    {
        let sum: i32 = a + b;
        proof {
            last_sum_name_is_symbol();
        }
        host::store_i32(env, "last_calc", sum);
        sum
    }

    /// The last sum that `calculate_and_store` stored, or 0 where it never
    /// ran.
    pub fn get_last_calculation(env: &Env) -> (sum: i32)
        requires
            usable(*env),
        ensures
            sum == last_sum(host::contract_storage(*env)),
    {
        proof {
            last_sum_name_is_symbol();
        }
        match host::load_i32(env, "last_calc") {
            Some(sum) => sum,
            None => 0,
        }
    }
}

} // verus!
