use example_contracts::todo::{add_task, mark_done, remove_task};
use example_contracts::{Task, TodoContract};
use soroban_sdk::testutils::{ContractFunctionSet, EnvTestConfig};
use soroban_sdk::{Address, Env, Val};

/// A contract with no functions: the ledger needs one to hang storage on.
struct Shell;

impl ContractFunctionSet for Shell {
    fn call(&self, _func: &str, _env: Env, _args: &[Val]) -> Option<Val> {
        None
    }
}

/// The task list of one contract in a ledger of its own.
struct Client {
    env: Env,
    contract: Address,
}

impl Client {
    fn new() -> Client {
        let env = Env::new_with_config(EnvTestConfig { capture_snapshot_at_drop: false });
        let contract = env.register(Shell, ());
        Client { env, contract }
    }

    fn add_task(&self, description: &str) {
        let mut env = self.env.clone();
        self.env.as_contract(&self.contract, || {
            TodoContract::add_task(&mut env, description.to_string())
        })
    }

    fn get_tasks(&self) -> Vec<Task> {
        self.env.as_contract(&self.contract, || TodoContract::get_tasks(&self.env))
    }

    fn mark_done(&self, index: u32) {
        let mut env = self.env.clone();
        self.env.as_contract(&self.contract, || TodoContract::mark_done(&mut env, index))
    }

    fn remove_task(&self, index: u32) {
        let mut env = self.env.clone();
        self.env.as_contract(&self.contract, || TodoContract::remove_task(&mut env, index))
    }
}

fn task(description: &str, done: bool) -> Task {
    Task { description: description.to_string(), done }
}

#[test]
fn list_operations_on_a_vec() {
    let mut tasks: Vec<Task> = Vec::new();
    add_task(&mut tasks, "comprar pan".to_string());
    add_task(&mut tasks, "regar las plantas".to_string());
    add_task(&mut tasks, "llamar a mamá".to_string());
    assert_eq!(
        tasks,
        vec![
            task("comprar pan", false),
            task("regar las plantas", false),
            task("llamar a mamá", false)
        ]
    );

    assert!(mark_done(&mut tasks, 1));
    assert_eq!(
        tasks,
        vec![
            task("comprar pan", false),
            task("regar las plantas", true),
            task("llamar a mamá", false)
        ]
    );

    assert!(remove_task(&mut tasks, 0));
    assert_eq!(tasks, vec![task("regar las plantas", true), task("llamar a mamá", false)]);
}

#[test]
fn marking_a_done_task_keeps_it_done() {
    let mut tasks = vec![task("a", true), task("b", false)];
    assert!(mark_done(&mut tasks, 0));
    assert_eq!(tasks, vec![task("a", true), task("b", false)]);
}

#[test]
fn an_index_past_the_end_changes_nothing() {
    let mut tasks = vec![task("a", false), task("b", true)];
    let before = tasks.clone();
    assert!(!mark_done(&mut tasks, 2));
    assert_eq!(tasks, before);
    assert!(!remove_task(&mut tasks, 2));
    assert_eq!(tasks, before);
    assert!(!mark_done(&mut tasks, usize::MAX));
    assert!(!remove_task(&mut tasks, usize::MAX));
    assert_eq!(tasks, before);

    let mut none: Vec<Task> = Vec::new();
    assert!(!mark_done(&mut none, 0));
    assert!(!remove_task(&mut none, 0));
    assert!(none.is_empty());
}

#[test]
fn removing_the_last_task_empties_the_list() {
    let mut tasks = vec![task("a", false)];
    assert!(remove_task(&mut tasks, 0));
    assert!(tasks.is_empty());
}

#[test]
fn contract_starts_with_no_tasks() {
    let client = Client::new();
    assert_eq!(client.get_tasks(), vec![]);
}

#[test]
fn contract_keeps_tasks_in_order() {
    let client = Client::new();
    client.add_task("comprar pan");
    client.add_task("regar las plantas");
    client.add_task("llamar a mamá");
    assert_eq!(
        client.get_tasks(),
        vec![
            task("comprar pan", false),
            task("regar las plantas", false),
            task("llamar a mamá", false)
        ]
    );
}

#[test]
fn contract_marks_and_removes_by_position() {
    let client = Client::new();
    client.add_task("a");
    client.add_task("b");
    client.add_task("c");

    client.mark_done(2);
    assert_eq!(client.get_tasks(), vec![task("a", false), task("b", false), task("c", true)]);

    client.remove_task(1);
    assert_eq!(client.get_tasks(), vec![task("a", false), task("c", true)]);

    client.mark_done(0);
    client.remove_task(1);
    assert_eq!(client.get_tasks(), vec![task("a", true)]);

    client.remove_task(0);
    assert_eq!(client.get_tasks(), vec![]);
}

#[test]
fn contract_ignores_an_index_past_the_end() {
    let client = Client::new();
    client.mark_done(0);
    client.remove_task(0);
    assert_eq!(client.get_tasks(), vec![]);

    client.add_task("a");
    client.mark_done(1);
    client.remove_task(1);
    client.mark_done(u32::MAX);
    client.remove_task(u32::MAX);
    assert_eq!(client.get_tasks(), vec![task("a", false)]);
}
