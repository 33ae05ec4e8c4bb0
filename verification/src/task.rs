//! A first sketch of task scheduling: the logical cores are counted; pools,
//! priorities and packages are not implemented yet.
use vstd::prelude::*;

verus! {

/// Counts the logical cores that this process may use, with
/// `num_cpus::get`, which the crate documents to return at least 1.
#[verifier::external_body]
fn logical_cpu_count() -> (n: usize)
    ensures
        n >= 1,
{
    num_cpus::get()
}

/// Counts the logical cores that this process could try to use; the count
/// will size the thread pools.
pub fn init_threads() {
    let _num = logical_cpu_count();
}

/// The number of thread pools (not implemented yet).
pub fn get_pool_count() {
}

/// Adds a task with a priority (not implemented yet).
pub fn add_task_priority() {
}

/// Adds a task by id (not implemented yet).
pub fn add_task_id() {
}

/// Adds a package of tasks that share one thread (not implemented yet).
pub fn add_task_package() {
}

/// The schedule of the main loop's tasks.
#[allow(non_camel_case_types)]
pub struct schedule {}

impl schedule {
    /// Runs the main loop's tasks (not implemented yet).
    pub fn run() {
    }
}

} // verus!
