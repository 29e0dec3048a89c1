//! Passing values that are not `Send` between tasks of the same executor.
//!
//! Executors are single-threaded, so a value that stays on one executor stays on one thread.
//! [`SendCell`] records the executor it was created on and hands its content out only on that
//! same executor, which it checks at run time.
use vstd::prelude::*;


verus! {

/// The executor spawner, an opaque handle to an executor.
#[verifier::external_type_specification]
#[verifier::external_body]
pub struct ExSpawner(embassy_executor::Spawner);

/// `Spawner::executor_id` returns the unique identifier of the spawner's executor (its
/// address). Nothing is stated of the value: it depends on where the executor lives in memory.
#[verifier::external_body]
fn executor_id(spawner: &embassy_executor::Spawner) -> (r: usize) {
    spawner.executor_id()
}

/// A cell that allows sending values of types that are not `Send`, as long as they stay on the
/// executor the cell was created on.
#[derive(Debug)]
pub struct SendCell<T> {
    executor_id: usize,
    inner: T,
}

impl<T> SendCell<T> {
    /// The identifier of the executor the cell was created on.
    pub closed spec fn executor_id_spec(&self) -> usize {
        self.executor_id
    }

    /// The content of the cell.
    pub closed spec fn inner_spec(&self) -> T {
        self.inner
    }

    /// Creates a new cell on the executor of `spawner`.
    pub fn new(inner: T, spawner: embassy_executor::Spawner) -> (r: Self)
        ensures
            r.inner_spec() == inner,
    {
        let id = executor_id(&spawner);
        Self::with_executor_id(inner, id)
    }

    /// Creates a new cell on the executor identified by `executor_id`.
    pub fn with_executor_id(inner: T, executor_id: usize) -> (r: Self)
        ensures
            r.executor_id_spec() == executor_id,
            r.inner_spec() == inner,
    {
        Self { executor_id, inner }
    }

    /// Gets the content of the cell, from the executor of `spawner`: the content is returned
    /// only on the executor the cell was created on, and `None` is returned elsewhere.
    pub fn get(&self, spawner: embassy_executor::Spawner) -> (r: Option<&T>)
        ensures
            r.is_none() || r == Some(&self.inner_spec()),
    {
        let id = executor_id(&spawner);
        self.get_with_executor_id(id)
    }

    /// Gets the content of the cell, from the executor identified by `executor_id`: the content
    /// is returned only on the executor the cell was created on.
    pub fn get_with_executor_id(&self, executor_id: usize) -> (r: Option<&T>)
        ensures
            executor_id == self.executor_id_spec() ==> r == Some(&self.inner_spec()),
            executor_id != self.executor_id_spec() ==> r.is_none(),
    {
        if executor_id == self.executor_id {
            Some(&self.inner)
        } else {
            None
        }
    }
}

} // verus!
