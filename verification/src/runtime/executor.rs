//! Tasks: how they are submitted, and what comes back when they are joined.
use vstd::prelude::*;

verus! {

/// Why a task has no result.
#[derive(Debug, PartialEq, Eq)]
pub enum TaskError {
    Cancelled,
    Panicked,
    Failed(String),
}

/// Runs tasks. What a task is, and what a handle on it is, is up to the implementation; a handle
/// gives back a value whose type was erased.
pub trait TaskExecutor {
    /// The context that a task inherits deadline and cancellation from.
    type CallContext;
    /// A task whose type was erased.
    type Task;
    /// A handle on a running task.
    type Handle;

    /// Submits a task under the given context.
    fn spawn_dyn(&self, ctx: &Self::CallContext, task: Self::Task) -> Self::Handle;
}

/// A typed view of the handle on a task.
#[derive(Debug)]
pub struct JoinHandle<H> {
    inner: H,
}

impl<H> JoinHandle<H> {
    pub closed spec fn joins(&self) -> H {
        self.inner
    }
}

/// Submits a task and keeps the handle on it.
pub fn spawn<E: TaskExecutor>(
    executor: &E,
    ctx: &E::CallContext,
    task: E::Task,
) -> (handle: JoinHandle<E::Handle>)
    ensures
        call_ensures(E::spawn_dyn, (executor, ctx, task), handle.joins()),
{
    JoinHandle { inner: executor.spawn_dyn(ctx, task) }
}

/// Whether an outcome is what a typed task gives, given the outcome of the erased one: `None`
/// inside it means that the value was not of the type that the task promised.
pub open spec fn restored<T>(joined: Result<Option<T>, TaskError>, r: Result<T, TaskError>) -> bool {
    match joined {
        Ok(Some(value)) => r == Ok::<T, TaskError>(value),
        Ok(None) => r is Err && r->Err_0 is Failed && r->Err_0->Failed_0@
            == "join handle type mismatch"@,
        Err(error) => r == Err::<T, TaskError>(error),
    }
}

/// What the join of a typed task gives, given the outcome of the erased one.
pub fn restore_output<T>(joined: Result<Option<T>, TaskError>) -> (r: Result<T, TaskError>)
    ensures
        restored(joined, r),
{
    match joined {
        Ok(Some(value)) => Ok(value),
        Ok(None) => Err(TaskError::Failed("join handle type mismatch".to_owned())),
        Err(error) => Err(error),
    }
}

/// A handle on a task that was submitted with its type erased and can be joined.
pub trait ErasedHandle<T> {
    /// What the task gave, read as a `T`; nothing where the value is of another type.
    fn join_erased(self) -> Result<Option<T>, TaskError> where Self: Sized;
}

impl<H> JoinHandle<H> {
    /// Joins the task that was submitted: its value, or why there is none.
    pub fn join<T>(self) -> (r: Result<T, TaskError>) where H: ErasedHandle<T>
        ensures
            exists|joined: Result<Option<T>, TaskError>|
                #![trigger call_ensures(H::join_erased, (self.joins(),), joined)]
                call_ensures(H::join_erased, (self.joins(),), joined) && restored(joined, r),
    {
        let joined = self.inner.join_erased();
        proof {
            assert(call_ensures(H::join_erased, (self.joins(),), joined));
        }
        restore_output(joined)
    }
}

} // verus!
