use vstd::prelude::*;

verus! {

/// Why a task could not be completed by the backend.
#[derive(PartialEq, Eq, Structural, Clone, Copy, Debug)]
pub enum TaskError {
    /// Some resources must be freed before the task can complete.
    NotEnoughResources,
    /// The backend cannot complete tasks anymore.
    BackendBroken,
}

/// Result of a task run by the backend.
pub type TaskResult<T> = Result<T, TaskError>;

/// Why resource data could not be read back.
#[derive(PartialEq, Eq, Structural, Clone, Copy, Debug)]
pub enum ReadError {
    /// No resource with that id is stored.
    NotFound,
    /// The resource exists but its data cannot be read.
    CantRead,
}

/// Why a value could not be taken from a `Getter`.
#[derive(PartialEq, Eq, Structural, Clone, Copy, Debug)]
pub enum GetError {
    /// The value has not been set yet.
    NotReady,
    /// The value has been taken already.
    AlreadyTaken,
    /// The setter is gone without setting a value; none will ever come.
    ProducerGone,
}

/// A failure of the backend that ends the orchestration loop.
#[derive(Clone, Debug)]
pub enum GfxBackendUpdateError {
    CriticalError(String),
}

} // verus!
