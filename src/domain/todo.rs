//! Tasks, and the rules for reaching them through their owner.
use vstd::prelude::*;

use crate::domain::user::{verify_user_exists, UserExistsErr};

verus! {

/// A task available for a user.
#[derive(PartialEq, Eq, Debug)]
pub struct TodoTask {
    pub id: i32,
    pub owner_user_id: i32,
    pub item_desc: String,
}

/// Contains information necessary to create a new task.
#[derive(Debug)]
pub struct NewTask {
    pub description: String,
}

/// Contains information which is allowed to be updated on a task.
#[derive(Debug)]
pub struct UpdateTask {
    pub description: String,
}

/// A set of things that can go wrong while dealing with tasks.
#[derive(Debug)]
pub enum TaskError {
    /// The specified user did not exist.
    UserDoesNotExist,
    /// A driven port failed.
    PortError(anyhow::Error),
}

impl From<anyhow::Error> for TaskError {
    fn from(value: anyhow::Error) -> (r: Self)
        ensures
            r == TaskError::PortError(value),
    {
        TaskError::PortError(value)
    }
}

impl From<UserExistsErr> for TaskError {
    fn from(value: UserExistsErr) -> (r: Self)
        ensures
            r == task_error_of(value),
    {
        match value {
            UserExistsErr::UserDoesNotExist(_) => TaskError::UserDoesNotExist,
            UserExistsErr::PortError(err) => TaskError::PortError(err),
        }
    }
}

impl vstd::std_specs::convert::FromSpecImpl<anyhow::Error> for TaskError {
    open spec fn obeys_from_spec() -> bool {
        true
    }

    open spec fn from_spec(v: anyhow::Error) -> Self {
        TaskError::PortError(v)
    }
}

impl vstd::std_specs::convert::FromSpecImpl<UserExistsErr> for TaskError {
    open spec fn obeys_from_spec() -> bool {
        true
    }

    open spec fn from_spec(v: UserExistsErr) -> Self {
        task_error_of(v)
    }
}

/// A missing owner stays a missing user (its ID is dropped); a port failure
/// stays a port failure.
pub open spec fn task_error_of(value: UserExistsErr) -> TaskError {
    match value {
        UserExistsErr::UserDoesNotExist(_) => TaskError::UserDoesNotExist,
        UserExistsErr::PortError(err) => TaskError::PortError(err),
    }
}

/// TaskService exposes the task rules to driving adapters.
pub struct TaskService;

impl TaskService {
    /// Every task operation on a user's tasks first checks that the user
    /// exists. Given what the user-detecting port answered, this passes
    /// (`Ok(true)`), or gives the error the operation returns.
    pub fn require_owner(
        &self,
        user_id: i32,
        user_exists: Result<bool, anyhow::Error>,
    ) -> (r: Result<(), TaskError>)
        ensures
            match user_exists {
                Ok(true) => r is Ok,
                Ok(false) => r == Err::<(), TaskError>(TaskError::UserDoesNotExist),
                Err(e) => r == Err::<(), TaskError>(TaskError::PortError(e)),
            },
    {
        match verify_user_exists(user_id, user_exists) {
            Ok(()) => Ok(()),
            Err(err) => Err(TaskError::from(err)),
        }
    }

    /// The result of a task operation, from what the task port returned once
    /// the owner check passed.
    pub fn port_outcome<T>(
        &self,
        returned: Result<T, anyhow::Error>,
    ) -> (r: Result<T, TaskError>)
        ensures
            match returned {
                Ok(v) => r == Ok::<T, TaskError>(v),
                Err(e) => r == Err::<T, TaskError>(TaskError::PortError(e)),
            },
    {
        match returned {
            Ok(v) => Ok(v),
            Err(e) => Err(TaskError::from(e)),
        }
    }
}

} // verus!
