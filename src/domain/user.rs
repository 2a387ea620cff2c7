//! Users, and the rules for detecting and creating them.
use vstd::prelude::*;

verus! {

/// A user who can own to-do items.
#[derive(PartialEq, Eq, Debug, Default)]
pub struct TodoUser {
    pub id: i32,
    pub first_name: String,
    pub last_name: String,
}

/// A description of a user's unique personal information, borrowed from the
/// request that carries it.
pub struct UserDescription<'names> {
    pub first_name: &'names str,
    pub last_name: &'names str,
}

/// Contains information necessary to create a new user.
#[derive(Debug)]
pub struct CreateUser {
    pub first_name: String,
    pub last_name: String,
}

/// Defines the set of reasons why a user would fail to be created.
#[derive(Debug)]
pub enum CreateUserError {
    /// A user with the same first and last name already exists.
    UserAlreadyExists,
    /// A driven port failed.
    PortError(anyhow::Error),
}

impl From<anyhow::Error> for CreateUserError {
    fn from(value: anyhow::Error) -> (r: Self)
        ensures
            r == CreateUserError::PortError(value),
    {
        CreateUserError::PortError(value)
    }
}

impl vstd::std_specs::convert::FromSpecImpl<anyhow::Error> for CreateUserError {
    open spec fn obeys_from_spec() -> bool {
        true
    }

    open spec fn from_spec(v: anyhow::Error) -> Self {
        CreateUserError::PortError(v)
    }
}

/// Problems that may occur when asserting that a user exists.
#[derive(Debug)]
pub enum UserExistsErr {
    /// No user has this ID.
    UserDoesNotExist(i32),
    /// A driven port failed.
    PortError(anyhow::Error),
}

impl From<anyhow::Error> for UserExistsErr {
    fn from(value: anyhow::Error) -> (r: Self)
        ensures
            r == UserExistsErr::PortError(value),
    {
        UserExistsErr::PortError(value)
    }
}

impl vstd::std_specs::convert::FromSpecImpl<anyhow::Error> for UserExistsErr {
    open spec fn obeys_from_spec() -> bool {
        true
    }

    open spec fn from_spec(v: anyhow::Error) -> Self {
        UserExistsErr::PortError(v)
    }
}

/// Asserts that the user with ID `id` exists, given what the user-detecting
/// port answered: `Ok(true)` passes, `Ok(false)` is `UserDoesNotExist(id)`, and
/// a port failure is passed on.
pub fn verify_user_exists(
    id: i32,
    user_exists: Result<bool, anyhow::Error>,
) -> (r: Result<(), UserExistsErr>)
    ensures
        match user_exists {
            Ok(true) => r is Ok,
            Ok(false) => r == Err::<(), UserExistsErr>(UserExistsErr::UserDoesNotExist(id)),
            Err(e) => r == Err::<(), UserExistsErr>(UserExistsErr::PortError(e)),
        },
{
    match user_exists {
        Ok(true) => Ok(()),
        Ok(false) => Err(UserExistsErr::UserDoesNotExist(id)),
        Err(e) => Err(UserExistsErr::from(e)),
    }
}

/// The service that exposes the user rules to driving adapters.
pub struct UserService;

impl UserService {
    /// The description under which a new user is looked up before creation.
    pub fn description<'a>(&self, new_user: &'a CreateUser) -> (r: UserDescription<'a>)
        ensures
            r.first_name@ == new_user.first_name@,
            r.last_name@ == new_user.last_name@,
    {
        UserDescription { first_name: new_user.first_name.as_str(), last_name: new_user.last_name.as_str() }
    }

    /// Decides, from whether a user with the same name already exists, if the
    /// new user may be written: only when the lookup answered `Ok(false)`.
    pub fn check_name_free(
        &self,
        name_taken: Result<bool, anyhow::Error>,
    ) -> (r: Result<(), CreateUserError>)
        ensures
            match name_taken {
                Ok(false) => r is Ok,
                Ok(true) => r == Err::<(), CreateUserError>(CreateUserError::UserAlreadyExists),
                Err(e) => r == Err::<(), CreateUserError>(CreateUserError::PortError(e)),
            },
    {
        match name_taken {
            Ok(false) => Ok(()),
            Ok(true) => Err(CreateUserError::UserAlreadyExists),
            Err(e) => Err(CreateUserError::from(e)),
        }
    }

    /// The result of creating a user, from what the user-writing port returned:
    /// the new user's ID, or the port's error.
    pub fn creation_outcome(
        &self,
        written: Result<i32, anyhow::Error>,
    ) -> (r: Result<i32, CreateUserError>)
        ensures
            match written {
                Ok(id) => r == Ok::<i32, CreateUserError>(id),
                Err(e) => r == Err::<i32, CreateUserError>(CreateUserError::PortError(e)),
            },
    {
        match written {
            Ok(id) => Ok(id),
            Err(e) => Err(CreateUserError::from(e)),
        }
    }
}

} // verus!
