//! Bodies of the user endpoints.
use vstd::prelude::*;

use crate::domain;
use crate::dto::{check_length, length_within, push_length_error, FieldError, ValidationErrors};

verus! {

/// The most characters a first name may have.
pub const FIRST_NAME_MAX_CHARS: usize = 30;

/// The most characters a last name may have.
pub const LAST_NAME_MAX_CHARS: usize = 50;

/// A user, as the API returns it.
#[derive(PartialEq, Eq, Debug)]
pub struct TodoUser {
    pub id: i32,
    pub first_name: String,
    pub last_name: String,
}

impl From<domain::user::TodoUser> for TodoUser {
    fn from(value: domain::user::TodoUser) -> (r: Self)
        ensures
            r == (TodoUser { id: value.id, first_name: value.first_name, last_name: value.last_name }),
    {
        TodoUser { id: value.id, first_name: value.first_name, last_name: value.last_name }
    }
}

impl vstd::std_specs::convert::FromSpecImpl<domain::user::TodoUser> for TodoUser {
    open spec fn obeys_from_spec() -> bool {
        true
    }

    open spec fn from_spec(v: domain::user::TodoUser) -> Self {
        TodoUser { id: v.id, first_name: v.first_name, last_name: v.last_name }
    }
}

/// The body that asks to create a user.
#[derive(Debug)]
pub struct NewUser {
    pub first_name: String,
    pub last_name: String,
}

/// The fields of a new user that break the length rules, in field order.
pub open spec fn invalid_user_fields(first_name: Seq<char>, last_name: Seq<char>) -> Seq<Seq<char>> {
    (if length_within(first_name, None, Some(FIRST_NAME_MAX_CHARS as nat)) {
        Seq::empty()
    } else {
        seq!["first_name"@]
    }) + (if length_within(last_name, None, Some(LAST_NAME_MAX_CHARS as nat)) {
        Seq::empty()
    } else {
        seq!["last_name"@]
    })
}

impl NewUser {
    /// Checks the body: a first name has at most 30 characters, a last name
    /// at most 50. On failure every invalid field is named, with the code
    /// `"length"`.
    pub fn validate(&self) -> (r: Result<(), ValidationErrors>)
        ensures
            r is Ok <==> invalid_user_fields(self.first_name@, self.last_name@).len() == 0,
            r matches Err(errs) ==> {
                &&& errs@ == invalid_user_fields(self.first_name@, self.last_name@)
                &&& forall|i: int| 0 <= i < errs.errors@.len() ==> #[trigger] errs.errors@[i].code@ == "length"@
            },
    {
        let mut errors: Vec<FieldError> = Vec::new();
        if !check_length(&self.first_name, None, Some(FIRST_NAME_MAX_CHARS)) {
            push_length_error(&mut errors, "first_name");
        }
        let ghost after_first = errors@;
        if !check_length(&self.last_name, None, Some(LAST_NAME_MAX_CHARS)) {
            push_length_error(&mut errors, "last_name");
        }
        let r = ValidationErrors { errors };
        assert(r@ =~= invalid_user_fields(self.first_name@, self.last_name@));
        if r.errors.len() == 0 {
            Ok(())
        } else {
            Err(r)
        }
    }
}

/// The ID of a user that was created through the API.
#[derive(PartialEq, Eq, Debug, Clone, Copy)]
pub struct InsertedUser {
    pub id: i32,
}

} // verus!
