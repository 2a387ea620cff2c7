//! Bodies of the task endpoints.
use vstd::prelude::*;

use crate::domain;
use crate::dto::{check_length, length_within, push_length_error, FieldError, ValidationErrors};

verus! {

/// The body that asks to create a task.
#[derive(Debug)]
pub struct NewTask {
    pub item_desc: String,
}

/// The fields of a body whose text must not be empty: none, or `field` when
/// `text` is empty.
pub open spec fn invalid_text_fields(field: Seq<char>, text: Seq<char>) -> Seq<Seq<char>> {
    if length_within(text, Some(1), None) {
        Seq::empty()
    } else {
        seq![field]
    }
}

/// Checks that `text` is not empty, naming `field` when it is.
fn validate_text(field: &str, text: &String) -> (r: Result<(), ValidationErrors>)
    ensures
        r is Ok <==> invalid_text_fields(field@, text@).len() == 0,
        r matches Err(errs) ==> {
            &&& errs@ == invalid_text_fields(field@, text@)
            &&& forall|i: int| 0 <= i < errs.errors@.len() ==> #[trigger] errs.errors@[i].code@ == "length"@
        },
{
    let mut errors: Vec<FieldError> = Vec::new();
    if !check_length(text, Some(1), None) {
        push_length_error(&mut errors, field);
    }
    let r = ValidationErrors { errors };
    assert(r@ =~= invalid_text_fields(field@, text@));
    if r.errors.len() == 0 {
        Ok(())
    } else {
        Err(r)
    }
}

impl NewTask {
    /// Checks the body: the description has at least one character.
    pub fn validate(&self) -> (r: Result<(), ValidationErrors>)
        ensures
            r is Ok <==> self.item_desc@.len() >= 1,
            r matches Err(errs) ==> {
                &&& errs@ == seq!["item_desc"@]
                &&& errs.errors@[0].code@ == "length"@
            },
    {
        validate_text("item_desc", &self.item_desc)
    }
}

impl From<NewTask> for domain::todo::NewTask {
    fn from(value: NewTask) -> (r: Self)
        ensures
            r == (domain::todo::NewTask { description: value.item_desc }),
    {
        domain::todo::NewTask { description: value.item_desc }
    }
}

impl vstd::std_specs::convert::FromSpecImpl<NewTask> for domain::todo::NewTask {
    open spec fn obeys_from_spec() -> bool {
        true
    }

    open spec fn from_spec(v: NewTask) -> Self {
        domain::todo::NewTask { description: v.item_desc }
    }
}

/// A task, as the API returns it.
#[derive(PartialEq, Eq, Debug)]
pub struct TodoTask {
    pub id: i32,
    pub description: String,
}

impl From<domain::todo::TodoTask> for TodoTask {
    fn from(value: domain::todo::TodoTask) -> (r: Self)
        ensures
            r == (TodoTask { id: value.id, description: value.item_desc }),
    {
        TodoTask { id: value.id, description: value.item_desc }
    }
}

impl vstd::std_specs::convert::FromSpecImpl<domain::todo::TodoTask> for TodoTask {
    open spec fn obeys_from_spec() -> bool {
        true
    }

    open spec fn from_spec(v: domain::todo::TodoTask) -> Self {
        TodoTask { id: v.id, description: v.item_desc }
    }
}

/// The body that updates a task's content.
#[derive(Debug)]
pub struct UpdateTask {
    pub description: String,
}

impl UpdateTask {
    /// Checks the body: the description has at least one character.
    pub fn validate(&self) -> (r: Result<(), ValidationErrors>)
        ensures
            r is Ok <==> self.description@.len() >= 1,
            r matches Err(errs) ==> {
                &&& errs@ == seq!["description"@]
                &&& errs.errors@[0].code@ == "length"@
            },
    {
        validate_text("description", &self.description)
    }
}

impl From<UpdateTask> for domain::todo::UpdateTask {
    fn from(value: UpdateTask) -> (r: Self)
        ensures
            r == (domain::todo::UpdateTask { description: value.description }),
    {
        domain::todo::UpdateTask { description: value.description }
    }
}

impl vstd::std_specs::convert::FromSpecImpl<UpdateTask> for domain::todo::UpdateTask {
    open spec fn obeys_from_spec() -> bool {
        true
    }

    open spec fn from_spec(v: UpdateTask) -> Self {
        domain::todo::UpdateTask { description: v.description }
    }
}

/// The ID of a newly created task.
#[derive(PartialEq, Eq, Debug, Clone, Copy)]
pub struct InsertedTask {
    pub id: i32,
}

} // verus!
