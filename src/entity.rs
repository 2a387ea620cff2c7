//! Rows of the database, as the persistence adapters read them.
use vstd::prelude::*;

use crate::domain;

verus! {

/// A row of `todo_item`: a task of a user.
#[derive(Debug)]
pub struct TodoTask {
    pub id: i32,
    pub user_id: i32,
    pub item_desc: String,
}

impl From<TodoTask> for domain::todo::TodoTask {
    fn from(value: TodoTask) -> (r: Self)
        ensures
            r == (domain::todo::TodoTask {
                id: value.id,
                owner_user_id: value.user_id,
                item_desc: value.item_desc,
            }),
    {
        domain::todo::TodoTask { id: value.id, owner_user_id: value.user_id, item_desc: value.item_desc }
    }
}

impl vstd::std_specs::convert::FromSpecImpl<TodoTask> for domain::todo::TodoTask {
    open spec fn obeys_from_spec() -> bool {
        true
    }

    open spec fn from_spec(v: TodoTask) -> Self {
        domain::todo::TodoTask { id: v.id, owner_user_id: v.user_id, item_desc: v.item_desc }
    }
}

/// A row of `todo_user`.
#[derive(Debug)]
pub struct TodoUserRow {
    pub id: i32,
    pub first_name: String,
    pub last_name: String,
}

impl From<TodoUserRow> for domain::user::TodoUser {
    fn from(value: TodoUserRow) -> (r: Self)
        ensures
            r == (domain::user::TodoUser {
                id: value.id,
                first_name: value.first_name,
                last_name: value.last_name,
            }),
    {
        domain::user::TodoUser { id: value.id, first_name: value.first_name, last_name: value.last_name }
    }
}

impl vstd::std_specs::convert::FromSpecImpl<TodoUserRow> for domain::user::TodoUser {
    open spec fn obeys_from_spec() -> bool {
        true
    }

    open spec fn from_spec(v: TodoUserRow) -> Self {
        domain::user::TodoUser { id: v.id, first_name: v.first_name, last_name: v.last_name }
    }
}

} // verus!
