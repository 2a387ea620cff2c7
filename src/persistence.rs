//! Helpers shared by the database adapters.
use vstd::prelude::*;
use vstd::string::to_string_from_display_ensures;

verus! {

/// Relies on `anyhow::Error::msg`: the error it makes displays exactly as the
/// message does.
pub assume_specification<M>[ anyhow::Error::msg::<M> ](message: M) -> (r: anyhow::Error)
    where
        M: core::fmt::Display + core::fmt::Debug + Send + Sync + 'static,
    ensures
        forall|s: String|
            to_string_from_display_ensures::<anyhow::Error>(&r, s)
                <==> to_string_from_display_ensures::<M>(&message, s),
;

/// The row that PostgreSQL's `count()` function produces.
#[derive(Debug, Clone, Copy)]
pub struct Count {
    pub count: Option<i64>,
}

impl Count {
    /// The count. `count()` always produces a value, so a row without one is
    /// outside the contract.
    pub fn count(&self) -> (r: i64)
        requires
            self.count is Some,
        ensures
            r == self.count->0,
    {
        match self.count {
            Some(n) => n,
            None => vstd::pervasive::unreached(),
        }
    }
}

/// The ID of a newly inserted record.
#[derive(Debug, Clone, Copy)]
pub struct NewId {
    pub id: i32,
}

/// Converts anything that displays into an `anyhow::Error` whose message is
/// that display text.
pub fn anyhowify<T: core::fmt::Debug + core::fmt::Display>(errorish: T) -> (r: anyhow::Error)
    ensures
        exists|text: String|
            {
                &&& to_string_from_display_ensures::<T>(&errorish, text)
                &&& forall|s: String|
                    to_string_from_display_ensures::<anyhow::Error>(&r, s)
                        <==> to_string_from_display_ensures::<String>(&text, s)
            },
{
    let text = errorish.to_string();
    let r = anyhow::Error::msg(text);
    r
}

} // verus!
