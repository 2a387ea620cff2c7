//! Request and response bodies of the HTTP API, and the rules that a request
//! body must meet before it reaches the domain.
use vstd::prelude::*;
use vstd::string::StrSliceExecFns;

pub mod task;
pub mod user;

verus! {

/// One failed rule on one field of a request body.
#[derive(Debug)]
pub struct FieldError {
    /// The field's name, as it is written in the request.
    pub field: String,
    /// Which rule failed (`"length"`).
    pub code: String,
}

/// The failed rules of a request body, one entry per invalid field, in the
/// order of the fields.
#[derive(Debug)]
pub struct ValidationErrors {
    pub errors: Vec<FieldError>,
}

impl View for ValidationErrors {
    /// The names of the invalid fields.
    type V = Seq<Seq<char>>;

    open spec fn view(&self) -> Seq<Seq<char>> {
        self.errors@.map_values(|e: FieldError| e.field@)
    }
}

/// The body of every error response of the API.
#[derive(Debug)]
pub struct BasicError {
    /// A sentinel value that tells apart the causes of a non-2XX response.
    pub error_code: String,
    /// A human-readable error message suitable for showing to users.
    pub error_description: String,
    /// Additional context, such as which validations failed on a request body.
    pub extra_info: Option<ExtraInfo>,
}

/// Extra context which explains why an API error occurred.
#[derive(Debug)]
pub enum ExtraInfo {
    /// The failed rules of the request body.
    ValidationIssues(ValidationErrors),
    /// A message, such as why a body could not be parsed.
    Message(String),
}

/// The invalid fields of a request body, for lookups by name.
pub struct FieldErrors<'a> {
    pub errors: &'a Vec<FieldError>,
}

impl ValidationErrors {
    /// The errors, by field.
    pub fn field_errors(&self) -> (r: FieldErrors<'_>)
        ensures
            r.errors@ == self.errors@,
    {
        FieldErrors { errors: &self.errors }
    }
}

impl<'a> FieldErrors<'a> {
    /// Whether the field named `field` failed a rule.
    pub fn contains_key(&self, field: &str) -> (r: bool)
        ensures
            r == self.errors@.map_values(|e: FieldError| e.field@).contains(field@),
    {
        let key = field.to_owned();
        let ghost names = self.errors@.map_values(|e: FieldError| e.field@);
        let mut i: usize = 0;
        while i < self.errors.len()
            invariant
                i <= self.errors@.len(),
                key@ == field@,
                names == self.errors@.map_values(|e: FieldError| e.field@),
                forall|j: int| 0 <= j < i ==> names[j] != field@,
            decreases self.errors@.len() - i,
        {
            if self.errors[i].field == key {
                assert(names[i as int] == field@);
                return true;
            }
            i += 1;
        }
        proof {
            if names.contains(field@) {
                let j = choose|j: int| 0 <= j < names.len() && names[j] == field@;
                assert(names[j] != field@);
            }
        }
        false
    }

    /// The number of invalid fields.
    pub fn len(&self) -> (r: usize)
        ensures
            r == self.errors@.len(),
    {
        self.errors.len()
    }
}

/// The length rule: the number of characters of `value` is at least `min` and
/// at most `max`, where they are given.
pub open spec fn length_within(value: Seq<char>, min: Option<nat>, max: Option<nat>) -> bool {
    &&& min matches Some(lo) ==> lo <= value.len()
    &&& max matches Some(hi) ==> value.len() <= hi
}

/// Checks the length rule on `value`, counting characters (not bytes).
pub fn check_length(value: &String, min: Option<usize>, max: Option<usize>) -> (r: bool)
    ensures
        r == length_within(
            value@,
            match min {
                Some(lo) => Some(lo as nat),
                None => None,
            },
            match max {
                Some(hi) => Some(hi as nat),
                None => None,
            },
        ),
{
    let count = value.as_str().unicode_len();
    let above_min = match min {
        Some(lo) => lo <= count,
        None => true,
    };
    let below_max = match max {
        Some(hi) => count <= hi,
        None => true,
    };
    above_min && below_max
}

/// Adds a failed length rule on `field` to `errors`.
pub fn push_length_error(errors: &mut Vec<FieldError>, field: &str)
    ensures
        final(errors)@.len() == old(errors)@.len() + 1,
        final(errors)@.drop_last() == old(errors)@,
        final(errors)@.last().field@ == field@,
        final(errors)@.last().code@ == "length"@,
{
    errors.push(FieldError { field: field.to_owned(), code: "length".to_owned() });
    assert(errors@.drop_last() =~= old(errors)@);
}

} // verus!
