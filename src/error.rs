use vstd::prelude::*;

verus! {

/// Why an operation on the store was rejected.
#[derive(Clone, Copy, Debug, PartialEq, Eq, Structural)]
pub enum CrudError {
    /// The title is longer than the limit.
    TitleTooLong,
    /// The message is longer than the limit.
    MessageTooLong,
    /// The title is empty.
    TitleTooShort,
    /// The message is empty.
    MessageTooShort,
    /// A record already exists for this title and owner.
    AlreadyExists,
    /// No record exists for this title and owner.
    NotFound,
}

impl CrudError {
    /// A human-readable description of the error.
    pub fn message(&self) -> (r: &'static str)
        ensures
            r@ == match *self {
                CrudError::TitleTooLong => "The provided title should be 50 characters long maximum."@,
                CrudError::MessageTooLong => "The provided message should be 280 characters long maximum."@,
                CrudError::TitleTooShort => "The provided title should be 1 character long minimum."@,
                CrudError::MessageTooShort => "The provided message should be 1 character long minimum."@,
                CrudError::AlreadyExists => "A journal entry with this title already exists for this owner."@,
                CrudError::NotFound => "No journal entry with this title exists for this owner."@,
            },
    {
        match self {
            CrudError::TitleTooLong => "The provided title should be 50 characters long maximum.",
            CrudError::MessageTooLong => "The provided message should be 280 characters long maximum.",
            CrudError::TitleTooShort => "The provided title should be 1 character long minimum.",
            CrudError::MessageTooShort => "The provided message should be 1 character long minimum.",
            CrudError::AlreadyExists => "A journal entry with this title already exists for this owner.",
            CrudError::NotFound => "No journal entry with this title exists for this owner.",
        }
    }
}

} // verus!
