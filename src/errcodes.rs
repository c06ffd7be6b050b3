use vstd::prelude::*;

use crate::error::Error;

verus! {

/// SQLSTATE codes that the store reports.
#[derive(Debug, Clone, Copy, PartialEq, Eq, Structural)]
pub enum Codes {
    UniqueViolation,
}

impl Codes {
    pub open spec fn text(self) -> Seq<char> {
        match self {
            Codes::UniqueViolation => "23505"@,
        }
    }

    pub fn to_string(&self) -> (r: String)
        ensures
            r@ == self.text(),
    {
        match self {
            Codes::UniqueViolation => "23505".to_string(),
        }
    }
}

/// The domain error for a failed insert: a unique-constraint violation means the
/// product exists already; any other failure is a persistence error with the
/// driver's message.
pub fn save_failure(code: Option<String>, message: String) -> (r: Error)
    ensures
        (code matches Some(c) && c@ == Codes::UniqueViolation.text()) ==> r is ProductAlreadyExists,
        !(code matches Some(c) && c@ == Codes::UniqueViolation.text()) ==> r == Error::Persistence(message),
{
    if let Some(c) = code {
        if c == Codes::UniqueViolation.to_string() {
            return Error::ProductAlreadyExists;
        }
    }
    Error::Persistence(message)
}

} // verus!
