use vstd::prelude::*;

verus! {

/// The referenced collection a resolution step was working on.
#[derive(Clone, Copy, Debug, PartialEq, Eq, Structural)]
pub enum RefKind {
    Address,
    Person,
    Group,
    Household,
    Event,
}

/// What was wrong with a submitted date of birth.
#[derive(Clone, Copy, Debug, PartialEq, Eq, Structural)]
pub enum DateIssue {
    /// Not three parts separated by `-`.
    Shape,
    InvalidYear,
    InvalidMonth,
    InvalidDay,
    /// The year is 1800 or earlier.
    YearTooEarly,
    /// The parts are numbers but name no calendar day.
    NoSuchDay,
}

/// Every failure that an operation of the registry can report.
#[derive(Clone, Copy, Debug, PartialEq, Eq, Structural)]
pub enum CosiError {
    /// Submitted form content breaks an entity rule.
    Validation(DateIssue),
    /// A registration's discriminator does not match its populated reference.
    Discriminator,
    /// The document store failed to carry out an operation.
    Storage,
    /// No stored record matches the content of an embedded object.
    Resolution(RefKind),
    /// A stored reference names an id that does not exist.
    Integrity(RefKind),
    /// An update matched no record and inserted none.
    NotFound,
    /// An id string is not 24 hexadecimal digits.
    MalformedId,
    /// A stored date or time text cannot be read back.
    MalformedRecord,
}

impl CosiError {
    /// True for the failures that are caused by what the client sent.
    pub open spec fn is_client_error_spec(self) -> bool {
        match self {
            CosiError::Storage => false,
            _ => true,
        }
    }

    /// Validation and resolution failures answer with a client error, storage
    /// failures with a server error.
    pub fn is_client_error(&self) -> (r: bool)
        ensures
            r == self.is_client_error_spec(),
    {
        match self {
            CosiError::Storage => false,
            _ => true,
        }
    }
}

} // verus!
