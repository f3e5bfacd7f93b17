use vstd::prelude::*;

verus! {

/// Result tag of a successful add or get of one file.
#[derive(Clone, Copy, PartialEq, Eq, Debug, Structural)]
pub enum Outcome {
    Copied,
    Present,
    Error,
}

/// Synchronisation state of one tracked file.
#[derive(Clone, Copy, PartialEq, Eq, Debug, Structural)]
pub enum Status {
    Absent,
    Unsynced,
    Current,
    Error,
}

impl Outcome {
    /// The display text of each tag.
    pub open spec fn text(self) -> Seq<char> {
        match self {
            Outcome::Copied => "copied"@,
            Outcome::Present => "present"@,
            Outcome::Error => "error"@,
        }
    }

    /// The display text of the tag.
    pub fn outcome_to_string(&self) -> (s: String)
        ensures
            s@ == self.text(),
    {
        match self {
            Outcome::Copied => String::from_str("copied"),
            Outcome::Present => String::from_str("present"),
            Outcome::Error => String::from_str("error"),
        }
    }
}

impl Status {
    /// The display text of each tag.
    pub open spec fn text(self) -> Seq<char> {
        match self {
            Status::Absent => "absent"@,
            Status::Unsynced => "unsynced"@,
            Status::Current => "current"@,
            Status::Error => "error"@,
        }
    }

    /// The display text of the tag.
    pub fn outcome_to_string(&self) -> (s: String)
        ensures
            s@ == self.text(),
    {
        match self {
            Status::Absent => String::from_str("absent"),
            Status::Unsynced => String::from_str("unsynced"),
            Status::Current => String::from_str("current"),
            Status::Error => String::from_str("error"),
        }
    }
}

} // verus!
