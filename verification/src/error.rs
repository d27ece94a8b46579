use vstd::prelude::*;

verus! {

/// What can go wrong when the rows of a query are read back.
#[derive(Debug)]
pub enum ExecuteError {
    DecodeError(String),
}

/// The message of an error.
pub open spec fn execute_error_text(e: ExecuteError) -> Seq<char> {
    match e {
        ExecuteError::DecodeError(m) => "DecodeError: "@ + m@,
    }
}

impl ExecuteError {
    /// The message of the error.
    pub fn to_display_string(&self) -> (s: String)
        ensures
            s@ == execute_error_text(*self),
    {
        match self {
            ExecuteError::DecodeError(m) => {
                let mut s = String::from_str("DecodeError: ");
                s.append(m.as_str());
                s
            },
        }
    }
}

} // verus!
