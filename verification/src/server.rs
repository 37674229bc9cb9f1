//! The errors a command surfaces to its user.

use vstd::prelude::*;
use vstd::string::StringExecFns;

verus! {

/// A command's failure, with the message the user sees.
#[derive(Debug)]
pub enum ServerError {
    /// Something inside the process went wrong; the payload says what.
    InternalError(String),
    /// The bot lacks a permission; the payload says which.
    PermissionsError(String),
    /// A planned feature that is not built yet.
    UnimplementedError,
}

impl ServerError {
    /// The user-facing message for this error.
    pub fn message(&self) -> (r: String)
        ensures
            match self {
                ServerError::InternalError(m) => r@ == "Whoops, an internal error occurred: "@
                    + m@,
                ServerError::PermissionsError(m) => r@ == "Permissions Error: "@ + m@,
                ServerError::UnimplementedError => r@
                    == "Unimplemented Error: Sorry this feature is planned but not implemented yet."@,
            },
    {
        match self {
            ServerError::InternalError(m) => {
                let mut s = String::from_str("Whoops, an internal error occurred: ");
                s.append(m.as_str());
                s
            },
            ServerError::PermissionsError(m) => {
                let mut s = String::from_str("Permissions Error: ");
                s.append(m.as_str());
                s
            },
            ServerError::UnimplementedError => String::from_str(
                "Unimplemented Error: Sorry this feature is planned but not implemented yet.",
            ),
        }
    }
}

} // verus!
