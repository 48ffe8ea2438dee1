use vstd::prelude::*;
use vstd::string::*;

verus! {

/// The single error of this library: the description of the file system failure
/// that ended a classification.
#[derive(Debug, PartialEq, Eq)]
pub struct PBError {
    message: String,
}

impl View for PBError {
    type V = Seq<char>;

    /// An error is modelled by the characters of its message.
    closed spec fn view(&self) -> Seq<char> {
        self.message@
    }
}

impl PBError {
    /// Wraps the description of a failure.
    pub fn new(message: String) -> (error: PBError)
        ensures
            error@ == message@,
    {
        PBError { message }
    }

    /// The message on its own, as the error is displayed to a user.
    pub fn to_string(&self) -> (text: String)
        ensures
            text@ == self@,
    {
        self.message.clone()
    }

    /// The message behind the name of the type, as the error is shown when debugging.
    pub fn debug_string(&self) -> (text: String)
        ensures
            text@ == "PBError: "@ + self@,
    {
        String::from_str("PBError: ").concat(self.message.as_str())
    }
}

} // verus!
