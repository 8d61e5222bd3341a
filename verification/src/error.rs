use vstd::prelude::*;

verus! {

/// A failure outside the authorization flow.
#[derive(Debug, Clone, Copy, PartialEq, Eq, Structural)]
pub enum Error {
    /// The mail service could not be reached.
    MailError,
}

impl Error {
    pub open spec fn message_spec(self) -> Seq<char> {
        "Error getting mail service"@
    }

    /// The text shown for this error.
    pub fn message(&self) -> (text: String)
        ensures
            text@ == self.message_spec(),
    {
        "Error getting mail service".to_owned()
    }

    /// The HTTP status a transport answers with: always 500.
    pub fn status_code(&self) -> (code: u16)
        ensures
            code == 500,
    {
        500
    }
}

} // verus!
