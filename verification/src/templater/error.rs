use vstd::prelude::*;

verus! {

#[derive(Debug, Clone, Copy, PartialEq, Eq, Structural)]
pub enum TemplaterError {
    RenderError,
}

pub type TemplateResult<T> = Result<T, TemplaterError>;

impl TemplaterError {
    pub open spec fn message_spec(self) -> Seq<char> {
        "Error during rendering template"@
    }

    /// The text shown for this error.
    pub fn message(&self) -> (text: String)
        ensures
            text@ == self.message_spec(),
    {
        "Error during rendering template".to_owned()
    }

    /// The HTTP status a transport answers with: always 500.
    pub fn status_code(&self) -> (code: u16)
        ensures
            code == 500,
    {
        500
    }
}

} // verus!
