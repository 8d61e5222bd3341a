use vstd::prelude::*;

verus! {

/// A request to the sign-on endpoints that is refused before the engine
/// sees it.
#[derive(Debug, Clone, Copy, PartialEq, Eq, Structural)]
pub enum SsoError {
    /// The registration form was posted without the cookie the form sets.
    CookieNotFound,
}

impl SsoError {
    pub open spec fn message_spec(self) -> Seq<char> {
        "Bad boi!"@
    }

    /// The text shown for this error.
    pub fn message(&self) -> (text: String)
        ensures
            text@ == self.message_spec(),
    {
        "Bad boi!".to_owned()
    }

    /// The HTTP status a transport answers with: always 400.
    pub fn status_code(&self) -> (code: u16)
        ensures
            code == 400,
    {
        400
    }
}

/// Registration is only taken from a browser that was served the form: the
/// cookie the form sets has to come back.
pub fn require_csrf_cookie(cookie_present: bool) -> (res: Result<(), SsoError>)
    ensures
        res == if cookie_present {
            Ok::<(), SsoError>(())
        } else {
            Err::<(), SsoError>(SsoError::CookieNotFound)
        },
{
    if cookie_present {
        Ok(())
    } else {
        Err(SsoError::CookieNotFound)
    }
}

} // verus!
