use vstd::prelude::*;
use crate::auth::crypto::AuthResult;
use crate::auth::error::AuthError;
use crate::auth::redirect::{uri_with_pair, with_query_pair};

verus! {

/// Where a client is sent back to once a user has logged in: its redirect
/// URI with the authorization code added to the query as `auth_code`. A URI
/// that does not parse is an `InvalidRedirectUri`.
pub open spec fn redirect_location_spec(redirect_uri: Seq<char>, auth_code: Seq<char>) -> AuthResult<
    Seq<char>,
> {
    match uri_with_pair(redirect_uri, "auth_code"@, auth_code) {
        Some(location) => Ok(location),
        None => Err(AuthError::InvalidRedirectUri),
    }
}

pub fn redirect_location(redirect_uri: &String, auth_code: &String) -> (location: AuthResult<
    String,
>)
    ensures
        match redirect_location_spec(redirect_uri@, auth_code@) {
            Ok(l) => location matches Ok(found) && found@ == l,
            Err(e) => location == Err::<String, AuthError>(e),
        },
{
    match with_query_pair(redirect_uri, "auth_code", auth_code) {
        Some(location) => Ok(location),
        None => Err(AuthError::InvalidRedirectUri),
    }
}

} // verus!
