use vstd::prelude::*;
use vstd::string::StrSliceExecFns;
use crate::auth::engine::{inspect_spec, Auth};
use crate::auth::error::AuthError;
use crate::auth::model::{token_payload_result, TokenPayload, TokenPayloadView};
use crate::database::handler::client_credential::ClientCredentialHandler;
use crate::database::handler::user::UserHandler;

verus! {

/// What a request's `Authorization` header held.
pub enum Credentials {
    /// The request has no such header.
    Missing,
    /// The header is not printable text.
    Unreadable,
    /// The header's text, taken to be an access token.
    Token(String),
}

/// A refused request: the error, and the HTTP status to answer with.
#[derive(Debug, Clone, Copy, PartialEq, Eq, Structural)]
pub struct Rejection {
    pub error: AuthError,
    pub status: u16,
}

/// What [`authenticate_at`] returns. A request without the header is
/// unauthorized (401); an unreadable header is an invalid token; a token is
/// inspected, and refused with the status of the engine's error.
pub open spec fn authenticate_spec(key: Seq<char>, header: Credentials, now: Option<u128>) -> Result<
    TokenPayloadView,
    Rejection,
> {
    match header {
        Credentials::Missing => Err(Rejection { error: AuthError::InvalidToken, status: 401 }),
        Credentials::Unreadable => Err(
            Rejection {
                error: AuthError::InvalidToken,
                status: AuthError::InvalidToken.status_code_spec(),
            },
        ),
        Credentials::Token(token) => match inspect_spec(key, token@, now) {
            Ok(payload) => Ok(payload),
            Err(e) => Err(Rejection { error: e, status: e.status_code_spec() }),
        },
    }
}

/// The view of a result that holds an access token's claims.
pub open spec fn authenticated_view(res: Result<TokenPayload, Rejection>) -> Result<
    TokenPayloadView,
    Rejection,
> {
    match res {
        Ok(p) => Ok(p@),
        Err(r) => Err(r),
    }
}

/// Authorizes a request by the access token in its header, at the clock
/// reading `now`.
pub fn authenticate_at<U: UserHandler, C: ClientCredentialHandler>(
    auth: &Auth<U, C>,
    header: Credentials,
    now: Option<u128>,
) -> (res: Result<TokenPayload, Rejection>)
    ensures
        authenticated_view(res) == authenticate_spec(auth.key(), header, now),
{
    match header {
        Credentials::Missing => Err(Rejection { error: AuthError::InvalidToken, status: 401 }),
        Credentials::Unreadable => Err(
            Rejection {
                error: AuthError::InvalidToken,
                status: AuthError::InvalidToken.status_code(),
            },
        ),
        Credentials::Token(token) => match auth.inspect_at(&token, now) {
            Ok(payload) => Ok(payload),
            Err(e) => Err(Rejection { error: e, status: e.status_code() }),
        },
    }
}

/// Authorizes a request by the access token in its header.
pub fn authenticate<U: UserHandler, C: ClientCredentialHandler>(
    auth: &Auth<U, C>,
    header: Credentials,
) -> (res: Result<TokenPayload, Rejection>)
    ensures
        exists|now: Option<u128>|
            authenticated_view(res) == #[trigger] authenticate_spec(auth.key(), header, now),
{
    match header {
        Credentials::Token(token) => {
            let payload = auth.inspect(&token);
            let ghost now = choose|now: Option<u128>|
                token_payload_result(payload) == #[trigger] inspect_spec(
                    auth.key(),
                    token@,
                    now,
                );
            let res = match payload {
                Ok(p) => Ok(p),
                Err(e) => Err(Rejection { error: e, status: e.status_code() }),
            };
            assert(authenticated_view(res) == authenticate_spec(
                auth.key(),
                Credentials::Token(token),
                now,
            ));
            res
        },
        other => {
            let res = authenticate_at(auth, other, None);
            assert(authenticated_view(res) == authenticate_spec(auth.key(), header, None));
            res
        },
    }
}

/// A character a key may hold: an ASCII letter or digit, `_`, `-` or `.`.
pub open spec fn is_key_char(c: char) -> bool {
    ('0' <= c && c <= '9') || ('a' <= c && c <= 'z') || ('A' <= c && c <= 'Z') || c == '_' || c
        == '-' || c == '.'
}

/// A key is valid when it is not empty and holds only key characters.
pub open spec fn valid_url_key(key: Seq<char>) -> bool {
    key.len() > 0 && forall|i: int| 0 <= i < key.len() ==> is_key_char(#[trigger] key[i])
}

pub fn is_valid_url_key(key: &String) -> (valid: bool)
    ensures
        valid == valid_url_key(key@),
{
    let text = key.as_str();
    let n = text.unicode_len();
    if n == 0 {
        return false;
    }
    let mut i: usize = 0;
    while i < n
        invariant
            i <= n,
            n == text@.len(),
            text@ == key@,
            forall|j: int| 0 <= j < i ==> is_key_char(#[trigger] text@[j]),
        decreases n - i,
    {
        let c = text.get_char(i);
        let allowed = ('0' <= c && c <= '9') || ('a' <= c && c <= 'z') || ('A' <= c && c <= 'Z')
            || c == '_' || c == '-' || c == '.';
        if !allowed {
            assert(!is_key_char(text@[i as int]));
            return false;
        }
        i += 1;
    }
    true
}

/// The rows a page of a listing covers: pages are numbered from 0 and hold
/// ten rows unless told otherwise. `None` where the offset is beyond what
/// the store's integers can hold.
pub open spec fn page_window_spec(page: Option<i64>, per_page: Option<i64>) -> Option<(i64, i64)> {
    let page = match page {
        Some(p) => p,
        None => 0,
    };
    let per_page = match per_page {
        Some(n) => n,
        None => 10,
    };
    if i64::MIN <= per_page * page <= i64::MAX {
        Some(((per_page * page) as i64, per_page))
    } else {
        None
    }
}

/// The offset and the limit of a page of a listing.
pub fn page_window(page: Option<i64>, per_page: Option<i64>) -> (window: Option<(i64, i64)>)
    ensures
        window == page_window_spec(page, per_page),
{
    let page: i64 = match page {
        Some(p) => p,
        None => 0,
    };
    let per_page: i64 = match per_page {
        Some(n) => n,
        None => 10,
    };
    match per_page.checked_mul(page) {
        Some(offset) => Some((offset, per_page)),
        None => None,
    }
}

} // verus!
