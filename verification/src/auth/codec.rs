//! The wire form of the three bearer artifacts.
//!
//! An artifact is a record of four claims, written as JSON by `serde_json`,
//! encrypted and base64-encoded. The first claim, the discriminator, starts
//! with a tag that names the artifact's kind: it is all that keeps an
//! artifact of one kind from being accepted as one of another.

use vstd::prelude::*;
use vstd::string::StringExecFns;
use vstd::string::StrSliceExecFns;
use crate::auth::crypto::{open, opened, seal, sealed, AuthResult};
use crate::auth::error::AuthError;

verus! {

/// The three kinds of artifact.
#[derive(Debug, Clone, Copy, PartialEq, Eq, Structural)]
pub enum Kind {
    AccessToken,
    AuthorizationCode,
    ActivationCode,
}

/// The tag that starts the discriminator of an artifact of this kind.
pub open spec fn prefix_spec(kind: Kind) -> Seq<char> {
    match kind {
        Kind::AccessToken => "token-"@,
        Kind::AuthorizationCode => "authorization-code-"@,
        Kind::ActivationCode => "activation-code-"@,
    }
}

pub fn prefix(kind: Kind) -> (tag: &'static str)
    ensures
        tag@ == prefix_spec(kind),
{
    match kind {
        Kind::AccessToken => "token-",
        Kind::AuthorizationCode => "authorization-code-",
        Kind::ActivationCode => "activation-code-",
    }
}

/// What an artifact says once it is opened.
pub struct Claims {
    /// The discriminator: the kind's tag, then random text.
    pub salt: String,
    pub username: String,
    /// The client an authorization code was issued to; absent otherwise.
    pub client_id: Option<String>,
    /// Milliseconds since the epoch after which the artifact is refused.
    pub expiry_timestamp: u128,
}

pub struct ClaimsView {
    pub salt: Seq<char>,
    pub username: Seq<char>,
    pub client_id: Option<Seq<char>>,
    pub expiry_timestamp: u128,
}

/// The text of an optional string.
pub open spec fn option_text(text: Option<String>) -> Option<Seq<char>> {
    match text {
        Some(t) => Some(t@),
        None => None,
    }
}

impl View for Claims {
    type V = ClaimsView;

    open spec fn view(&self) -> ClaimsView {
        ClaimsView {
            salt: self.salt@,
            username: self.username@,
            client_id: option_text(self.client_id),
            expiry_timestamp: self.expiry_timestamp,
        }
    }
}

/// The JSON text that `serde_json::to_vec` writes for the four claims.
pub uninterp spec fn json_text(
    salt: Seq<char>,
    username: Seq<char>,
    client_id: Option<Seq<char>>,
    expiry_timestamp: u128,
) -> Seq<u8>;

/// The four claims that `serde_json::from_slice` reads from JSON text:
/// `None` where it reports an error.
pub uninterp spec fn json_claims(text: Seq<u8>) -> Option<
    (Seq<char>, Seq<char>, Option<Seq<char>>, u128),
>;

/// Calls `serde_json::to_vec` on the claims as a tuple; `None` where it
/// reports an error. Assumed: it reports none, since writing strings, an
/// optional string and an integer into a vector has no failing step; the
/// text depends on the claims alone; and `serde_json::from_slice` reads the
/// same claims back from it.
#[verifier::external_body]
fn json_write(
    salt: &String,
    username: &String,
    client_id: &Option<String>,
    expiry_timestamp: u128,
) -> (text: Option<Vec<u8>>)
    ensures
        text is Some,
        text matches Some(t) ==> t@ == json_text(
            salt@,
            username@,
            option_text(*client_id),
            expiry_timestamp,
        ) && json_claims(t@) == Some(
            (salt@, username@, option_text(*client_id), expiry_timestamp),
        ),
{
    serde_json::to_vec(&(salt, username, client_id, expiry_timestamp)).ok()
}

/// Calls `serde_json::from_slice` for a tuple of four claims; `None` where
/// it reports an error. Assumed: the result depends on the text alone.
#[verifier::external_body]
fn json_read(text: &Vec<u8>) -> (claims: Option<(String, String, Option<String>, u128)>)
    ensures
        match claims {
            Some(c) => json_claims(text@) == Some((c.0@, c.1@, option_text(c.2), c.3)),
            None => json_claims(text@) is None,
        },
{
    serde_json::from_slice(text).ok()
}

/// The claims that an artifact carries under `key`; `None` where it does not
/// open or holds no record of claims.
pub open spec fn claims_of(key: Seq<char>, artifact: Seq<char>) -> Option<ClaimsView> {
    match opened(key, artifact) {
        None => None,
        Some(text) => match json_claims(text) {
            None => None,
            Some(c) => Some(
                ClaimsView { salt: c.0, username: c.1, client_id: c.2, expiry_timestamp: c.3 },
            ),
        },
    }
}

/// The artifact that carries `claims` under `key`.
pub open spec fn artifact_of(key: Seq<char>, claims: ClaimsView) -> Seq<char> {
    sealed(
        key,
        json_text(claims.salt, claims.username, claims.client_id, claims.expiry_timestamp),
    )
}

/// Claims are of a kind when the discriminator starts with the kind's tag
/// and, for an authorization code, a client is named.
pub open spec fn of_kind(claims: ClaimsView, kind: Kind) -> bool {
    &&& prefix_spec(kind).is_prefix_of(claims.salt)
    &&& kind == Kind::AuthorizationCode ==> claims.client_id is Some
}

/// What [`read`] returns: the claims of an artifact of the kind asked for.
/// An artifact that does not open, holds no claims or is of another kind is
/// invalid.
pub open spec fn read_spec(key: Seq<char>, artifact: Seq<char>, kind: Kind) -> Result<
    ClaimsView,
    AuthError,
> {
    match claims_of(key, artifact) {
        None => Err(AuthError::InvalidToken),
        Some(claims) => if of_kind(claims, kind) {
            Ok(claims)
        } else {
            Err(AuthError::InvalidToken)
        },
    }
}

/// What [`accept`] returns at the clock reading `now` (`None`: the clock
/// failed). Claims of another kind are refused as invalid whatever the
/// clock says; claims of the kind asked for are expired once the clock has
/// passed their expiry, and accepted up to and at that instant.
pub open spec fn accept_spec(claims: ClaimsView, kind: Kind, now: Option<u128>) -> Result<
    ClaimsView,
    AuthError,
> {
    if !of_kind(claims, kind) {
        Err(AuthError::InvalidToken)
    } else {
        match now {
            None => Err(AuthError::InternalError),
            Some(instant) => if claims.expiry_timestamp < instant {
                Err(AuthError::ExpiredToken)
            } else {
                Ok(claims)
            },
        }
    }
}

/// What [`parse`] returns at the clock reading `now`: an artifact that does
/// not open or holds no claims is invalid; the claims of any other are
/// judged by [`accept_spec`].
pub open spec fn parse_spec(
    key: Seq<char>,
    artifact: Seq<char>,
    kind: Kind,
    now: Option<u128>,
) -> Result<ClaimsView, AuthError> {
    match claims_of(key, artifact) {
        None => Err(AuthError::InvalidToken),
        Some(claims) => accept_spec(claims, kind, now),
    }
}

/// The instant `lifetime` seconds after the clock reading `now`, in
/// milliseconds; `None` where the clock failed or the instant is beyond
/// what the timestamp can hold.
pub open spec fn expiry_spec(now: Option<u128>, lifetime: u64) -> Option<u128> {
    match now {
        Some(instant) if instant + lifetime * 1000 <= u128::MAX => Some(
            (instant + lifetime * 1000) as u128,
        ),
        _ => None,
    }
}

/// The claims that [`issue`] stamps.
pub open spec fn stamped(
    kind: Kind,
    nonce: Seq<char>,
    username: Seq<char>,
    client_id: Option<Seq<char>>,
    expiry_timestamp: u128,
) -> ClaimsView {
    ClaimsView { salt: prefix_spec(kind) + nonce, username, client_id, expiry_timestamp }
}

/// `artifact` carries exactly `claims` under `key`.
pub open spec fn carries(key: Seq<char>, artifact: Seq<char>, claims: ClaimsView) -> bool {
    artifact == artifact_of(key, claims) && claims_of(key, artifact) == Some(claims)
}

/// The text of a result that holds text.
pub open spec fn text_result(artifact: AuthResult<String>) -> AuthResult<Seq<char>> {
    match artifact {
        Ok(a) => Ok(a@),
        Err(e) => Err(e),
    }
}

/// The view of a result that holds claims.
pub open spec fn claims_result(claims: AuthResult<Claims>) -> AuthResult<ClaimsView> {
    match claims {
        Ok(c) => Ok(c@),
        Err(e) => Err(e),
    }
}

/// What [`issue`] returns. Without a clock reading, or with an expiry out of
/// range, the result is an internal error. Otherwise an artifact is owed:
/// the one that carries the stamped claims.
pub open spec fn issue_post(
    key: Seq<char>,
    kind: Kind,
    nonce: Seq<char>,
    username: Seq<char>,
    client_id: Option<Seq<char>>,
    now: Option<u128>,
    lifetime: u64,
    artifact: AuthResult<Seq<char>>,
) -> bool {
    match expiry_spec(now, lifetime) {
        None => artifact == Err::<Seq<char>, AuthError>(AuthError::InternalError),
        Some(instant) => artifact matches Ok(a) && carries(
            key,
            a,
            stamped(kind, nonce, username, client_id, instant),
        ),
    }
}

pub fn expiry(now: Option<u128>, lifetime: u64) -> (instant: Option<u128>)
    ensures
        instant == expiry_spec(now, lifetime),
{
    let span: u128 = (lifetime as u128) * 1000;
    match now {
        Some(t) => t.checked_add(span),
        None => None,
    }
}

/// Whether `text` begins with `tag`.
pub fn starts_with(text: &str, tag: &str) -> (found: bool)
    ensures
        found == tag@.is_prefix_of(text@),
{
    let n = tag.unicode_len();
    let m = text.unicode_len();
    if n > m {
        return false;
    }
    let mut i: usize = 0;
    while i < n
        invariant
            i <= n <= m,
            n == tag@.len(),
            m == text@.len(),
            forall|j: int| 0 <= j < i ==> text@[j] == tag@[j],
        decreases n - i,
    {
        if text.get_char(i) != tag.get_char(i) {
            assert(text@.subrange(0, n as int)[i as int] != tag@[i as int]);
            return false;
        }
        i += 1;
    }
    assert(tag@ =~= text@.subrange(0, n as int));
    true
}

/// Opens an artifact and reads its claims, whatever its kind and age.
pub fn decode(key: &String, artifact: &String) -> (claims: AuthResult<Claims>)
    ensures
        match claims_of(key@, artifact@) {
            Some(c) => claims matches Ok(found) && found@ == c,
            None => claims == Err::<Claims, AuthError>(AuthError::InvalidToken),
        },
{
    let text = open(key, artifact)?;
    match json_read(&text) {
        None => Err(AuthError::InvalidToken),
        Some(c) => Ok(Claims { salt: c.0, username: c.1, client_id: c.2, expiry_timestamp: c.3 }),
    }
}

/// Whether claims are of the kind asked for.
pub fn is_of_kind(claims: &Claims, kind: Kind) -> (matches: bool)
    ensures
        matches == of_kind(claims@, kind),
{
    if !starts_with(claims.salt.as_str(), prefix(kind)) {
        return false;
    }
    match kind {
        Kind::AuthorizationCode => claims.client_id.is_some(),
        _ => true,
    }
}

/// Opens an artifact and accepts it as one of `kind`, whatever its age.
pub fn read(key: &String, artifact: &String, kind: Kind) -> (claims: AuthResult<Claims>)
    ensures
        claims_result(claims) == read_spec(key@, artifact@, kind),
{
    let found = decode(key, artifact)?;
    if is_of_kind(&found, kind) {
        Ok(found)
    } else {
        Err(AuthError::InvalidToken)
    }
}

/// Judges claims that were read from an artifact: whether they are of the
/// kind asked for and, at the clock reading `now`, not yet expired.
pub fn accept(claims: Claims, kind: Kind, now: Option<u128>) -> (accepted: AuthResult<Claims>)
    ensures
        claims_result(accepted) == accept_spec(claims@, kind, now),
{
    if !is_of_kind(&claims, kind) {
        return Err(AuthError::InvalidToken);
    }
    match now {
        None => Err(AuthError::InternalError),
        Some(instant) => if claims.expiry_timestamp < instant {
            Err(AuthError::ExpiredToken)
        } else {
            Ok(claims)
        },
    }
}

/// Opens an artifact and accepts it as one of `kind` at the clock reading
/// `now`.
pub fn parse(key: &String, artifact: &String, kind: Kind, now: Option<u128>) -> (claims: AuthResult<
    Claims,
>)
    ensures
        claims_result(claims) == parse_spec(key@, artifact@, kind, now),
{
    let found = decode(key, artifact)?;
    accept(found, kind, now)
}

/// Writes an artifact of `kind` for `username` that expires `lifetime`
/// seconds after the clock reading `now`. The discriminator is the kind's
/// tag followed by `nonce`.
pub fn issue(
    key: &String,
    kind: Kind,
    nonce: &String,
    username: &String,
    client_id: Option<String>,
    now: Option<u128>,
    lifetime: u64,
) -> (artifact: AuthResult<String>)
    ensures
        issue_post(
            key@,
            kind,
            nonce@,
            username@,
            option_text(client_id),
            now,
            lifetime,
            text_result(artifact),
        ),
{
    let instant = match expiry(now, lifetime) {
        Some(t) => t,
        None => { return Err(AuthError::InternalError); },
    };
    let salt = prefix(kind).to_owned().concat(nonce.as_str());
    match json_write(&salt, username, &client_id, instant) {
        None => Err(AuthError::InternalError),
        Some(text) => Ok(seal(key, &text)),
    }
}

/// The tag of one kind never starts the discriminator of another.
pub proof fn lemma_tags_differ(issued: Kind, asked: Kind, nonce: Seq<char>)
    requires
        issued != asked,
    ensures
        !prefix_spec(asked).is_prefix_of(prefix_spec(issued) + nonce),
{
    reveal_strlit("token-");
    reveal_strlit("authorization-code-");
    reveal_strlit("activation-code-");
    let text = prefix_spec(issued) + nonce;
    let tag = prefix_spec(asked);
    if tag.is_prefix_of(text) {
        assert(text.subrange(0, tag.len() as int)[0] == tag[0]);
        assert(text.subrange(0, tag.len() as int)[1] == tag[1]);
        assert(text[0] == prefix_spec(issued)[0]);
        assert(text[1] == prefix_spec(issued)[1]);
    }
}

/// Round trip: an artifact that carries the claims stamped for a kind is
/// accepted as that kind at every instant up to and at its expiry, and
/// yields those claims.
pub proof fn lemma_round_trip(
    key: Seq<char>,
    artifact: Seq<char>,
    kind: Kind,
    nonce: Seq<char>,
    username: Seq<char>,
    client_id: Option<Seq<char>>,
    expiry_timestamp: u128,
    now: u128,
)
    requires
        carries(key, artifact, stamped(kind, nonce, username, client_id, expiry_timestamp)),
        kind == Kind::AuthorizationCode ==> client_id is Some,
        now <= expiry_timestamp,
    ensures
        parse_spec(key, artifact, kind, Some(now)) == Ok::<ClaimsView, AuthError>(
            stamped(kind, nonce, username, client_id, expiry_timestamp),
        ),
{
    assert(prefix_spec(kind) =~= (prefix_spec(kind) + nonce).subrange(
        0,
        prefix_spec(kind).len() as int,
    ));
}

/// Kind isolation: an artifact issued as one kind is refused as invalid when
/// it is presented as any other kind, whatever the clock says.
pub proof fn lemma_kind_isolation(
    key: Seq<char>,
    artifact: Seq<char>,
    issued: Kind,
    asked: Kind,
    nonce: Seq<char>,
    username: Seq<char>,
    client_id: Option<Seq<char>>,
    expiry_timestamp: u128,
    now: Option<u128>,
)
    requires
        carries(key, artifact, stamped(issued, nonce, username, client_id, expiry_timestamp)),
        issued != asked,
    ensures
        parse_spec(key, artifact, asked, now) == Err::<ClaimsView, AuthError>(
            AuthError::InvalidToken,
        ),
{
    lemma_tags_differ(issued, asked, nonce);
}

/// Expiry boundary: claims of the right kind are accepted while the clock
/// has not passed their expiry, the instant of expiry included, and are
/// refused as expired from the next millisecond on.
pub proof fn lemma_expiry_boundary(
    key: Seq<char>,
    artifact: Seq<char>,
    kind: Kind,
    claims: ClaimsView,
    now: u128,
)
    requires
        claims_of(key, artifact) == Some(claims),
        of_kind(claims, kind),
    ensures
        now <= claims.expiry_timestamp ==> parse_spec(key, artifact, kind, Some(now)) == Ok::<
            ClaimsView,
            AuthError,
        >(claims),
        now > claims.expiry_timestamp ==> parse_spec(key, artifact, kind, Some(now)) == Err::<
            ClaimsView,
            AuthError,
        >(AuthError::ExpiredToken),
{
}

} // verus!
