//! Validation of a client's redirect URI.

use vstd::prelude::*;
use vstd::string::StringExecFns;
use vstd::string::StrSliceExecFns;
use crate::auth::crypto::AuthResult;
use crate::auth::error::AuthError;
use crate::database::handler::client_credential::{
    client_lookup_view, ClientCredential, ClientCredentialView,
};
use crate::database::handler::{DbError, DbResult};

verus! {

#[verifier::external_type_specification]
#[verifier::external_body]
pub struct ExUrlParseError(url::ParseError);

/// Whether `Url::parse` accepts the text as a URI.
pub uninterp spec fn uri_parses(uri: Seq<char>) -> bool;

/// Calls `Url::parse` and drops the URL. Assumed: whether the text is
/// accepted depends on the text alone.
#[verifier::external_body]
fn parse_uri(uri: &String) -> (parsed: Result<(), url::ParseError>)
    ensures
        (parsed is Ok) == uri_parses(uri@),
{
    url::Url::parse(uri).map(|_| ())
}

/// Whether the text is a well-formed URI.
pub fn is_well_formed(uri: &String) -> (parses: bool)
    ensures
        parses == uri_parses(uri@),
{
    parse_uri(uri).is_ok()
}

/// The index of the first `c` in `text`, or the length of `text` where it
/// holds none.
pub open spec fn first_index(text: Seq<char>, c: char) -> int
    decreases text.len(),
{
    if text.len() == 0 {
        0
    } else if text[0] == c {
        0
    } else {
        1 + first_index(text.drop_first(), c)
    }
}

/// A URI without its query: the text from the first `?` up to the fragment,
/// which the first `#` starts, is cut out. A `?` inside the fragment is no
/// query.
pub open spec fn without_query(uri: Seq<char>) -> Seq<char> {
    let fragment = first_index(uri, '#');
    let query = first_index(uri.subrange(0, fragment), '?');
    uri.subrange(0, query) + uri.subrange(fragment, uri.len() as int)
}

/// An index is the first of a character when the character stands there,
/// or the text ends there, and does not stand before.
pub proof fn lemma_first_index(text: Seq<char>, c: char, at: int)
    requires
        0 <= at <= text.len(),
        forall|j: int| 0 <= j < at ==> text[j] != c,
        at < text.len() ==> text[at] == c,
    ensures
        first_index(text, c) == at,
    decreases at,
{
    if at > 0 {
        let rest = text.drop_first();
        assert forall|j: int| 0 <= j < at - 1 implies rest[j] != c by {
            assert(rest[j] == text[j + 1]);
        }
        lemma_first_index(rest, c, at - 1);
    }
}

/// The index of the first `c` among the first `end` characters of `text`.
fn first_of(text: &str, c: char, end: usize) -> (at: usize)
    requires
        end <= text@.len(),
    ensures
        at == first_index(text@.subrange(0, end as int), c),
        at <= end,
{
    let mut i: usize = 0;
    while i < end
        invariant
            i <= end <= text@.len(),
            forall|j: int| 0 <= j < i ==> text@[j] != c,
        decreases end - i,
    {
        if text.get_char(i) == c {
            proof {
                lemma_first_index(text@.subrange(0, end as int), c, i as int);
            }
            return i;
        }
        i += 1;
    }
    proof {
        lemma_first_index(text@.subrange(0, end as int), c, end as int);
    }
    end
}

/// Removes the query from a URI, character for character.
pub fn strip_query(uri: &String) -> (stripped: String)
    ensures
        stripped@ == without_query(uri@),
{
    let text = uri.as_str();
    let length = text.unicode_len();
    assert(text@.subrange(0, length as int) =~= text@);
    let fragment = first_of(text, '#', length);
    let query = first_of(text, '?', fragment);
    text.substring_char(0, query).to_owned().concat(text.substring_char(fragment, length))
}

/// The text of a URI as `url::Url` writes it once a name and a value were
/// added to its query. `None` where `Url::parse_with_params` refuses the
/// text.
pub uninterp spec fn uri_with_pair(uri: Seq<char>, name: Seq<char>, value: Seq<char>) -> Option<
    Seq<char>,
>;

/// Calls `Url::parse_with_params` with one pair and hands the URL back as
/// text. Assumed: the result depends on the three texts alone.
#[verifier::external_body]
fn append_query_pair(uri: &String, name: &str, value: &String) -> (extended: Result<
    String,
    url::ParseError,
>)
    ensures
        match extended {
            Ok(s) => uri_with_pair(uri@, name@, value@) == Some(s@),
            Err(_) => uri_with_pair(uri@, name@, value@) is None,
        },
{
    Ok(url::Url::parse_with_params(uri, &[(name, value)])?.into())
}

/// A URI with one more pair in its query; `None` where the URI does not
/// parse.
pub fn with_query_pair(uri: &String, name: &str, value: &String) -> (extended: Option<String>)
    ensures
        match uri_with_pair(uri@, name@, value@) {
            Some(s) => extended matches Some(found) && found@ == s,
            None => extended is None,
        },
{
    match append_query_pair(uri, name, value) {
        Ok(s) => Some(s),
        Err(_) => None,
    }
}

/// What [`redirect_verdict`] returns. A URI that is not well formed is an
/// `InvalidRedirectUri`; otherwise the answer is whether the URI as it was
/// supplied, its query removed, is the registered one character for
/// character.
pub open spec fn redirect_verdict_spec(
    registered: Seq<char>,
    redirect_uri: Seq<char>,
    well_formed: bool,
) -> AuthResult<bool> {
    if well_formed {
        Ok(registered == without_query(redirect_uri))
    } else {
        Err(AuthError::InvalidRedirectUri)
    }
}

/// Decides, from the registered URI, the supplied URI and whether the
/// parser accepted it, if the supplied URI is the registered one.
pub fn redirect_verdict(registered: &String, redirect_uri: &String, well_formed: bool) -> (verdict:
    AuthResult<bool>)
    ensures
        verdict == redirect_verdict_spec(registered@, redirect_uri@, well_formed),
{
    if well_formed {
        Ok(*registered == strip_query(redirect_uri))
    } else {
        Err(AuthError::InvalidRedirectUri)
    }
}

/// What [`redirect_matches`] returns. An unknown client is an
/// `InvalidClientID`, any other failure of the lookup is internal; for a
/// client that was found the verdict is that of [`redirect_verdict_spec`].
pub open spec fn redirect_spec(
    lookup: DbResult<ClientCredentialView>,
    redirect_uri: Seq<char>,
) -> AuthResult<bool> {
    match lookup {
        Err(DbError::NotFound) => Err(AuthError::InvalidClientID),
        Err(_) => Err(AuthError::InternalError),
        Ok(client) => redirect_verdict_spec(
            client.redirect_uri,
            redirect_uri,
            uri_parses(redirect_uri),
        ),
    }
}

/// Decides, from the outcome of the client lookup, whether a redirect URI
/// is the one registered for the client.
pub fn redirect_matches(lookup: DbResult<ClientCredential>, redirect_uri: &String) -> (verdict:
    AuthResult<bool>)
    ensures
        verdict == redirect_spec(client_lookup_view(lookup), redirect_uri@),
{
    match lookup {
        Err(DbError::NotFound) => Err(AuthError::InvalidClientID),
        Err(_) => Err(AuthError::InternalError),
        Ok(client) => redirect_verdict(
            &client.redirect_uri,
            redirect_uri,
            is_well_formed(redirect_uri),
        ),
    }
}

/// Exact match: the answer is `true` exactly for a well-formed URI that,
/// its query removed, is the registered one character for character; any
/// other well-formed URI gives `false`.
pub proof fn lemma_redirect_exact_match(client: ClientCredentialView, redirect_uri: Seq<char>)
    ensures
        redirect_spec(Ok(client), redirect_uri) == Ok::<bool, AuthError>(true) <==> (uri_parses(
            redirect_uri,
        ) && without_query(redirect_uri) == client.redirect_uri),
        redirect_spec(Ok(client), redirect_uri) == Ok::<bool, AuthError>(false) <==> (uri_parses(
            redirect_uri,
        ) && without_query(redirect_uri) != client.redirect_uri),
{
}

/// A query is ignored: a URI that holds neither `?` nor `#`, followed by
/// `?` and any query, is that URI again once the query is removed.
pub proof fn lemma_query_is_ignored(uri: Seq<char>, query: Seq<char>)
    requires
        forall|i: int| 0 <= i < uri.len() ==> uri[i] != '?' && uri[i] != '#',
        forall|i: int| 0 <= i < query.len() ==> query[i] != '#',
    ensures
        without_query(uri + seq!['?'] + query) == uri,
        without_query(uri) == uri,
{
    let full = uri + seq!['?'] + query;
    lemma_first_index(full, '#', full.len() as int);
    assert(full.subrange(0, full.len() as int) =~= full);
    lemma_first_index(full, '?', uri.len() as int);
    assert(full.subrange(0, uri.len() as int) + full.subrange(
        full.len() as int,
        full.len() as int,
    ) =~= uri);
    lemma_first_index(uri, '#', uri.len() as int);
    assert(uri.subrange(0, uri.len() as int) =~= uri);
    lemma_first_index(uri, '?', uri.len() as int);
    assert(uri.subrange(0, uri.len() as int) + uri.subrange(uri.len() as int, uri.len() as int)
        =~= uri);
}

} // verus!
