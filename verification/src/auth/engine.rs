//! The operations of the authorization engine.
//!
//! The engine keeps no state of its own. Each operation is a short sequence
//! of store requests and local checks. What an operation takes from outside
//! the program (the clock's reading, fresh random text) is a parameter of
//! the function whose name ends in `_at`; the function without the suffix
//! reads the clock, draws the random text and calls the other.

use vstd::prelude::*;
use crate::auth::clock::unix_millis;
use crate::auth::codec::{
    expiry_spec, issue, issue_post, lemma_round_trip, parse, parse_spec, stamped, text_result,
    ClaimsView, Kind,
};
use crate::auth::crypto::{
    all_alphanumeric, generate_salt, hash_password, hash_password_spec, random_text,
    verify_password, verify_password_spec, AuthResult, SALT_LENGTH,
};
use crate::auth::error::{from_store, store_error, store_result, AuthError};
use crate::auth::model::{
    token_payload_of, token_payload_result, AuthCode, RefreshToken, Token, TokenPayload,
    TokenPayloadView,
};
use crate::auth::redirect::{redirect_matches, redirect_spec};
use crate::database::handler::client_credential::{
    client_lookup_view, ClientCredential, ClientCredentialHandler, ClientCredentialView,
};
use crate::database::handler::user::{
    user_lookup_view, NewUser, NewUserView, User, UserHandler, UserView,
};
use crate::database::handler::{DbError, DbResult};

verus! {

/// Number of characters of a refresh token.
pub const REFRESH_TOKEN_LENGTH: usize = 60;

/// Text fit to follow a kind's tag in a discriminator, or to salt a password.
pub open spec fn is_salt(text: Seq<char>) -> bool {
    text.len() == SALT_LENGTH && all_alphanumeric(text)
}

/// Text fit to be a refresh token.
pub open spec fn is_refresh_token(text: Seq<char>) -> bool {
    text.len() == REFRESH_TOKEN_LENGTH && all_alphanumeric(text)
}

/// The view of a result that holds a user.
pub open spec fn user_result(user: AuthResult<User>) -> AuthResult<UserView> {
    match user {
        Ok(u) => Ok(u@),
        Err(e) => Err(e),
    }
}

/// The texts of a result that holds two strings.
pub open spec fn pair_result(pair: AuthResult<(String, String)>) -> AuthResult<
    (Seq<char>, Seq<char>),
> {
    match pair {
        Ok(p) => Ok((p.0@, p.1@)),
        Err(e) => Err(e),
    }
}

/// The second text of a result that holds two.
pub open spec fn second(pair: AuthResult<(Seq<char>, Seq<char>)>) -> AuthResult<Seq<char>> {
    match pair {
        Ok(p) => Ok(p.1),
        Err(e) => Err(e),
    }
}

/// The first text of a result that holds two.
pub open spec fn first(pair: AuthResult<(Seq<char>, Seq<char>)>) -> AuthResult<Seq<char>> {
    match pair {
        Ok(p) => Ok(p.0),
        Err(e) => Err(e),
    }
}

/// What [`let_in`] returns. The password's verdict comes first: a failed
/// check is handed on, a wrong password is refused as such whether or not
/// the account is active. Only a caller who has proved the password learns
/// that the account is not activated.
pub open spec fn let_in_spec(user: UserView, verdict: AuthResult<bool>) -> AuthResult<UserView> {
    match verdict {
        Err(e) => Err(e),
        Ok(false) => Err(AuthError::WrongPassword),
        Ok(true) => if user.is_activated {
            Ok(user)
        } else {
            Err(AuthError::NotActivated)
        },
    }
}

/// Decides, from a user's record and the verdict on the password, whether
/// the user is let in.
pub fn let_in(user: User, verdict: AuthResult<bool>) -> (res: AuthResult<User>)
    ensures
        user_result(res) == let_in_spec(user@, verdict),
{
    if verdict? {
        if !user.is_activated {
            Err(AuthError::NotActivated)
        } else {
            Ok(user)
        }
    } else {
        Err(AuthError::WrongPassword)
    }
}

/// What [`authenticate_password`] returns. A failed lookup is reported as
/// the store reports it; a user that was found is let in on the verdict
/// of the password check.
pub open spec fn authenticate_password_spec(
    lookup: DbResult<UserView>,
    password: Seq<char>,
) -> AuthResult<UserView> {
    match lookup {
        Err(e) => Err(store_error(e)),
        Ok(user) => let_in_spec(user, verify_password_spec(user.password, password, user.salt)),
    }
}

/// Decides, from the outcome of the user lookup, whether the password opens
/// the account.
pub fn authenticate_password(lookup: DbResult<User>, password: &String) -> (user: AuthResult<User>)
    ensures
        user_result(user) == authenticate_password_spec(user_lookup_view(lookup), password@),
{
    let user = from_store(lookup)?;
    let verdict = verify_password(&user.password, password, &user.salt);
    let_in(user, verdict)
}

/// Activation gating: for an account that is not activated, the right
/// password is answered with `NotActivated`; a wrong password is answered
/// with `WrongPassword`, whether or not the account is active, and so
/// reveals nothing of the account's state.
pub proof fn lemma_activation_gating(user: UserView)
    ensures
        !user.is_activated ==> let_in_spec(user, Ok(true)) == Err::<UserView, AuthError>(
            AuthError::NotActivated,
        ),
        let_in_spec(user, Ok(false)) == Err::<UserView, AuthError>(AuthError::WrongPassword),
{
}

/// What [`check_secret`] returns. A client that no longer exists makes the
/// code invalid, any other failure of the lookup is internal; a secret that
/// differs from the registered one in any character is an
/// `InvalidClientID`.
pub open spec fn secret_spec(lookup: DbResult<ClientCredentialView>, client_secret: Seq<char>) -> AuthResult<()> {
    match lookup {
        Err(DbError::NotFound) => Err(AuthError::InvalidToken),
        Err(_) => Err(AuthError::InternalError),
        Ok(client) => if client.secret == client_secret {
            Ok(())
        } else {
            Err(AuthError::InvalidClientID)
        },
    }
}

/// Decides, from the outcome of the client lookup, whether the secret
/// presented with an authorization code is the client's.
pub fn check_secret(lookup: DbResult<ClientCredential>, client_secret: &String) -> (verdict:
    AuthResult<()>)
    ensures
        verdict == secret_spec(client_lookup_view(lookup), client_secret@),
{
    match lookup {
        Err(DbError::NotFound) => Err(AuthError::InvalidToken),
        Err(_) => Err(AuthError::InternalError),
        Ok(client) => if client.secret == *client_secret {
            Ok(())
        } else {
            Err(AuthError::InvalidClientID)
        },
    }
}

/// What [`Auth::inspect_at`] returns.
pub open spec fn inspect_spec(key: Seq<char>, token: Seq<char>, now: Option<u128>) -> AuthResult<
    TokenPayloadView,
> {
    match parse_spec(key, token, Kind::AccessToken, now) {
        Ok(claims) => Ok(token_payload_of(claims)),
        Err(e) => Err(e),
    }
}

/// The engine: the server's key, the three lifetimes in seconds, and the
/// two sides of the credential store.
pub struct Auth<U: UserHandler, C: ClientCredentialHandler> {
    cypher_key: String,
    token_lifetime: u64,
    auth_code_lifetime: u64,
    activation_code_lifetime: u64,
    user_handler: U,
    client_credential_handler: C,
}

impl<U: UserHandler, C: ClientCredentialHandler> Auth<U, C> {
    /// The key all artifacts are sealed with.
    pub closed spec fn key(&self) -> Seq<char> {
        self.cypher_key@
    }

    /// Seconds an access token lives.
    pub closed spec fn token_life(&self) -> u64 {
        self.token_lifetime
    }

    /// Seconds an authorization code lives.
    pub closed spec fn auth_code_life(&self) -> u64 {
        self.auth_code_lifetime
    }

    /// Seconds an activation code lives.
    pub closed spec fn activation_code_life(&self) -> u64 {
        self.activation_code_lifetime
    }

    /// The account side of the store.
    pub closed spec fn users(&self) -> U {
        self.user_handler
    }

    /// The client side of the store.
    pub closed spec fn clients(&self) -> C {
        self.client_credential_handler
    }

    pub fn new(
        cypher_key: String,
        token_lifetime: u64,
        auth_code_lifetime: u64,
        activation_code_lifetime: u64,
        user_handler: U,
        client_credential_handler: C,
    ) -> (auth: Self)
        ensures
            auth.key() == cypher_key@,
            auth.token_life() == token_lifetime,
            auth.auth_code_life() == auth_code_lifetime,
            auth.activation_code_life() == activation_code_lifetime,
            auth.users() == user_handler,
            auth.clients() == client_credential_handler,
    {
        Auth {
            cypher_key,
            token_lifetime,
            auth_code_lifetime,
            activation_code_lifetime,
            user_handler,
            client_credential_handler,
        }
    }

    /// An access token and the refresh token beside it were granted to
    /// `username`; without a clock reading, or with an expiry out of range,
    /// the result is an internal error instead.
    pub open spec fn granted(
        &self,
        username: Seq<char>,
        now: Option<u128>,
        nonce: Seq<char>,
        refresh_token: Seq<char>,
        res: AuthResult<(Seq<char>, Seq<char>)>,
    ) -> bool {
        &&& issue_post(
            self.key(),
            Kind::AccessToken,
            nonce,
            username,
            None,
            now,
            self.token_life(),
            first(res),
        )
        &&& res matches Ok(pair) ==> pair.1 == refresh_token
    }

    /// What [`Auth::get_potential_user`] returns: the store was asked for
    /// `username`, and its answer decided.
    pub open spec fn authenticated(
        &self,
        username: Seq<char>,
        password: Seq<char>,
        res: AuthResult<UserView>,
    ) -> bool {
        exists|lookup: DbResult<UserView>| #[trigger]
            self.users().found(username, lookup) && res == authenticate_password_spec(lookup, password)
    }

    /// What [`Auth::insert_hashed`] returns: the row was handed to the
    /// store, whose answer is the result.
    pub open spec fn inserted(
        &self,
        username: Seq<char>,
        email: Seq<char>,
        hashed: Seq<char>,
        salt: Seq<char>,
        res: AuthResult<()>,
    ) -> bool {
        exists|outcome: DbResult<()>| #[trigger]
            self.users().inserted(
                (NewUserView { username, email, password: hashed, salt }),
                outcome,
            ) && res == store_result(outcome)
    }

    /// What [`Auth::register_at`] returns: the row that holds the salt and
    /// the hash of the password under it was handed to the store, whose
    /// answer is the result.
    pub open spec fn registered(
        &self,
        username: Seq<char>,
        email: Seq<char>,
        password: Seq<char>,
        salt: Seq<char>,
        res: AuthResult<()>,
    ) -> bool {
        self.inserted(username, email, hash_password_spec(password, salt), salt, res)
    }

    /// What [`Auth::get_activation_code_with_email_at`] returns. An unknown
    /// user is reported as the store reports it, an active one is refused;
    /// otherwise the user's address comes back with a fresh activation code.
    pub open spec fn activation_code_at(
        &self,
        username: Seq<char>,
        now: Option<u128>,
        nonce: Seq<char>,
        res: AuthResult<(Seq<char>, Seq<char>)>,
    ) -> bool {
        exists|lookup: DbResult<UserView>| #[trigger]
            self.users().found(username, lookup) && match lookup {
                Err(e) => res == Err::<(Seq<char>, Seq<char>), AuthError>(store_error(e)),
                Ok(user) => if user.is_activated {
                    res == Err::<(Seq<char>, Seq<char>), AuthError>(
                        AuthError::UserAlreadyActivated,
                    )
                } else {
                    &&& issue_post(
                        self.key(),
                        Kind::ActivationCode,
                        nonce,
                        username,
                        None,
                        now,
                        self.activation_code_life(),
                        second(res),
                    )
                    &&& res matches Ok(pair) ==> pair.0 == user.email
                },
            }
    }

    /// What [`Auth::activate_at`] returns. A code that does not parse as an
    /// activation code is refused with the parser's error; otherwise the
    /// store was asked to activate the user the code names, and its answer
    /// is the result. Zero rows changed is no error.
    pub open spec fn activation_at(
        &self,
        activation_code: Seq<char>,
        now: Option<u128>,
        res: AuthResult<usize>,
    ) -> bool {
        match parse_spec(self.key(), activation_code, Kind::ActivationCode, now) {
            Err(e) => res == Err::<usize, AuthError>(e),
            Ok(claims) => exists|outcome: DbResult<usize>| #[trigger]
                self.users().activated(claims.username, outcome) && res == store_result(outcome),
        }
    }

    /// What [`Auth::get_token_at`] returns.
    pub open spec fn token_at(
        &self,
        username: Seq<char>,
        password: Seq<char>,
        now: Option<u128>,
        nonce: Seq<char>,
        refresh_token: Seq<char>,
        res: AuthResult<(Seq<char>, Seq<char>)>,
    ) -> bool {
        exists|lookup: DbResult<UserView>| #[trigger]
            self.users().found(username, lookup) && match authenticate_password_spec(lookup, password) {
                Err(e) => res == Err::<(Seq<char>, Seq<char>), AuthError>(e),
                Ok(user) => self.granted(user.username, now, nonce, refresh_token, res),
            }
    }

    /// What [`Auth::check_redirect_uri`] returns: the store was asked for
    /// the client, and its answer decided.
    pub open spec fn redirect_checked(
        &self,
        client_id: Seq<char>,
        redirect_uri: Seq<char>,
        res: AuthResult<bool>,
    ) -> bool {
        exists|lookup: DbResult<ClientCredentialView>| #[trigger]
            self.clients().found(client_id, lookup) && res == redirect_spec(lookup, redirect_uri)
    }

    /// What [`Auth::get_authorization_code_at`] returns. The redirect URI
    /// is checked first, then the password; the code binds the user to the
    /// client.
    pub open spec fn authorization_code_at(
        &self,
        username: Seq<char>,
        password: Seq<char>,
        client_id: Seq<char>,
        redirect_uri: Seq<char>,
        now: Option<u128>,
        nonce: Seq<char>,
        res: AuthResult<Seq<char>>,
    ) -> bool {
        exists|client: DbResult<ClientCredentialView>| #[trigger]
            self.clients().found(client_id, client) && match redirect_spec(client, redirect_uri) {
                Err(e) => res == Err::<Seq<char>, AuthError>(e),
                Ok(false) => res == Err::<Seq<char>, AuthError>(AuthError::InvalidRedirectUri),
                Ok(true) => exists|lookup: DbResult<UserView>| #[trigger]
                    self.users().found(username, lookup) && match authenticate_password_spec(
                        lookup,
                        password,
                    ) {
                        Err(e) => res == Err::<Seq<char>, AuthError>(e),
                        Ok(user) => issue_post(
                            self.key(),
                            Kind::AuthorizationCode,
                            nonce,
                            user.username,
                            Some(client_id),
                            now,
                            self.auth_code_life(),
                            res,
                        ),
                    },
            }
    }

    /// What [`Auth::exchange_token_at`] returns. The code is parsed, then
    /// the client it names is looked up and the secret compared; the token
    /// is granted to the user the code names. Nothing records that a code
    /// was used: until it expires it can be exchanged again.
    pub open spec fn exchange_at(
        &self,
        auth_code: Seq<char>,
        client_secret: Seq<char>,
        now: Option<u128>,
        nonce: Seq<char>,
        refresh_token: Seq<char>,
        res: AuthResult<(Seq<char>, Seq<char>)>,
    ) -> bool {
        match parse_spec(self.key(), auth_code, Kind::AuthorizationCode, now) {
            Err(e) => res == Err::<(Seq<char>, Seq<char>), AuthError>(e),
            Ok(claims) => exists|client: DbResult<ClientCredentialView>| #[trigger]
                self.clients().found(claims.client_id->0, client) && match secret_spec(
                    client,
                    client_secret,
                ) {
                    Err(e) => res == Err::<(Seq<char>, Seq<char>), AuthError>(e),
                    Ok(_) => self.granted(claims.username, now, nonce, refresh_token, res),
                },
        }
    }

    /// A granted access token is accepted by inspection at every instant up
    /// to and at its expiry, one token lifetime after it was granted, and
    /// names the user it was granted to.
    pub proof fn lemma_granted_token_inspects(
        &self,
        username: Seq<char>,
        now: u128,
        nonce: Seq<char>,
        token: Seq<char>,
        refresh_token: Seq<char>,
        later: u128,
    )
        requires
            self.granted(
                username,
                Some(now),
                nonce,
                refresh_token,
                Ok((token, refresh_token)),
            ),
            later <= now + self.token_life() * 1000,
        ensures
            inspect_spec(self.key(), token, Some(later)) == Ok::<TokenPayloadView, AuthError>(
                TokenPayloadView {
                    salt: "token-"@ + nonce,
                    username,
                    expiry_timestamp: (now + self.token_life() * 1000) as u128,
                },
            ),
    {
        let instant = expiry_spec(Some(now), self.token_life())->0;
        lemma_round_trip(
            self.key(),
            token,
            Kind::AccessToken,
            nonce,
            username,
            None,
            instant,
            later,
        );
    }

    /// An authorization code issued to a client is accepted as one at every
    /// instant up to and at its expiry, and binds the user to that client:
    /// an exchange then turns on the client's lookup and secret alone.
    pub proof fn lemma_issued_code_is_accepted(
        &self,
        username: Seq<char>,
        client_id: Seq<char>,
        now: u128,
        nonce: Seq<char>,
        code: Seq<char>,
        later: u128,
    )
        requires
            issue_post(
                self.key(),
                Kind::AuthorizationCode,
                nonce,
                username,
                Some(client_id),
                Some(now),
                self.auth_code_life(),
                Ok(code),
            ),
            later <= now + self.auth_code_life() * 1000,
        ensures
            parse_spec(self.key(), code, Kind::AuthorizationCode, Some(later)) == Ok::<
                ClaimsView,
                AuthError,
            >(
                stamped(
                    Kind::AuthorizationCode,
                    nonce,
                    username,
                    Some(client_id),
                    (now + self.auth_code_life() * 1000) as u128,
                ),
            ),
    {
        let instant = expiry_spec(Some(now), self.auth_code_life())->0;
        lemma_round_trip(
            self.key(),
            code,
            Kind::AuthorizationCode,
            nonce,
            username,
            Some(client_id),
            instant,
            later,
        );
    }

    /// Looks the user up and checks the password, then the activation.
    pub fn get_potential_user(&self, username: &String, password: &String) -> (user: AuthResult<
        User,
    >)
        ensures
            self.authenticated(username@, password@, user_result(user)),
    {
        let lookup = self.user_handler.get_by_username(username);
        assert(self.users().found(username@, user_lookup_view(lookup)));
        authenticate_password(lookup, password)
    }

    /// Hands the row of a new user, the password already hashed, to the
    /// store.
    pub fn insert_hashed(
        &self,
        username: &String,
        email: &String,
        hashed: &String,
        salt: &String,
    ) -> (res: AuthResult<()>)
        ensures
            self.inserted(username@, email@, hashed@, salt@, res),
    {
        let user = NewUser { username, email, password: hashed, salt };
        let outcome = self.user_handler.new_user(&user);
        assert(self.users().inserted(user@, outcome));
        from_store(outcome)
    }

    /// Registers an inactive user whose password is salted with `salt`.
    pub fn register_at(
        &self,
        username: &String,
        email: &String,
        password: &String,
        salt: &String,
    ) -> (res: AuthResult<()>)
        ensures
            self.registered(username@, email@, password@, salt@, res),
    {
        let hashed = hash_password(password, salt)?;
        self.insert_hashed(username, email, &hashed, salt)
    }

    /// Registers an inactive user under a fresh salt. A uniqueness conflict
    /// in the store is `UserAlreadyExist`.
    pub fn register(&self, username: &String, email: &String, password: &String) -> (res:
        AuthResult<()>)
        ensures
            exists|salt: Seq<char>|
                is_salt(salt) && #[trigger] self.registered(
                    username@,
                    email@,
                    password@,
                    salt,
                    res,
                ),
    {
        let salt = generate_salt();
        self.register_at(username, email, password, &salt)
    }

    /// Issues an access token for `username`.
    pub fn generate_token_at(&self, username: &String, now: Option<u128>, nonce: &String) -> (token:
        AuthResult<Token>)
        ensures
            issue_post(
                self.key(),
                Kind::AccessToken,
                nonce@,
                username@,
                None,
                now,
                self.token_life(),
                text_result(token),
            ),
    {
        issue(
            &self.cypher_key,
            Kind::AccessToken,
            nonce,
            username,
            None,
            now,
            self.token_lifetime,
        )
    }

    /// Issues an access token for `username` that expires a token's
    /// lifetime from now.
    pub fn generate_token(&self, username: &String) -> (token: AuthResult<Token>)
        ensures
            exists|now: Option<u128>, nonce: Seq<char>|
                is_salt(nonce) && #[trigger] issue_post(
                    self.key(),
                    Kind::AccessToken,
                    nonce,
                    username@,
                    None,
                    now,
                    self.token_life(),
                    text_result(token),
                ),
    {
        let nonce = generate_salt();
        self.generate_token_at(username, unix_millis(), &nonce)
    }

    /// A fresh refresh token: sixty random letters and digits. No operation
    /// ever reads one back.
    pub fn generate_refresh_token(&self, _username: &String) -> (token: AuthResult<RefreshToken>)
        ensures
            token matches Ok(t) && is_refresh_token(t@),
    {
        Ok(random_text(REFRESH_TOKEN_LENGTH))
    }

    /// Issues an authorization code that binds `username` to `client_id`.
    pub fn generate_auth_code_at(
        &self,
        username: &String,
        client_id: &String,
        now: Option<u128>,
        nonce: &String,
    ) -> (code: AuthResult<AuthCode>)
        ensures
            issue_post(
                self.key(),
                Kind::AuthorizationCode,
                nonce@,
                username@,
                Some(client_id@),
                now,
                self.auth_code_life(),
                text_result(code),
            ),
    {
        issue(
            &self.cypher_key,
            Kind::AuthorizationCode,
            nonce,
            username,
            Some(client_id.clone()),
            now,
            self.auth_code_lifetime,
        )
    }

    /// Issues an authorization code that expires a code's lifetime from
    /// now.
    pub fn generate_auth_code(&self, username: &String, client_id: &String) -> (code: AuthResult<
        AuthCode,
    >)
        ensures
            exists|now: Option<u128>, nonce: Seq<char>|
                is_salt(nonce) && #[trigger] issue_post(
                    self.key(),
                    Kind::AuthorizationCode,
                    nonce,
                    username@,
                    Some(client_id@),
                    now,
                    self.auth_code_life(),
                    text_result(code),
                ),
    {
        let nonce = generate_salt();
        self.generate_auth_code_at(username, client_id, unix_millis(), &nonce)
    }

    /// Issues an activation code for `username`.
    pub fn generate_activation_code_at(
        &self,
        username: &String,
        now: Option<u128>,
        nonce: &String,
    ) -> (code: AuthResult<String>)
        ensures
            issue_post(
                self.key(),
                Kind::ActivationCode,
                nonce@,
                username@,
                None,
                now,
                self.activation_code_life(),
                text_result(code),
            ),
    {
        issue(
            &self.cypher_key,
            Kind::ActivationCode,
            nonce,
            username,
            None,
            now,
            self.activation_code_lifetime,
        )
    }

    /// Issues an activation code that expires an activation code's lifetime
    /// from now.
    pub fn generate_activation_code(&self, username: &String) -> (code: AuthResult<String>)
        ensures
            exists|now: Option<u128>, nonce: Seq<char>|
                is_salt(nonce) && #[trigger] issue_post(
                    self.key(),
                    Kind::ActivationCode,
                    nonce,
                    username@,
                    None,
                    now,
                    self.activation_code_life(),
                    text_result(code),
                ),
    {
        let nonce = generate_salt();
        self.generate_activation_code_at(username, unix_millis(), &nonce)
    }

    /// The address of a user who is not yet active, and an activation code
    /// to mail there.
    pub fn get_activation_code_with_email_at(
        &self,
        username: &String,
        now: Option<u128>,
        nonce: &String,
    ) -> (res: AuthResult<(String, String)>)
        ensures
            self.activation_code_at(username@, now, nonce@, pair_result(res)),
    {
        let lookup = self.user_handler.get_by_username(username);
        assert(self.users().found(username@, user_lookup_view(lookup)));
        let user = from_store(lookup)?;
        if user.is_activated {
            Err(AuthError::UserAlreadyActivated)
        } else {
            let code = self.generate_activation_code_at(username, now, nonce)?;
            Ok((user.email, code))
        }
    }

    pub fn get_activation_code_with_email(&self, username: &String) -> (res: AuthResult<
        (String, String),
    >)
        ensures
            exists|now: Option<u128>, nonce: Seq<char>|
                is_salt(nonce) && #[trigger] self.activation_code_at(
                    username@,
                    now,
                    nonce,
                    pair_result(res),
                ),
    {
        let nonce = generate_salt();
        self.get_activation_code_with_email_at(username, unix_millis(), &nonce)
    }

    /// Marks active the user whom a valid activation code names; returns
    /// the number of rows the store changed.
    pub fn activate_at(&self, activation_code: &String, now: Option<u128>) -> (res: AuthResult<
        usize,
    >)
        ensures
            self.activation_at(activation_code@, now, res),
    {
        let claims = parse(&self.cypher_key, activation_code, Kind::ActivationCode, now)?;
        let outcome = self.user_handler.activate_by_username(&claims.username);
        assert(self.users().activated(claims@.username, outcome));
        from_store(outcome)
    }

    pub fn activate(&self, activation_code: &String) -> (res: AuthResult<usize>)
        ensures
            exists|now: Option<u128>| #[trigger] self.activation_at(activation_code@, now, res),
    {
        self.activate_at(activation_code, unix_millis())
    }

    /// Password login: an access token and a refresh token for a user who
    /// proves the password and is active.
    pub fn get_token_at(
        &self,
        username: &String,
        password: &String,
        now: Option<u128>,
        nonce: &String,
        refresh_token: RefreshToken,
    ) -> (res: AuthResult<(Token, RefreshToken)>)
        ensures
            self.token_at(username@, password@, now, nonce@, refresh_token@, pair_result(res)),
    {
        let potential_user = self.get_potential_user(username, password)?;
        let token = self.generate_token_at(&potential_user.username, now, nonce)?;
        Ok((token, refresh_token))
    }

    pub fn get_token(&self, username: &String, password: &String) -> (res: AuthResult<
        (Token, RefreshToken),
    >)
        ensures
            exists|now: Option<u128>, nonce: Seq<char>, refresh_token: Seq<char>|
                is_salt(nonce) && is_refresh_token(refresh_token) && #[trigger] self.token_at(
                    username@,
                    password@,
                    now,
                    nonce,
                    refresh_token,
                    pair_result(res),
                ),
    {
        let nonce = generate_salt();
        let refresh_token = self.generate_refresh_token(username)?;
        self.get_token_at(username, password, unix_millis(), &nonce, refresh_token)
    }

    /// Whether `redirect_uri`, its query removed, is the URI registered for
    /// the client.
    pub fn check_redirect_uri(&self, client_id: &String, redirect_uri: &String) -> (res:
        AuthResult<bool>)
        ensures
            self.redirect_checked(client_id@, redirect_uri@, res),
    {
        let lookup = self.client_credential_handler.get_by_id(client_id);
        assert(self.clients().found(client_id@, client_lookup_view(lookup)));
        redirect_matches(lookup, redirect_uri)
    }

    /// An authorization code for a user who proves the password, issued to
    /// a client whose redirect URI is the registered one.
    pub fn get_authorization_code_at(
        &self,
        username: &String,
        password: &String,
        client_id: &String,
        redirect_uri: &String,
        now: Option<u128>,
        nonce: &String,
    ) -> (code: AuthResult<AuthCode>)
        ensures
            self.authorization_code_at(
                username@,
                password@,
                client_id@,
                redirect_uri@,
                now,
                nonce@,
                text_result(code),
            ),
    {
        if !self.check_redirect_uri(client_id, redirect_uri)? {
            return Err(AuthError::InvalidRedirectUri);
        }
        let potential_user = self.get_potential_user(username, password)?;
        self.generate_auth_code_at(&potential_user.username, client_id, now, nonce)
    }

    pub fn get_authorization_code(
        &self,
        username: &String,
        password: &String,
        client_id: &String,
        redirect_uri: &String,
    ) -> (code: AuthResult<AuthCode>)
        ensures
            exists|now: Option<u128>, nonce: Seq<char>|
                is_salt(nonce) && #[trigger] self.authorization_code_at(
                    username@,
                    password@,
                    client_id@,
                    redirect_uri@,
                    now,
                    nonce,
                    text_result(code),
                ),
    {
        let nonce = generate_salt();
        self.get_authorization_code_at(
            username,
            password,
            client_id,
            redirect_uri,
            unix_millis(),
            &nonce,
        )
    }

    /// Exchanges an authorization code and the client's secret for an
    /// access token and a refresh token.
    pub fn exchange_token_at(
        &self,
        auth_code_string: &String,
        client_secret: &String,
        now: Option<u128>,
        nonce: &String,
        refresh_token: RefreshToken,
    ) -> (res: AuthResult<(Token, RefreshToken)>)
        ensures
            self.exchange_at(
                auth_code_string@,
                client_secret@,
                now,
                nonce@,
                refresh_token@,
                pair_result(res),
            ),
    {
        let claims = parse(&self.cypher_key, auth_code_string, Kind::AuthorizationCode, now)?;
        let client_id = match claims.client_id {
            Some(id) => id,
            None => { return Err(AuthError::InvalidToken); },
        };
        let lookup = self.client_credential_handler.get_by_id(&client_id);
        assert(self.clients().found(claims@.client_id->0, client_lookup_view(lookup)));
        check_secret(lookup, client_secret)?;
        let token = self.generate_token_at(&claims.username, now, nonce)?;
        Ok((token, refresh_token))
    }

    pub fn exchange_token(&self, auth_code_string: &String, client_secret: &String) -> (res:
        AuthResult<(Token, RefreshToken)>)
        ensures
            exists|now: Option<u128>, nonce: Seq<char>, refresh_token: Seq<char>|
                is_salt(nonce) && is_refresh_token(refresh_token) && #[trigger] self.exchange_at(
                    auth_code_string@,
                    client_secret@,
                    now,
                    nonce,
                    refresh_token,
                    pair_result(res),
                ),
    {
        let nonce = generate_salt();
        let refresh_token = random_text(REFRESH_TOKEN_LENGTH);
        self.exchange_token_at(
            auth_code_string,
            client_secret,
            unix_millis(),
            &nonce,
            refresh_token,
        )
    }

    /// Validates an access token at the clock reading `now` and returns
    /// what it says. No store is consulted.
    pub fn inspect_at(&self, encrypted_token: &String, now: Option<u128>) -> (payload: AuthResult<
        TokenPayload,
    >)
        ensures
            token_payload_result(payload) == inspect_spec(self.key(), encrypted_token@, now),
    {
        let claims = parse(&self.cypher_key, encrypted_token, Kind::AccessToken, now)?;
        Ok(TokenPayload::from_claims(claims))
    }

    pub fn inspect(&self, encrypted_token: &String) -> (payload: AuthResult<TokenPayload>)
        ensures
            exists|now: Option<u128>|
                token_payload_result(payload) == #[trigger] inspect_spec(
                    self.key(),
                    encrypted_token@,
                    now,
                ),
    {
        self.inspect_at(encrypted_token, unix_millis())
    }
}

} // verus!
