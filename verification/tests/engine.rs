use std::cell::RefCell;
use std::rc::Rc;

use auth_engine::auth::codec::{issue, Kind};
use auth_engine::auth::crypto::hash_password;
use auth_engine::auth::engine::{authenticate_password, check_secret, let_in};
use auth_engine::auth::redirect::{
    is_well_formed, redirect_matches, redirect_verdict, strip_query,
};
use auth_engine::auth::{Auth, AuthError};
use auth_engine::database::handler::client_credential::{
    ClientCredential, ClientCredentialHandler,
};
use auth_engine::database::handler::user::{NewUser, User, UserHandler};
use auth_engine::database::handler::{DbError, DbResult};

#[derive(Clone)]
struct Row {
    username: String,
    email: String,
    password: String,
    salt: String,
    is_activated: bool,
}

#[derive(Clone)]
struct Users {
    rows: Rc<RefCell<Vec<Row>>>,
    broken: bool,
}

impl UserHandler for Users {
    fn new_user(&self, new_user: &NewUser) -> DbResult<()> {
        if self.broken {
            return Err(DbError::InternalError);
        }
        let mut rows = self.rows.borrow_mut();
        if rows.iter().any(|r| r.username == *new_user.username || r.email == *new_user.email) {
            return Err(DbError::DuplicateKey);
        }
        rows.push(Row {
            username: new_user.username.clone(),
            email: new_user.email.clone(),
            password: new_user.password.clone(),
            salt: new_user.salt.clone(),
            is_activated: false,
        });
        Ok(())
    }

    fn get_by_username(&self, username: &String) -> DbResult<User> {
        if self.broken {
            return Err(DbError::InternalError);
        }
        let rows = self.rows.borrow();
        match rows.iter().position(|r| r.username == *username) {
            None => Err(DbError::NotFound),
            Some(i) => Ok(User {
                id: i as i32,
                username: rows[i].username.clone(),
                password: rows[i].password.clone(),
                salt: rows[i].salt.clone(),
                email: rows[i].email.clone(),
                is_activated: rows[i].is_activated,
            }),
        }
    }

    fn activate_by_username(&self, username: &String) -> DbResult<usize> {
        if self.broken {
            return Err(DbError::InternalError);
        }
        let mut changed = 0;
        for row in self.rows.borrow_mut().iter_mut() {
            if row.username == *username {
                row.is_activated = true;
                changed += 1;
            }
        }
        Ok(changed)
    }
}

#[derive(Clone)]
struct Clients {
    rows: Rc<RefCell<Vec<(String, String, String)>>>,
}

impl ClientCredentialHandler for Clients {
    fn get_by_id(&self, id: &String) -> DbResult<ClientCredential> {
        match self.rows.borrow().iter().find(|r| r.0 == *id) {
            None => Err(DbError::NotFound),
            Some(r) => Ok(ClientCredential {
                id: r.0.clone(),
                secret: r.1.clone(),
                redirect_uri: r.2.clone(),
            }),
        }
    }
}

fn text(s: &str) -> String {
    s.to_string()
}

fn key() -> String {
    text("server-wide secret")
}

struct World {
    users: Users,
    clients: Clients,
    auth: Auth<Users, Clients>,
}

fn world() -> World {
    let users = Users { rows: Rc::new(RefCell::new(Vec::new())), broken: false };
    let clients = Clients {
        rows: Rc::new(RefCell::new(vec![(
            text("client42"),
            text("s3cret"),
            text("https://cb.example/cb"),
        )])),
    };
    let auth = Auth::new(key(), 3600, 60, 86_400, users.clone(), clients.clone());
    World { users, clients, auth }
}

fn broken_world() -> World {
    let users = Users { rows: Rc::new(RefCell::new(Vec::new())), broken: true };
    let clients = Clients { rows: Rc::new(RefCell::new(Vec::new())) };
    let auth = Auth::new(key(), 3600, 60, 86_400, users.clone(), clients.clone());
    World { users, clients, auth }
}

/// Stores a user whose password hash has a low work factor, so that the
/// tests that only need an account do not pay for the hashing.
fn seed(world: &World, username: &str, password: &str, is_activated: bool) {
    let salt = "seedsalt";
    world.users.rows.borrow_mut().push(Row {
        username: text(username),
        email: format!("{}@x.com", username),
        password: bcrypt::hash(format!("{}{}", password, salt), 4).unwrap(),
        salt: text(salt),
        is_activated,
    });
}

fn user(username: &str, password: &str, is_activated: bool) -> User {
    let salt = "seedsalt";
    User {
        id: 1,
        username: text(username),
        password: bcrypt::hash(format!("{}{}", password, salt), 4).unwrap(),
        salt: text(salt),
        email: format!("{}@x.com", username),
        is_activated,
    }
}

#[test]
fn scenario_register_activate_login_inspect() {
    let w = world();
    assert_eq!(w.auth.register(&text("alice"), &text("alice@x.com"), &text("pw1")), Ok(()));
    {
        let rows = w.users.rows.borrow();
        assert_eq!(rows.len(), 1);
        assert!(!rows[0].is_activated);
        assert_eq!(rows[0].salt.chars().count(), 30);
        assert_ne!(rows[0].password, "pw1");
    }
    assert_eq!(w.auth.get_token(&text("alice"), &text("pw1")), Err(AuthError::NotActivated));

    let (email, code) = w.auth.get_activation_code_with_email(&text("alice")).unwrap();
    assert_eq!(email, "alice@x.com");
    assert_eq!(w.auth.activate(&code), Ok(1));
    assert!(w.users.rows.borrow()[0].is_activated);

    let (token, refresh_token) = w.auth.get_token(&text("alice"), &text("pw1")).unwrap();
    assert_eq!(refresh_token.chars().count(), 60);
    assert!(refresh_token.chars().all(|c| c.is_ascii_alphanumeric()));
    let payload = w.auth.inspect(&token).unwrap();
    assert_eq!(payload.username, "alice");
    assert!(payload.salt.starts_with("token-"));
    assert_eq!(payload.salt.chars().count(), 36);
}

#[test]
fn scenario_authorization_code_exchange() {
    let w = world();
    seed(&w, "alice", "pw1", true);
    let code = w
        .auth
        .get_authorization_code(
            &text("alice"),
            &text("pw1"),
            &text("client42"),
            &text("https://cb.example/cb"),
        )
        .unwrap();
    let (token, _) = w.auth.exchange_token(&code, &text("s3cret")).unwrap();
    assert_eq!(w.auth.inspect(&token).unwrap().username, "alice");
    assert_eq!(w.auth.exchange_token(&code, &text("wrong")), Err(AuthError::InvalidClientID));
    let (again, _) = w.auth.exchange_token(&code, &text("s3cret")).unwrap();
    assert_eq!(w.auth.inspect(&again).unwrap().username, "alice");
}

#[test]
fn a_replayed_code_is_checked_against_expiry_only() {
    let w = world();
    seed(&w, "alice", "pw1", true);
    let code = w
        .auth
        .get_authorization_code_at(
            &text("alice"),
            &text("pw1"),
            &text("client42"),
            &text("https://cb.example/cb"),
            Some(1_000),
            &text("N0nce"),
        )
        .unwrap();
    for now in [1_000u128, 30_000, 61_000] {
        let (token, refresh) = w
            .auth
            .exchange_token_at(&code, &text("s3cret"), Some(now), &text("M"), text("refresh"))
            .unwrap();
        assert_eq!(refresh, "refresh");
        let payload = w.auth.inspect_at(&token, Some(now)).unwrap();
        assert_eq!(payload.username, "alice");
        assert_eq!(payload.salt, "token-M");
        assert_eq!(payload.expiry_timestamp, now + 3_600_000);
    }
    assert_eq!(
        w.auth.exchange_token_at(&code, &text("s3cret"), Some(61_001), &text("M"), text("r")),
        Err(AuthError::ExpiredToken)
    );
}

#[test]
fn an_unactivated_user_with_the_right_password_is_not_activated() {
    let w = world();
    seed(&w, "alice", "pw1", false);
    assert_eq!(w.auth.get_token(&text("alice"), &text("pw1")), Err(AuthError::NotActivated));
    assert_eq!(
        w.auth.get_token_at(&text("alice"), &text("pw1"), Some(0), &text("n"), text("r")),
        Err(AuthError::NotActivated)
    );
}

#[test]
fn a_wrong_password_does_not_reveal_whether_the_account_is_active() {
    let w = world();
    seed(&w, "alice", "pw1", false);
    seed(&w, "bob", "pw1", true);
    assert_eq!(w.auth.get_token(&text("alice"), &text("pwX")), Err(AuthError::WrongPassword));
    assert_eq!(w.auth.get_token(&text("bob"), &text("pwX")), Err(AuthError::WrongPassword));
}

#[test]
fn authenticate_decides_from_the_lookup() {
    assert!(matches!(authenticate_password(Err(DbError::NotFound), &text("pw1")), Err(AuthError::NotFound)));
    assert!(matches!(
        authenticate_password(Err(DbError::InternalError), &text("pw1")),
        Err(AuthError::InternalError)
    ));
    assert!(matches!(
        authenticate_password(Ok(user("alice", "pw1", true)), &text("pw2")),
        Err(AuthError::WrongPassword)
    ));
    assert!(matches!(
        authenticate_password(Ok(user("alice", "pw1", false)), &text("pw1")),
        Err(AuthError::NotActivated)
    ));
    let found = authenticate_password(Ok(user("alice", "pw1", true)), &text("pw1")).unwrap();
    assert_eq!(found.username, "alice");
    assert_eq!(found.email, "alice@x.com");
    let mut damaged = user("alice", "pw1", true);
    damaged.password = text("no hash");
    assert!(matches!(authenticate_password(Ok(damaged), &text("pw1")), Err(AuthError::CryptoError)));
}

#[test]
fn let_in_decides_from_the_record_and_the_verdict() {
    let verdicts = |is_activated: bool, verdict: Result<bool, AuthError>| {
        let_in(user("alice", "pw1", is_activated), verdict).map(|u| u.username)
    };
    assert_eq!(verdicts(true, Ok(true)), Ok(text("alice")));
    assert_eq!(verdicts(false, Ok(true)), Err(AuthError::NotActivated));
    assert_eq!(verdicts(true, Ok(false)), Err(AuthError::WrongPassword));
    assert_eq!(verdicts(false, Ok(false)), Err(AuthError::WrongPassword));
    assert_eq!(verdicts(true, Err(AuthError::CryptoError)), Err(AuthError::CryptoError));
    assert_eq!(verdicts(false, Err(AuthError::CryptoError)), Err(AuthError::CryptoError));
}

#[test]
fn a_client_lookup_that_fails_is_an_internal_error() {
    struct Broken;
    impl ClientCredentialHandler for Broken {
        fn get_by_id(&self, _id: &String) -> DbResult<ClientCredential> {
            Err(DbError::DuplicateKey)
        }
    }
    let w = world();
    let auth = Auth::new(key(), 3600, 60, 86_400, w.users.clone(), Broken);
    let code = auth.generate_auth_code(&text("alice"), &text("client42")).unwrap();
    assert_eq!(auth.exchange_token(&code, &text("s3cret")), Err(AuthError::InternalError));
    assert_eq!(
        auth.check_redirect_uri(&text("client42"), &text("https://cb.example/cb")),
        Err(AuthError::InternalError)
    );
}

#[test]
fn insert_hashed_hands_the_row_to_the_store() {
    let w = world();
    assert_eq!(
        w.auth.insert_hashed(&text("alice"), &text("alice@x.com"), &text("HASH"), &text("salt")),
        Ok(())
    );
    {
        let rows = w.users.rows.borrow();
        assert_eq!(rows.len(), 1);
        assert_eq!(rows[0].username, "alice");
        assert_eq!(rows[0].email, "alice@x.com");
        assert_eq!(rows[0].password, "HASH");
        assert_eq!(rows[0].salt, "salt");
    }
    assert_eq!(
        w.auth.insert_hashed(&text("alice"), &text("b@x.com"), &text("H"), &text("s")),
        Err(AuthError::UserAlreadyExist)
    );
}

#[test]
fn registration_stores_the_hash_of_the_password_under_the_salt() {
    let w = world();
    assert_eq!(
        w.auth.register_at(&text("alice"), &text("alice@x.com"), &text("pw1"), &text("salt")),
        Ok(())
    );
    assert_eq!(
        Ok(w.users.rows.borrow()[0].password.clone()),
        hash_password(&text("pw1"), &text("salt"))
    );
}

#[test]
fn login_of_an_unknown_user_is_not_found() {
    let w = world();
    assert_eq!(w.auth.get_token(&text("nobody"), &text("pw1")), Err(AuthError::NotFound));
    assert!(matches!(
        w.auth.get_potential_user(&text("nobody"), &text("pw1")),
        Err(AuthError::NotFound)
    ));
}

#[test]
fn registering_twice_is_user_already_exist() {
    let w = world();
    assert_eq!(
        w.auth.register_at(&text("alice"), &text("alice@x.com"), &text("pw1"), &text("salt")),
        Ok(())
    );
    assert_eq!(w.users.rows.borrow()[0].salt, "salt");
    assert_eq!(
        w.auth.register_at(&text("alice"), &text("other@x.com"), &text("pw2"), &text("salt")),
        Err(AuthError::UserAlreadyExist)
    );
    assert_eq!(w.users.rows.borrow().len(), 1);
}

#[test]
fn a_failing_store_is_an_internal_error() {
    let w = broken_world();
    assert_eq!(
        w.auth.register_at(&text("alice"), &text("alice@x.com"), &text("pw1"), &text("salt")),
        Err(AuthError::InternalError)
    );
    assert_eq!(w.auth.get_token(&text("alice"), &text("pw1")), Err(AuthError::InternalError));
    assert_eq!(
        w.auth.get_activation_code_with_email(&text("alice")),
        Err(AuthError::InternalError)
    );
    let code = w.auth.generate_activation_code(&text("alice")).unwrap();
    assert_eq!(w.auth.activate(&code), Err(AuthError::InternalError));
}

#[test]
fn activation_code_is_refused_for_unknown_and_for_active_users() {
    let w = world();
    seed(&w, "alice", "pw1", true);
    seed(&w, "bob", "pw1", false);
    assert_eq!(w.auth.get_activation_code_with_email(&text("nobody")), Err(AuthError::NotFound));
    assert_eq!(
        w.auth.get_activation_code_with_email(&text("alice")),
        Err(AuthError::UserAlreadyActivated)
    );
    let (email, code) = w
        .auth
        .get_activation_code_with_email_at(&text("bob"), Some(5_000), &text("N"))
        .unwrap();
    assert_eq!(email, "bob@x.com");
    assert_eq!(
        Ok(code),
        issue(&key(), Kind::ActivationCode, &text("N"), &text("bob"), None, Some(5_000), 86_400)
    );
}

#[test]
fn activation_is_idempotent_and_zero_rows_is_no_error() {
    let w = world();
    seed(&w, "bob", "pw1", false);
    let code = w.auth.generate_activation_code_at(&text("bob"), Some(1_000), &text("N")).unwrap();
    assert_eq!(w.auth.activate_at(&code, Some(1_000)), Ok(1));
    assert_eq!(w.auth.activate_at(&code, Some(86_401_000)), Ok(1));
    assert_eq!(w.auth.activate_at(&code, Some(86_401_001)), Err(AuthError::ExpiredToken));
    assert_eq!(w.auth.activate_at(&code, None), Err(AuthError::InternalError));
    let ghost = w.auth.generate_activation_code(&text("nobody")).unwrap();
    assert_eq!(w.auth.activate(&ghost), Ok(0));
}

#[test]
fn activation_refuses_other_kinds_and_garbage() {
    let w = world();
    seed(&w, "bob", "pw1", false);
    let token = w.auth.generate_token(&text("bob")).unwrap();
    let code = w.auth.generate_auth_code(&text("bob"), &text("client42")).unwrap();
    assert_eq!(w.auth.activate(&token), Err(AuthError::InvalidToken));
    assert_eq!(w.auth.activate(&code), Err(AuthError::InvalidToken));
    assert_eq!(w.auth.activate(&text("garbage")), Err(AuthError::InvalidToken));
    assert!(!w.users.rows.borrow()[0].is_activated);
}

#[test]
fn inspect_accepts_access_tokens_only() {
    let w = world();
    let activation = w.auth.generate_activation_code(&text("alice")).unwrap();
    let code = w.auth.generate_auth_code(&text("alice"), &text("client42")).unwrap();
    assert!(matches!(w.auth.inspect(&activation), Err(AuthError::InvalidToken)));
    assert!(matches!(w.auth.inspect(&code), Err(AuthError::InvalidToken)));
    assert!(matches!(w.auth.inspect(&text("")), Err(AuthError::InvalidToken)));
    assert!(matches!(w.auth.inspect_at(&activation, None), Err(AuthError::InvalidToken)));
}

#[test]
fn inspect_at_the_expiry_boundary() {
    let w = world();
    let token = w.auth.generate_token_at(&text("alice"), Some(1_000), &text("N")).unwrap();
    let payload = w.auth.inspect_at(&token, Some(3_601_000)).unwrap();
    assert_eq!(payload.username, "alice");
    assert_eq!(payload.salt, "token-N");
    assert_eq!(payload.expiry_timestamp, 3_601_000);
    assert!(w.auth.inspect_at(&token, Some(3_600_999)).is_ok());
    assert!(matches!(w.auth.inspect_at(&token, Some(3_601_001)), Err(AuthError::ExpiredToken)));
    assert!(matches!(w.auth.inspect_at(&token, None), Err(AuthError::InternalError)));
}

#[test]
fn a_token_of_another_server_is_invalid() {
    let w = world();
    let other =
        Auth::new(text("another secret"), 3600, 60, 86_400, w.users.clone(), w.clients.clone());
    let token = other.generate_token(&text("alice")).unwrap();
    assert!(matches!(w.auth.inspect(&token), Err(AuthError::InvalidToken)));
}

#[test]
fn lifetimes_are_per_kind() {
    let w = world();
    let now = Some(0);
    let token = w.auth.generate_token_at(&text("a"), now, &text("N")).unwrap();
    let code = w.auth.generate_auth_code_at(&text("a"), &text("c"), now, &text("N")).unwrap();
    let activation = w.auth.generate_activation_code_at(&text("a"), now, &text("N")).unwrap();
    assert_eq!(Ok(token), issue(&key(), Kind::AccessToken, &text("N"), &text("a"), None, now, 3600));
    assert_eq!(
        Ok(code),
        issue(&key(), Kind::AuthorizationCode, &text("N"), &text("a"), Some(text("c")), now, 60)
    );
    assert_eq!(
        Ok(activation),
        issue(&key(), Kind::ActivationCode, &text("N"), &text("a"), None, now, 86_400)
    );
}

#[test]
fn a_refresh_token_is_sixty_letters_and_digits() {
    let w = world();
    let token = w.auth.generate_refresh_token(&text("alice")).unwrap();
    assert_eq!(token.chars().count(), 60);
    assert!(token.chars().all(|c| c.is_ascii_alphanumeric()));
}

#[test]
fn redirect_uri_matches_exactly_once_the_query_is_removed() {
    let w = world();
    w.clients.rows.borrow_mut().push((text("a"), text("s"), text("https://a.com/cb")));
    let check = |uri: &str| w.auth.check_redirect_uri(&text("a"), &text(uri));
    assert_eq!(check("https://a.com/cb"), Ok(true));
    assert_eq!(check("https://a.com/cb?x=1"), Ok(true));
    assert_eq!(check("https://a.com/cb?x=1&y=?"), Ok(true));
    assert_eq!(check("https://a.com/cb?"), Ok(true));
    assert_eq!(check("https://a.com/other"), Ok(false));
    assert_eq!(check("https://a.com/other?x=https://a.com/cb"), Ok(false));
    assert_eq!(check("https://a.com/cb/"), Ok(false));
    assert_eq!(check("https://a.com/CB"), Ok(false));
    assert_eq!(check("http://a.com/cb"), Ok(false));
    assert_eq!(check("https://a.com/cb#frag"), Ok(false));
    assert_eq!(check("https://a.com/cb?x=1#frag"), Ok(false));
    assert_eq!(check("https://b.com/cb"), Ok(false));
}

#[test]
fn redirect_uri_is_compared_as_it_was_supplied() {
    let w = world();
    w.clients.rows.borrow_mut().push((text("a"), text("s"), text("https://a.com/cb")));
    w.clients.rows.borrow_mut().push((text("bare"), text("s"), text("https://a.com")));
    assert_eq!(w.auth.check_redirect_uri(&text("a"), &text("HTTPS://A.com/cb")), Ok(false));
    assert_eq!(w.auth.check_redirect_uri(&text("a"), &text(" https://a.com/cb")), Ok(false));
    assert_eq!(w.auth.check_redirect_uri(&text("a"), &text("https://a.com:443/cb")), Ok(false));
    assert_eq!(w.auth.check_redirect_uri(&text("bare"), &text("https://a.com")), Ok(true));
    assert_eq!(w.auth.check_redirect_uri(&text("bare"), &text("https://a.com?x=1")), Ok(true));
    assert_eq!(w.auth.check_redirect_uri(&text("bare"), &text("https://a.com/")), Ok(false));
}

#[test]
fn the_query_is_removed_character_for_character() {
    let strip = |uri: &str| strip_query(&text(uri));
    assert_eq!(strip("https://a.com/cb?x=1"), "https://a.com/cb");
    assert_eq!(strip("https://a.com/cb"), "https://a.com/cb");
    assert_eq!(strip("https://a.com/cb?"), "https://a.com/cb");
    assert_eq!(strip("https://a.com/cb?x=1#frag"), "https://a.com/cb#frag");
    assert_eq!(strip("https://a.com/cb#frag?x=1"), "https://a.com/cb#frag?x=1");
    assert_eq!(strip("https://a.com/cb?x=1?y=2#f#g"), "https://a.com/cb#f#g");
    assert_eq!(strip("?x=1"), "");
    assert_eq!(strip("#"), "#");
    assert_eq!(strip(""), "");
    assert_eq!(strip("https://ü.example/é?ö=1#ä"), "https://ü.example/é#ä");
}

#[test]
fn redirect_verdict_from_the_parsers_answer() {
    let registered = text("https://a.com/cb");
    assert_eq!(redirect_verdict(&registered, &text("https://a.com/cb?x=1"), true), Ok(true));
    assert_eq!(redirect_verdict(&registered, &text("https://a.com/cc?x=1"), true), Ok(false));
    assert_eq!(
        redirect_verdict(&registered, &text("https://a.com/cb?x=1"), false),
        Err(AuthError::InvalidRedirectUri)
    );
    assert!(is_well_formed(&text("https://a.com/cb?x=1")));
    assert!(is_well_formed(&text("mailto:someone@example.com")));
    assert!(!is_well_formed(&text("/relative/path")));
    assert!(!is_well_formed(&text("https://")));
    assert!(!is_well_formed(&text("")));
}

#[test]
fn redirect_uri_errors() {
    let w = world();
    assert_eq!(
        w.auth.check_redirect_uri(&text("nobody"), &text("https://cb.example/cb")),
        Err(AuthError::InvalidClientID)
    );
    assert_eq!(
        w.auth.check_redirect_uri(&text("client42"), &text("not a uri")),
        Err(AuthError::InvalidRedirectUri)
    );
    assert_eq!(
        w.auth.check_redirect_uri(&text("client42"), &text("")),
        Err(AuthError::InvalidRedirectUri)
    );
    assert_eq!(
        redirect_matches(Err(DbError::InternalError), &text("https://cb.example/cb")),
        Err(AuthError::InternalError)
    );
    assert_eq!(
        redirect_matches(Err(DbError::DuplicateKey), &text("https://cb.example/cb")),
        Err(AuthError::InternalError)
    );
    assert_eq!(
        redirect_matches(Err(DbError::NotFound), &text("not a uri")),
        Err(AuthError::InvalidClientID)
    );
}

#[test]
fn authorization_code_checks_the_redirect_before_the_password() {
    let w = world();
    seed(&w, "alice", "pw1", true);
    let ask = |user: &str, password: &str, client: &str, uri: &str| {
        w.auth.get_authorization_code(&text(user), &text(password), &text(client), &text(uri))
    };
    assert_eq!(
        ask("alice", "wrong", "client42", "https://evil.example/cb"),
        Err(AuthError::InvalidRedirectUri)
    );
    assert_eq!(
        ask("alice", "pw1", "nobody", "https://cb.example/cb"),
        Err(AuthError::InvalidClientID)
    );
    assert_eq!(
        ask("alice", "wrong", "client42", "https://cb.example/cb"),
        Err(AuthError::WrongPassword)
    );
    assert_eq!(
        ask("nobody", "pw1", "client42", "https://cb.example/cb?state=1"),
        Err(AuthError::NotFound)
    );
    assert!(ask("alice", "pw1", "client42", "https://cb.example/cb?state=1").is_ok());
}

#[test]
fn exchange_of_a_code_whose_client_is_gone_is_invalid_token() {
    let w = world();
    let code = w.auth.generate_auth_code(&text("alice"), &text("client42")).unwrap();
    w.clients.rows.borrow_mut().clear();
    assert_eq!(w.auth.exchange_token(&code, &text("s3cret")), Err(AuthError::InvalidToken));
}

#[test]
fn exchange_refuses_other_kinds_and_garbage() {
    let w = world();
    let token = w.auth.generate_token(&text("alice")).unwrap();
    let activation = w.auth.generate_activation_code(&text("alice")).unwrap();
    assert_eq!(w.auth.exchange_token(&token, &text("s3cret")), Err(AuthError::InvalidToken));
    assert_eq!(w.auth.exchange_token(&activation, &text("s3cret")), Err(AuthError::InvalidToken));
    assert_eq!(w.auth.exchange_token(&text("zzz"), &text("s3cret")), Err(AuthError::InvalidToken));
}

#[test]
fn check_secret_decides_from_the_lookup() {
    let client = || ClientCredential {
        id: text("client42"),
        secret: text("s3cret"),
        redirect_uri: text("https://cb.example/cb"),
    };
    assert_eq!(check_secret(Ok(client()), &text("s3cret")), Ok(()));
    assert_eq!(check_secret(Ok(client()), &text("S3cret")), Err(AuthError::InvalidClientID));
    assert_eq!(check_secret(Ok(client()), &text("")), Err(AuthError::InvalidClientID));
    assert_eq!(check_secret(Err(DbError::NotFound), &text("s3cret")), Err(AuthError::InvalidToken));
    assert_eq!(
        check_secret(Err(DbError::InternalError), &text("s3cret")),
        Err(AuthError::InternalError)
    );
    assert_eq!(
        check_secret(Err(DbError::DuplicateKey), &text("s3cret")),
        Err(AuthError::InternalError)
    );
}
