use auth_engine::auth::{Auth, AuthError};
use auth_engine::database::handler::client_credential::{
    ClientCredential, ClientCredentialHandler,
};
use auth_engine::database::handler::user::{NewUser, User, UserHandler};
use auth_engine::database::handler::{DbError, DbResult};
use auth_engine::url_shortener::utils::{authenticate, authenticate_at, Credentials, Rejection};

struct NoUsers;

impl UserHandler for NoUsers {
    fn new_user(&self, _new_user: &NewUser) -> DbResult<()> {
        Err(DbError::InternalError)
    }

    fn get_by_username(&self, _username: &String) -> DbResult<User> {
        Err(DbError::NotFound)
    }

    fn activate_by_username(&self, _username: &String) -> DbResult<usize> {
        Ok(0)
    }
}

struct NoClients;

impl ClientCredentialHandler for NoClients {
    fn get_by_id(&self, _id: &String) -> DbResult<ClientCredential> {
        Err(DbError::NotFound)
    }
}

fn engine() -> Auth<NoUsers, NoClients> {
    Auth::new("server-wide secret".to_string(), 3600, 60, 86_400, NoUsers, NoClients)
}

fn rejection(res: Result<auth_engine::auth::model::TokenPayload, Rejection>) -> Rejection {
    match res {
        Ok(_) => panic!("the request was accepted"),
        Err(r) => r,
    }
}

#[test]
fn a_request_without_the_header_is_unauthorized() {
    let auth = engine();
    let expected = Rejection { error: AuthError::InvalidToken, status: 401 };
    assert_eq!(rejection(authenticate(&auth, Credentials::Missing)), expected);
    assert_eq!(rejection(authenticate_at(&auth, Credentials::Missing, Some(0))), expected);
}

#[test]
fn an_unreadable_header_is_a_bad_request() {
    let auth = engine();
    let expected = Rejection { error: AuthError::InvalidToken, status: 400 };
    assert_eq!(rejection(authenticate(&auth, Credentials::Unreadable)), expected);
    assert_eq!(
        rejection(authenticate(&auth, Credentials::Token("garbage".to_string()))),
        expected
    );
}

#[test]
fn a_token_in_the_header_is_inspected() {
    let auth = engine();
    let token =
        auth.generate_token_at(&"alice".to_string(), Some(1_000), &"N".to_string()).unwrap();
    let payload = authenticate_at(&auth, Credentials::Token(token.clone()), Some(2_000)).unwrap();
    assert_eq!(payload.username, "alice");
    assert_eq!(
        rejection(authenticate_at(&auth, Credentials::Token(token.clone()), Some(3_601_001))),
        Rejection { error: AuthError::ExpiredToken, status: 401 }
    );
    assert_eq!(
        rejection(authenticate_at(&auth, Credentials::Token(token), None)),
        Rejection { error: AuthError::InternalError, status: 500 }
    );
    let live = auth.generate_token(&"bob".to_string()).unwrap();
    assert_eq!(authenticate(&auth, Credentials::Token(live)).unwrap().username, "bob");
}
