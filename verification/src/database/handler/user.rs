use vstd::prelude::*;
use crate::database::handler::DbResult;

verus! {

/// A registered account as the store holds it.
pub struct User {
    pub id: i32,
    pub username: String,
    /// The salted hash of the password.
    pub password: String,
    /// Random text mixed into the password before hashing; stored in clear.
    pub salt: String,
    pub email: String,
    pub is_activated: bool,
}

/// The mathematical value of a [`User`].
pub struct UserView {
    pub id: i32,
    pub username: Seq<char>,
    pub password: Seq<char>,
    pub salt: Seq<char>,
    pub email: Seq<char>,
    pub is_activated: bool,
}

impl View for User {
    type V = UserView;

    open spec fn view(&self) -> UserView {
        UserView {
            id: self.id,
            username: self.username@,
            password: self.password@,
            salt: self.salt@,
            email: self.email@,
            is_activated: self.is_activated,
        }
    }
}

/// The row inserted on registration; the account starts inactive.
pub struct NewUser<'a> {
    pub username: &'a String,
    pub email: &'a String,
    pub password: &'a String,
    pub salt: &'a String,
}

pub struct NewUserView {
    pub username: Seq<char>,
    pub email: Seq<char>,
    pub password: Seq<char>,
    pub salt: Seq<char>,
}

impl<'a> View for NewUser<'a> {
    type V = NewUserView;

    open spec fn view(&self) -> NewUserView {
        NewUserView {
            username: self.username@,
            email: self.email@,
            password: self.password@,
            salt: self.salt@,
        }
    }
}

/// View of the outcome of a user lookup.
pub open spec fn user_lookup_view(found: DbResult<User>) -> DbResult<UserView> {
    match found {
        Ok(user) => Ok(user@),
        Err(e) => Err(e),
    }
}

/// The account side of the credential store.
///
/// Each method comes with a relation between what was asked and what was
/// answered. An implementation may say what its answers are by giving the
/// relations a body of its own; left as they are, they hold of every answer.
/// The engine's contracts are stated over them, so they say for which
/// request an answer was given.
pub trait UserHandler {
    /// `outcome` answers an insertion of `row`.
    open spec fn inserted(&self, row: NewUserView, outcome: DbResult<()>) -> bool {
        true
    }

    /// `outcome` answers a lookup of `username`.
    open spec fn found(&self, username: Seq<char>, outcome: DbResult<UserView>) -> bool {
        true
    }

    /// `outcome` answers a request to mark `username` active.
    open spec fn activated(&self, username: Seq<char>, outcome: DbResult<usize>) -> bool {
        true
    }

    fn new_user(&self, new_user: &NewUser) -> (outcome: DbResult<()>)
        ensures
            self.inserted(new_user@, outcome),
    ;

    fn get_by_username(&self, username: &String) -> (outcome: DbResult<User>)
        ensures
            self.found(username@, user_lookup_view(outcome)),
    ;

    fn activate_by_username(&self, username: &String) -> (outcome: DbResult<usize>)
        ensures
            self.activated(username@, outcome),
    ;
}

} // verus!
