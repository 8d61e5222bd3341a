use vstd::prelude::*;
use crate::database::handler::{DbError, DbResult};

verus! {

/// A short link: a key, where it leads, and who owns it.
pub struct Url {
    pub key: String,
    pub target: String,
    pub username: String,
}

/// The row inserted for a new short link.
pub struct NewUser<'a> {
    pub key: &'a String,
    pub target: &'a String,
    pub username: &'a String,
}

/// The store of short links. Nothing is asked of its answers.
pub trait UrlHandler {
    fn get_by_key(&self, url_key: &String) -> DbResult<Url>;

    fn get_by_username(&self, username: &String, offset: i64, limit: i64) -> DbResult<Vec<Url>>;

    fn count_by_username(&self, username: &String) -> DbResult<i64>;

    fn get_by_key_and_username(&self, key: &String, username: &String) -> DbResult<Url>;

    fn insert(&self, key: &String, target: &String, username: &String) -> DbResult<()>;

    fn delete(&self, key: &String, username: &String) -> DbResult<usize>;

    fn delete_at_least_one(&self, key: &String, username: &String) -> DbResult<usize>;

    fn update(
        &self,
        old_key: &String,
        username: &String,
        new_key: &String,
        target: &String,
    ) -> DbResult<Url>;
}

/// A deletion that removed nothing is reported as `NotFound`; any other
/// answer of the store is handed on.
pub fn at_least_one(deleted: DbResult<usize>) -> (res: DbResult<usize>)
    ensures
        res == match deleted {
            Ok(count) if count == 0 => Err::<usize, DbError>(DbError::NotFound),
            other => other,
        },
{
    match deleted {
        Ok(count) => if count == 0 {
            Err(DbError::NotFound)
        } else {
            Ok(count)
        },
        Err(e) => Err(e),
    }
}

} // verus!
