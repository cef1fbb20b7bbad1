use vstd::prelude::*;
use vstd::string::StringExecFns;

verus! {

/// Application-level failure: an HTTP status code together with a message
/// that the controller renders verbatim as the response body.
#[derive(Debug)]
pub struct AppError {
    pub code: u16,
    pub message: String,
}

/// Failure raised by the storage layer, before it is wrapped into an
/// [`AppError`]: either the addressed row does not exist, or the database
/// itself failed with a message.
#[derive(Debug)]
pub enum DbRepoError {
    NotFound,
    Database(String),
}

impl AppError {
    /// Builds an error from a status code and a message.
    pub fn new(code: u16, message: &str) -> (e: AppError)
        ensures
            e.code == code,
            e.message@ == message@,
    {
        AppError { code, message: String::from_str(message) }
    }

    /// Wraps a storage failure into the application error that the
    /// controller renders: a missing row becomes 404, any database
    /// failure becomes 500 with the database's message kept verbatim.
    pub fn from_db(e: DbRepoError) -> (r: AppError)
        ensures
            e matches DbRepoError::NotFound ==> r.code == 404 && r.message@ == "not found"@,
            e matches DbRepoError::Database(m) ==> r.code == 500 && r.message@ == m@,
    {
        match e {
            DbRepoError::NotFound => AppError::new(404, "not found"),
            DbRepoError::Database(m) => AppError { code: 500, message: m },
        }
    }
}

} // verus!
