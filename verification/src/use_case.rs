use vstd::prelude::*;
use crate::error::{AppError, DbRepoError};
use crate::repo::{contains_id, create_post, delete_ok_post, update_ok_post, UserRepo};
use crate::user::User;

verus! {

// The use-case layer: one entry point per controller action, each a thin
// pass-through to the repository that wraps storage failures into
// application errors (missing row: 404, database failure: 500 with the
// database's message kept verbatim). It is the seam where future business
// rules would live.

/// Lists all users.
pub fn find_all(repo: &UserRepo) -> (r: Result<Vec<User>, AppError>)
    ensures
        repo is Store <==> r is Ok,
        r matches Ok(v) ==> v@.map_values(|u: User| u@) == repo.users(),
        repo matches UserRepo::Failing(m) ==> (r matches Err(e) && e.code == 500 && e.message@
            == m@),
{
    match repo.find_all() {
        Ok(v) => Ok(v),
        Err(e) => Err(AppError::from_db(e)),
    }
}

/// Creates a user with the given fields.
pub fn create(repo: &mut UserRepo, name: &str, age: i32) -> (r: Result<User, AppError>)
    requires
        old(repo).wf(),
        old(repo).can_assign_id(),
    ensures
        final(repo).wf(),
        *old(repo) is Store <==> r is Ok,
        r matches Ok(u) ==> create_post(
            old(repo).users(),
            final(repo).users(),
            u@,
            name@,
            age as int,
        ),
        *old(repo) is Failing ==> *final(repo) == *old(repo),
        *old(repo) matches UserRepo::Failing(m) ==> (r matches Err(e) ==> e.code == 500
            && e.message@ == m@),
{
    match repo.create(name, age) {
        Ok(u) => Ok(u),
        Err(e) => Err(AppError::from_db(e)),
    }
}

/// Overwrites the fields of the user stored under `id`.
pub fn update(repo: &mut UserRepo, id: i32, name: &str, age: i32) -> (r: Result<User, AppError>)
    requires
        old(repo).wf(),
    ensures
        final(repo).wf(),
        *old(repo) is Store ==> (r is Ok <==> contains_id(old(repo).users(), id as int)),
        r matches Ok(u) ==> update_ok_post(
            old(repo).users(),
            final(repo).users(),
            u@,
            id as int,
            name@,
            age as int,
        ),
        *old(repo) is Store && r is Err ==> *final(repo) == *old(repo) && (r matches Err(e)
            && e.code == 404 && e.message@ == "not found"@),
        *old(repo) is Failing ==> *final(repo) == *old(repo) && r is Err,
        *old(repo) matches UserRepo::Failing(m) ==> (r matches Err(e) ==> e.code == 500
            && e.message@ == m@),
{
    match repo.update(id, name, age) {
        Ok(u) => Ok(u),
        Err(e) => Err(AppError::from_db(e)),
    }
}

/// Removes the user stored under `id`.
pub fn delete(repo: &mut UserRepo, id: i32) -> (r: Result<(), AppError>)
    requires
        old(repo).wf(),
    ensures
        final(repo).wf(),
        *old(repo) is Store ==> (r is Ok <==> contains_id(old(repo).users(), id as int)),
        r is Ok ==> delete_ok_post(old(repo).users(), final(repo).users(), id as int),
        r is Ok ==> !contains_id(final(repo).users(), id as int),
        *old(repo) is Store && r is Err ==> *final(repo) == *old(repo) && (r matches Err(e)
            && e.code == 404 && e.message@ == "not found"@),
        *old(repo) is Failing ==> *final(repo) == *old(repo) && r is Err,
        *old(repo) matches UserRepo::Failing(m) ==> (r matches Err(e) ==> e.code == 500
            && e.message@ == m@),
{
    match repo.delete(id) {
        Ok(u) => Ok(u),
        Err(e) => Err(AppError::from_db(e)),
    }
}

} // verus!
