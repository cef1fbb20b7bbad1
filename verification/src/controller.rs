use vstd::prelude::*;
use crate::error::AppError;
use crate::repo::{contains_id, create_post, delete_ok_post, update_ok_post, UserRepo};
use crate::use_case;
use crate::user::{User, UserName};

verus! {

// The controller: one handler per route. Each handler validates the
// request, calls the use-case through the shared application state, and
// returns either the entity to serialize or the application error whose
// code and message the transport writes verbatim as status and body.

/// Process-wide state handed to every request handler: the repository
/// collection, chosen at construction time and immutable thereafter. The
/// store inside the production variant stands in for the database that a
/// handler reaches through its per-request connection.
pub struct AppState {
    pub repo: UserRepo,
}

impl AppState {
    /// Well-formedness of the state: its repository is well formed.
    pub open spec fn wf(&self) -> bool {
        self.repo.wf()
    }

    /// State over an empty production repository.
    pub fn new() -> (s: AppState)
        ensures
            s.wf(),
            s.repo is Store,
            s.repo.users().len() == 0,
            s.repo.can_assign_id(),
    {
        AppState { repo: UserRepo::new() }
    }

    /// State over a chosen repository variant.
    pub fn with_repo(repo: UserRepo) -> (s: AppState)
        ensures
            s.repo == repo,
    {
        AppState { repo }
    }
}

/// Handles `GET /`: lists all users.
pub fn index(app: &AppState) -> (r: Result<Vec<User>, AppError>)
    ensures
        app.repo is Store <==> r is Ok,
        r matches Ok(v) ==> v@.map_values(|u: User| u@) == app.repo.users(),
        app.repo matches UserRepo::Failing(m) ==> (r matches Err(e) && e.code == 500 && e.message@
            == m@),
{
    use_case::find_all(&app.repo)
}

/// Handles `POST /add`: rejects an age above 32 with status 400 before
/// the use-case is ever reached, and otherwise creates the user.
pub fn add(app: &mut AppState, user: UserName) -> (r: Result<User, AppError>)
    requires
        old(app).wf(),
        old(app).repo.can_assign_id(),
    ensures
        final(app).wf(),
        user.age > 32 ==> *final(app) == *old(app),
        user.age > 32 ==> (r matches Err(e) && e.code == 400 && e.message@
            == "age must be less than 32"@),
        user.age <= 32 ==> (old(app).repo is Store <==> r is Ok),
        r matches Ok(u) ==> create_post(
            old(app).repo.users(),
            final(app).repo.users(),
            u@,
            user.name@,
            user.age as int,
        ),
        old(app).repo is Failing ==> *final(app) == *old(app),
        user.age <= 32 ==> (old(app).repo matches UserRepo::Failing(m) ==> (r matches Err(e)
            && e.code == 500 && e.message@ == m@)),
{
    let name = user.name;
    let age = user.age;
    if age > 32 {
        return Err(AppError::new(400, "age must be less than 32"));
    }
    use_case::create(&mut app.repo, name.as_str(), age)
}

/// Handles `PUT /<id>`: overwrites the fields of the user stored under
/// `id`. No age bound is checked here: the service validates only on
/// create.
pub fn update(app: &mut AppState, id: i32, user: UserName) -> (r: Result<User, AppError>)
    requires
        old(app).wf(),
    ensures
        final(app).wf(),
        old(app).repo is Store ==> (r is Ok <==> contains_id(old(app).repo.users(), id as int)),
        r matches Ok(u) ==> update_ok_post(
            old(app).repo.users(),
            final(app).repo.users(),
            u@,
            id as int,
            user.name@,
            user.age as int,
        ),
        old(app).repo is Store && r is Err ==> *final(app) == *old(app) && (r matches Err(e)
            && e.code == 404 && e.message@ == "not found"@),
        old(app).repo is Failing ==> *final(app) == *old(app) && (r matches Err(e) ==> e.code
            == 500),
        old(app).repo matches UserRepo::Failing(m) ==> (r matches Err(e) ==> e.code == 500
            && e.message@ == m@),
{
    let name = user.name;
    let age = user.age;
    use_case::update(&mut app.repo, id, name.as_str(), age)
}

/// Handles `DELETE /<id>`: removes the user stored under `id`.
pub fn delete(app: &mut AppState, id: i32) -> (r: Result<(), AppError>)
    requires
        old(app).wf(),
    ensures
        final(app).wf(),
        old(app).repo is Store ==> (r is Ok <==> contains_id(old(app).repo.users(), id as int)),
        r is Ok ==> delete_ok_post(old(app).repo.users(), final(app).repo.users(), id as int),
        r is Ok ==> !contains_id(final(app).repo.users(), id as int),
        old(app).repo is Store && r is Err ==> *final(app) == *old(app) && (r matches Err(e)
            && e.code == 404 && e.message@ == "not found"@),
        old(app).repo is Failing ==> *final(app) == *old(app) && (r matches Err(e) ==> e.code
            == 500),
        old(app).repo matches UserRepo::Failing(m) ==> (r matches Err(e) ==> e.code == 500
            && e.message@ == m@),
{
    use_case::delete(&mut app.repo, id)
}

} // verus!
