use vstd::prelude::*;
use vstd::pervasive::VecAdditionalExecFns;
use vstd::string::StringExecFns;
use crate::error::DbRepoError;
use crate::user::{User, UserView};

verus! {

/// True when some stored user carries the identifier `id`.
pub open spec fn contains_id(s: Seq<UserView>, id: int) -> bool {
    exists|i: int| 0 <= i < s.len() && s[i].id == id
}

/// True when no two stored users share an identifier.
pub open spec fn ids_unique(s: Seq<UserView>) -> bool {
    forall|i: int, j: int| 0 <= i < j < s.len() ==> s[i].id != s[j].id
}

/// What a create leaves behind: the new user carries the requested fields,
/// its identifier was not in use before, and it is appended to the store.
pub open spec fn create_post(
    pre: Seq<UserView>,
    post: Seq<UserView>,
    u: UserView,
    name: Seq<char>,
    age: int,
) -> bool {
    &&& u.name == name
    &&& u.age == age
    &&& !contains_id(pre, u.id)
    &&& post == pre.push(u)
}

/// What a successful update leaves behind: the addressed user now carries
/// the requested fields under its unchanged identifier, and every other
/// user is untouched.
pub open spec fn update_ok_post(
    pre: Seq<UserView>,
    post: Seq<UserView>,
    u: UserView,
    id: int,
    name: Seq<char>,
    age: int,
) -> bool {
    &&& u.id == id
    &&& u.name == name
    &&& u.age == age
    &&& post.len() == pre.len()
    &&& forall|j: int| 0 <= j < pre.len() && pre[j].id != id ==> post[j] == pre[j]
    &&& forall|j: int| 0 <= j < pre.len() && pre[j].id == id ==> post[j] == u
    &&& contains_id(pre, id)
}

/// What a successful delete leaves behind: exactly the addressed row is
/// taken out of the store.
pub open spec fn delete_ok_post(pre: Seq<UserView>, post: Seq<UserView>, id: int) -> bool {
    exists|i: int| 0 <= i < pre.len() && #[trigger] pre[i].id == id && post == pre.remove(i)
}

/// In-memory realization of the user repository: the stored users together
/// with the next identifier to assign. It stands in for the database that
/// the production service reaches through a per-request connection.
pub struct UserStore {
    pub users: Vec<User>,
    pub next_id: i32,
}

impl View for UserStore {
    type V = Seq<UserView>;

    open spec fn view(&self) -> Seq<UserView> {
        self.users@.map_values(|u: User| u@)
    }
}

impl UserStore {
    /// Invariant of the store: identifiers are unique, every stored
    /// identifier is below the next one to assign, and assignment starts
    /// at one.
    pub open spec fn wf(&self) -> bool {
        &&& ids_unique(self@)
        &&& forall|i: int| 0 <= i < self@.len() ==> #[trigger] self@[i].id < self.next_id
        &&& 1 <= self.next_id
    }

    /// An empty store.
    pub fn new() -> (s: UserStore)
        ensures
            s.wf(),
            s@.len() == 0,
            s.next_id == 1,
    {
        UserStore { users: Vec::new(), next_id: 1 }
    }

    /// Returns all stored users, in storage order.
    pub fn find_all(&self) -> (r: Vec<User>)
        ensures
            r@.map_values(|u: User| u@) == self@,
            r@.map_values(|u: User| u@).to_multiset() == self@.to_multiset(),
    {
        let mut out: Vec<User> = Vec::new();
        let n = self.users.len();
        let mut i: usize = 0;
        while i < n
            invariant
                n == self.users.len(),
                i <= n,
                out@.len() == i,
                forall|j: int| 0 <= j < i ==> #[trigger] out@[j]@ == self@[j],
            decreases n - i,
        {
            let u = self.users[i].duplicate();
            out.push(u);
            i += 1;
        }
        proof {
            assert(out@.map_values(|u: User| u@) =~= self@);
        }
        out
    }

    /// Inserts a new user with the given fields and a freshly assigned
    /// identifier, and returns it.
    pub fn create(&mut self, name: &str, age: i32) -> (u: User)
        requires
            old(self).wf(),
            old(self).next_id < i32::MAX,
        ensures
            final(self).wf(),
            u@.id == old(self).next_id as int,
            create_post(old(self)@, final(self)@, u@, name@, age as int),
            final(self).next_id == old(self).next_id + 1,
    {
        let id = self.next_id;
        let stored = User { id, name: String::from_str(name), age };
        let returned = stored.duplicate();
        self.users.push(stored);
        self.next_id = id + 1;
        proof {
            assert(self@ =~= old(self)@.push(returned@));
            assert forall|i: int| 0 <= i < old(self)@.len() implies #[trigger] old(
                self,
            )@[i].id != returned@.id by {
                assert(old(self)@[i].id < old(self).next_id);
            }
        }
        returned
    }

    /// Overwrites the name and age of the user stored under `id` and
    /// returns the updated entity; fails with a not-found error when no
    /// user carries that identifier.
    pub fn update(&mut self, id: i32, name: &str, age: i32) -> (r: Result<User, DbRepoError>)
        requires
            old(self).wf(),
        ensures
            final(self).wf(),
            final(self).next_id == old(self).next_id,
            r is Ok <==> contains_id(old(self)@, id as int),
            r matches Ok(u) ==> update_ok_post(
                old(self)@,
                final(self)@,
                u@,
                id as int,
                name@,
                age as int,
            ),
            r is Err ==> *final(self) == *old(self),
            r matches Err(e) ==> e is NotFound,
    {
        let n = self.users.len();
        let mut i: usize = 0;
        while i < n
            invariant
                old(self).wf(),
                *self == *old(self),
                n == self.users.len(),
                i <= n,
                forall|j: int| 0 <= j < i ==> #[trigger] self@[j].id != id as int,
            decreases n - i,
        {
            if self.users[i].id == id {
                let updated = User { id, name: String::from_str(name), age };
                let returned = updated.duplicate();
                let ghost pre = self@;
                self.users.set(i, updated);
                proof {
                    assert(pre[i as int].id == id as int);
                    assert(contains_id(pre, id as int));
                    assert(self@ =~= pre.update(i as int, returned@));
                    assert forall|j: int|
                        0 <= j < pre.len() && pre[j].id == id as int implies self@[j]
                        == returned@ by {
                        if j != i as int {
                            assert(pre[i as int].id == id as int);
                        }
                    }
                }
                return Ok(returned);
            }
            i += 1;
        }
        Err(DbRepoError::NotFound)
    }

    /// Removes the user stored under `id`; fails with a not-found error
    /// when no user carries that identifier. A second delete of the same
    /// identifier therefore fails rather than silently succeeding.
    pub fn delete(&mut self, id: i32) -> (r: Result<(), DbRepoError>)
        requires
            old(self).wf(),
        ensures
            final(self).wf(),
            final(self).next_id == old(self).next_id,
            r is Ok <==> contains_id(old(self)@, id as int),
            r is Ok ==> delete_ok_post(old(self)@, final(self)@, id as int),
            r is Ok ==> !contains_id(final(self)@, id as int),
            r is Err ==> *final(self) == *old(self),
            r matches Err(e) ==> e is NotFound,
    {
        let n = self.users.len();
        let mut i: usize = 0;
        while i < n
            invariant
                old(self).wf(),
                *self == *old(self),
                n == self.users.len(),
                i <= n,
                forall|j: int| 0 <= j < i ==> #[trigger] self@[j].id != id as int,
            decreases n - i,
        {
            if self.users[i].id == id {
                let ghost pre = self@;
                self.users.remove(i);
                proof {
                    assert(self@ =~= pre.remove(i as int));
                    assert(pre[i as int].id == id as int);
                    lemma_remove_absent(pre, i as int);
                }
                return Ok(());
            }
            i += 1;
        }
        Err(DbRepoError::NotFound)
    }
}

/// Capability-set over user storage, injected into the application state
/// at construction time: the production in-memory variant, and a
/// test-double that fails every operation with a database error carrying
/// a fixed message.
pub enum UserRepo {
    Store(UserStore),
    Failing(String),
}

impl UserRepo {
    /// Invariant of the repository: the production store is well formed.
    pub open spec fn wf(&self) -> bool {
        match self {
            UserRepo::Store(s) => s.wf(),
            UserRepo::Failing(_) => true,
        }
    }

    /// The stored users, as the contracts speak of them; the failing
    /// double stores nothing.
    pub open spec fn users(&self) -> Seq<UserView> {
        match self {
            UserRepo::Store(s) => s@,
            UserRepo::Failing(_) => Seq::empty(),
        }
    }

    /// A production repository over an empty store.
    pub fn new() -> (r: UserRepo)
        ensures
            r.wf(),
            r is Store,
            r.users().len() == 0,
            r.can_assign_id(),
    {
        UserRepo::Store(UserStore::new())
    }

    /// A test-double repository that fails every operation with a
    /// database error carrying `message`.
    pub fn failing(message: &str) -> (r: UserRepo)
        ensures
            r.wf(),
            r matches UserRepo::Failing(m) && m@ == message@,
    {
        UserRepo::Failing(String::from_str(message))
    }

    /// Returns all stored users; the failing double returns its database
    /// error instead.
    pub fn find_all(&self) -> (r: Result<Vec<User>, DbRepoError>)
        ensures
            self is Store <==> r is Ok,
            r matches Ok(v) ==> v@.map_values(|u: User| u@) == self.users(),
            self matches UserRepo::Failing(m) ==> (r matches Err(e)
                ==> e matches DbRepoError::Database(dm) && dm@ == m@),
            self is Failing ==> r is Err,
    {
        match self {
            UserRepo::Store(s) => Ok(s.find_all()),
            UserRepo::Failing(m) => Err(DbRepoError::Database(m.clone())),
        }
    }

    /// True when the production store still has an identifier to assign;
    /// vacuously true of the failing double.
    pub open spec fn can_assign_id(&self) -> bool {
        self matches UserRepo::Store(s) ==> s.next_id < i32::MAX
    }

    /// Inserts a new user and returns it with its freshly assigned
    /// identifier; the failing double returns its database error instead.
    pub fn create(&mut self, name: &str, age: i32) -> (r: Result<User, DbRepoError>)
        requires
            old(self).wf(),
            old(self).can_assign_id(),
        ensures
            final(self).wf(),
            *old(self) is Store <==> r is Ok,
            r matches Ok(u) ==> create_post(
                old(self).users(),
                final(self).users(),
                u@,
                name@,
                age as int,
            ),
            *old(self) is Failing ==> *final(self) == *old(self),
            *old(self) matches UserRepo::Failing(m) ==> (r matches Err(e)
                ==> e matches DbRepoError::Database(dm) && dm@ == m@),
    {
        match self {
            UserRepo::Store(s) => Ok(s.create(name, age)),
            UserRepo::Failing(m) => Err(DbRepoError::Database(m.clone())),
        }
    }

    /// Overwrites the fields of the user stored under `id`; fails with
    /// not-found when no user carries that identifier, and with the
    /// double's database error on the failing variant.
    pub fn update(&mut self, id: i32, name: &str, age: i32) -> (r: Result<User, DbRepoError>)
        requires
            old(self).wf(),
        ensures
            final(self).wf(),
            *old(self) is Store ==> (r is Ok <==> contains_id(old(self).users(), id as int)),
            r matches Ok(u) ==> update_ok_post(
                old(self).users(),
                final(self).users(),
                u@,
                id as int,
                name@,
                age as int,
            ),
            *old(self) is Store && r is Err ==> *final(self) == *old(self) && (r matches Err(e)
                && e is NotFound),
            *old(self) is Failing ==> *final(self) == *old(self) && r is Err,
            *old(self) matches UserRepo::Failing(m) ==> (r matches Err(e)
                ==> e matches DbRepoError::Database(dm) && dm@ == m@),
    {
        match self {
            UserRepo::Store(s) => s.update(id, name, age),
            UserRepo::Failing(m) => Err(DbRepoError::Database(m.clone())),
        }
    }

    /// Removes the user stored under `id`; fails with not-found when no
    /// user carries that identifier, and with the double's database error
    /// on the failing variant.
    pub fn delete(&mut self, id: i32) -> (r: Result<(), DbRepoError>)
        requires
            old(self).wf(),
        ensures
            final(self).wf(),
            *old(self) is Store ==> (r is Ok <==> contains_id(old(self).users(), id as int)),
            r is Ok ==> delete_ok_post(old(self).users(), final(self).users(), id as int),
            r is Ok ==> !contains_id(final(self).users(), id as int),
            *old(self) is Store && r is Err ==> *final(self) == *old(self) && (r matches Err(e)
                && e is NotFound),
            *old(self) is Failing ==> *final(self) == *old(self) && r is Err,
            *old(self) matches UserRepo::Failing(m) ==> (r matches Err(e)
                ==> e matches DbRepoError::Database(dm) && dm@ == m@),
    {
        match self {
            UserRepo::Store(s) => s.delete(id),
            UserRepo::Failing(m) => Err(DbRepoError::Database(m.clone())),
        }
    }
}

/// Removing the only row that carries an identifier leaves a store in
/// which no row carries it: this is what makes a delete final, so that a
/// later find-all can no longer return the deleted user.
pub proof fn lemma_remove_absent(pre: Seq<UserView>, i: int)
    requires
        ids_unique(pre),
        0 <= i < pre.len(),
    ensures
        !contains_id(pre.remove(i), pre[i].id),
{
    let post = pre.remove(i);
    assert forall|j: int| 0 <= j < post.len() implies #[trigger] post[j].id != pre[i].id by {
        if j < i {
            assert(post[j] == pre[j]);
        } else {
            assert(post[j] == pre[j + 1]);
        }
    }
}

/// Identifiers are newly assigned: two users created one after the other
/// receive distinct identifiers, whatever fields the two requests carry.
pub proof fn lemma_create_ids_distinct(
    s0: Seq<UserView>,
    s1: Seq<UserView>,
    s2: Seq<UserView>,
    u1: UserView,
    u2: UserView,
    name1: Seq<char>,
    age1: int,
    name2: Seq<char>,
    age2: int,
)
    requires
        create_post(s0, s1, u1, name1, age1),
        create_post(s1, s2, u2, name2, age2),
    ensures
        u1.id != u2.id,
{
    assert(s1[s0.len() as int] == u1);
    assert(contains_id(s1, u1.id));
}

} // verus!
