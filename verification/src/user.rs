use vstd::prelude::*;

verus! {

/// Mathematical value of a user: what contracts and invariants speak of.
#[verifier::ext_equal]
pub ghost struct UserView {
    pub id: int,
    pub name: Seq<char>,
    pub age: int,
}

/// Persisted entity: a stored user with its system-assigned identifier.
/// The identifier is unique among stored users and never changes once the
/// user is created.
#[derive(Debug)]
pub struct User {
    pub id: i32,
    pub name: String,
    pub age: i32,
}

impl View for User {
    type V = UserView;

    open spec fn view(&self) -> UserView {
        UserView { id: self.id as int, name: self.name@, age: self.age as int }
    }
}

impl User {
    /// Copies the user, field by field.
    pub fn duplicate(&self) -> (r: User)
        ensures
            r@ == self@,
    {
        User { id: self.id, name: self.name.clone(), age: self.age }
    }
}

/// Write-side projection of a user: the fields a caller may choose when
/// creating or updating, without an identity of its own.
#[derive(Debug)]
pub struct UserName {
    pub name: String,
    pub age: i32,
}

} // verus!
