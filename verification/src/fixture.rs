use vstd::prelude::*;
use crate::error::DbRepoError;
use crate::repo::{create_post, UserStore};
use crate::user::User;

verus! {

/// Test fixture: seeds a store with the canonical sample user, named
/// "fer" and aged 31, and returns the created entity.
pub fn create_user(store: &mut UserStore) -> (r: Result<User, DbRepoError>)
    requires
        old(store).wf(),
        old(store).next_id < i32::MAX,
    ensures
        final(store).wf(),
        r matches Ok(u) && create_post(old(store)@, final(store)@, u@, "fer"@, 31),
{
    Ok(store.create("fer", 31))
}

} // verus!
