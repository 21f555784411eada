//! The listing of accounts: usernames only.

use vstd::prelude::*;

use crate::credentials::{User, UserResponse};
use crate::store::StoreError;

verus! {

/// The usernames that a listing shows, in the order of the rows. A store that
/// fails shows as an empty list, not as an error.
pub open spec fn listed_usernames(found: Result<Vec<User>, StoreError>) -> Seq<Seq<char>> {
    match found {
        Ok(rows) => rows@.map_values(|user: User| user.username@),
        Err(_) => Seq::empty(),
    }
}

/// The public faces of the accounts that the store returned.
pub fn users(found: Result<Vec<User>, StoreError>) -> (listed: Vec<UserResponse>)
    ensures
        listed@.map_values(|shown: UserResponse| shown.username@) == listed_usernames(found),
{
    let mut listed: Vec<UserResponse> = Vec::new();
    match found {
        Ok(rows) => {
            let mut i: usize = 0;
            while i < rows.len()
                invariant
                    0 <= i <= rows@.len(),
                    listed@.len() == i,
                    forall|j: int| 0 <= j < i ==> listed@[j].username@ == rows@[j].username@,
                decreases rows@.len() - i,
            {
                listed.push(UserResponse::from(&rows[i]));
                i = i + 1;
            }
            assert(listed@.map_values(|shown: UserResponse| shown.username@) =~= rows@.map_values(
                |user: User| user.username@,
            ));
        },
        Err(_) => {
            assert(listed@.map_values(|shown: UserResponse| shown.username@) =~= Seq::<
                Seq<char>,
            >::empty());
        },
    }
    listed
}

} // verus!
