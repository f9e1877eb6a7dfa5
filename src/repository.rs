use vstd::prelude::*;

use crate::user::{NewUser, User};

verus! {

/// Why a store did not keep a new user.
pub enum StoreError {
    /// The store has handed out every identifier it can represent.
    IdsExhausted,
    /// The storage backend failed; the text is the backend's own account.
    Backend(String),
}

/// `after` is `before` with one more user, made from `p`, whose identifier is
/// positive and held by no user of `before`.
pub open spec fn kept_new_user(before: Seq<User>, p: NewUser, after: Seq<User>) -> bool {
    exists|u: User|
        {
            &&& after == before.push(u)
            &&& u.has_profile_of(p)
            &&& u.id > 0
            &&& forall|i: int| 0 <= i < before.len() ==> (#[trigger] before[i]).id != u.id
        }
}

/// What a save promises: on success the store gained exactly the new user, on
/// failure it is unchanged.
pub open spec fn save_outcome(
    before: Seq<User>,
    p: NewUser,
    r: Result<(), StoreError>,
    after: Seq<User>,
) -> bool {
    match r {
        Ok(_) => kept_new_user(before, p, after),
        Err(_) => after == before,
    }
}

/// What a lookup promises: a user it returns is stored and carries the email
/// asked for. An empty answer may mean no such user or a backend failure.
pub open spec fn lookup_outcome(stored: Seq<User>, email: Seq<char>, r: Option<User>) -> bool {
    match r {
        Some(u) => stored.contains(u) && u.email@ == email,
        None => true,
    }
}

/// Persistence of users, over any storage backend.
pub trait UserRepository {
    /// The users the backend holds, in the order they were stored.
    spec fn stored(&self) -> Seq<User>;

    /// A stored user whose email is `email`, if the backend finds one.
    fn find_by_email(&self, email: &str) -> (r: Option<User>)
        ensures
            lookup_outcome(self.stored(), email@, r),
    ;

    /// Stores a new user made from `user`, with an identifier of the backend's choice.
    fn save(&mut self, user: &NewUser) -> (r: Result<(), StoreError>)
        ensures
            save_outcome(old(self).stored(), *user, r, final(self).stored()),
    ;
}

} // verus!
