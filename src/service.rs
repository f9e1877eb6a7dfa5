use vstd::prelude::*;

use crate::repository::{lookup_outcome, save_outcome, StoreError, UserRepository};
use crate::user::{NewUser, User};

verus! {

/// The domain service: registration and lookup, delegated to one repository.
pub struct UserService<T: UserRepository> {
    user_repo: T,
}

impl<T: UserRepository> UserService<T> {
    /// The repository the service delegates to.
    pub closed spec fn repository(&self) -> T {
        self.user_repo
    }

    pub fn new(new_repo: T) -> (r: UserService<T>)
        ensures
            r.repository() == new_repo,
    {
        UserService { user_repo: new_repo }
    }

    /// Stores a new user made from `user`; the result is the repository's own.
    pub fn register(&mut self, user: &NewUser) -> (r: Result<(), StoreError>)
        ensures
            save_outcome(old(self).repository().stored(), *user, r, final(self).repository().stored()),
            exists|m: &mut T|
                {
                    &&& mut_ref_current(m) == old(self).repository()
                    &&& mut_ref_future(m) == final(self).repository()
                    &&& #[trigger] call_ensures(T::save, (m, user), r)
                },
    {
        self.user_repo.save(user)
    }

    /// The repository's own answer to a lookup of `email`.
    pub fn find_by_email(&self, email: &str) -> (r: Option<User>)
        ensures
            lookup_outcome(self.repository().stored(), email@, r),
            call_ensures(T::find_by_email, (&self.repository(), email), r),
    {
        self.user_repo.find_by_email(email)
    }

    /// Gives the repository back.
    pub fn into_repository(self) -> (r: T)
        ensures
            r == self.repository(),
    {
        self.user_repo
    }
}

} // verus!
