use vstd::prelude::*;

use crate::repository::{lookup_outcome, save_outcome, StoreError, UserRepository};
use crate::service::UserService;
use crate::user::{NewUser, User};

verus! {

/// Registration of a new user, over an injected repository.
pub struct RegisterUserUseCase<T: UserRepository> {
    user_service: UserService<T>,
}

impl<T: UserRepository> RegisterUserUseCase<T> {
    /// The repository the use case works on.
    pub closed spec fn repository(&self) -> T {
        self.user_service.repository()
    }

    pub fn new(user_repo: T) -> (r: RegisterUserUseCase<T>)
        ensures
            r.repository() == user_repo,
    {
        let user_service = UserService::new(user_repo);
        RegisterUserUseCase { user_service }
    }

    /// Registers `user`; the result is the one the repository's save returned.
    pub fn exec(&mut self, user: &NewUser) -> (r: Result<(), StoreError>)
        ensures
            save_outcome(old(self).repository().stored(), *user, r, final(self).repository().stored()),
            exists|m: &mut T|
                {
                    &&& mut_ref_current(m) == old(self).repository()
                    &&& mut_ref_future(m) == final(self).repository()
                    &&& #[trigger] call_ensures(T::save, (m, user), r)
                },
    {
        self.user_service.register(user)
    }

    /// Gives the repository back.
    pub fn into_repository(self) -> (r: T)
        ensures
            r == self.repository(),
    {
        self.user_service.into_repository()
    }
}

/// Lookup of a user by email, over an injected repository.
pub struct GetUserUseCase<T: UserRepository> {
    user_service: UserService<T>,
}

impl<T: UserRepository> GetUserUseCase<T> {
    /// The repository the use case works on.
    pub closed spec fn repository(&self) -> T {
        self.user_service.repository()
    }

    pub fn new(user_repo: T) -> (r: GetUserUseCase<T>)
        ensures
            r.repository() == user_repo,
    {
        let user_service = UserService::new(user_repo);
        GetUserUseCase { user_service }
    }

    /// The repository's own answer to a lookup of `email`.
    pub fn exec(&self, email: &str) -> (r: Option<User>)
        ensures
            lookup_outcome(self.repository().stored(), email@, r),
            call_ensures(T::find_by_email, (&self.repository(), email), r),
    {
        self.user_service.find_by_email(email)
    }

    /// Gives the repository back.
    pub fn into_repository(self) -> (r: T)
        ensures
            r == self.repository(),
    {
        self.user_service.into_repository()
    }
}

} // verus!
