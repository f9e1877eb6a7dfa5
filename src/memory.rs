use vstd::prelude::*;

use crate::repository::{kept_new_user, StoreError, UserRepository};
use crate::user::{user_from, NewUser, User};

verus! {

/// Index `i` holds the first user of `users` whose email is `email`.
pub open spec fn is_first_with_email(users: Seq<User>, email: Seq<char>, i: int) -> bool {
    &&& 0 <= i < users.len()
    &&& users[i].email@ == email
    &&& forall|j: int| 0 <= j < i ==> (#[trigger] users[j]).email@ != email
}

/// The first user of `users`, in storage order, whose email is `email`.
pub open spec fn first_with_email(users: Seq<User>, email: Seq<char>) -> Option<User> {
    if exists|i: int| is_first_with_email(users, email, i) {
        Some(users[choose|i: int| is_first_with_email(users, email, i)])
    } else {
        None
    }
}

/// An in-memory store of users. Identifiers are handed out in increasing order
/// from 1; a lookup returns the earliest stored match. Two users may share an
/// email: nothing in the store refuses that.
pub struct MemUserRepository {
    users: Vec<User>,
    next_id: i32,
}

impl MemUserRepository {
    /// The users held, in the order they were stored.
    pub closed spec fn users(&self) -> Seq<User> {
        self.users@
    }

    /// The identifier the next stored user receives.
    pub closed spec fn next_id(&self) -> i32 {
        self.next_id
    }

    /// Every stored identifier is positive and below the next one.
    pub closed spec fn well_formed(&self) -> bool {
        &&& self.next_id >= 1
        &&& forall|i: int|
            0 <= i < self.users@.len() ==> 1 <= (#[trigger] self.users@[i]).id < self.next_id
    }

    #[verifier::type_invariant]
    spec fn ids_below_next(&self) -> bool {
        self.well_formed()
    }

    /// What well-formedness says, over the store's views.
    pub proof fn lemma_ids_below_next(repo: MemUserRepository)
        requires
            repo.well_formed(),
        ensures
            repo.next_id() >= 1,
            forall|i: int|
                0 <= i < repo.users().len() ==> 1 <= (#[trigger] repo.users()[i]).id < repo.next_id(),
    {
    }

    /// An empty store.
    pub fn new() -> (r: MemUserRepository)
        ensures
            r.well_formed(),
            r.users() == Seq::<User>::empty(),
            r.next_id() == 1,
    {
        MemUserRepository { users: Vec::new(), next_id: 1 }
    }
}

impl UserRepository for MemUserRepository {
    open spec fn stored(&self) -> Seq<User> {
        self.users()
    }

    fn find_by_email(&self, email: &str) -> (r: Option<User>)
        ensures
            r == first_with_email(self.users(), email@),
            r is None <==> forall|i: int|
                0 <= i < self.users().len() ==> (#[trigger] self.users()[i]).email@ != email@,
    {
        let target = email.to_owned();
        let mut i: usize = 0;
        while i < self.users.len()
            invariant
                0 <= i <= self.users@.len(),
                target@ == email@,
                forall|j: int| 0 <= j < i ==> (#[trigger] self.users@[j]).email@ != email@,
            decreases self.users@.len() - i,
        {
            if self.users[i].email == target {
                proof {
                    let users = self.users@;
                    assert(is_first_with_email(users, email@, i as int));
                    let k = choose|k: int| is_first_with_email(users, email@, k);
                    if k < i {
                        assert(users[k].email@ != email@);
                    } else if k > i {
                        assert(users[i as int].email@ != email@);
                    }
                }
                return Some(self.users[i].duplicate());
            }
            i = i + 1;
        }
        None
    }

    fn save(&mut self, user: &NewUser) -> (r: Result<(), StoreError>)
        ensures
            r is Ok <==> old(self).next_id() < i32::MAX,
            r is Ok ==> final(self).users() == old(self).users().push(
                user_from(old(self).next_id(), *user),
            ),
            r is Ok ==> final(self).next_id() == old(self).next_id() + 1,
            r is Err ==> r == Err::<(), StoreError>(StoreError::IdsExhausted),
            r is Err ==> final(self).users() == old(self).users(),
            r is Err ==> final(self).next_id() == old(self).next_id(),
            old(self).well_formed(),
            final(self).well_formed(),
    {
        proof {
            use_type_invariant(&*self);
        }
        if self.next_id == i32::MAX {
            return Err(StoreError::IdsExhausted);
        }
        let u = User {
            id: self.next_id,
            name: user.name.clone(),
            email: user.email.clone(),
            phone: user.phone.clone(),
            address: user.address.clone(),
        };
        let ghost before = self.users@;
        let mut taken = MemUserRepository { users: Vec::new(), next_id: 1 };
        core::mem::swap(self, &mut taken);
        let MemUserRepository { mut users, next_id } = taken;
        users.push(u);
        *self = MemUserRepository { users, next_id: next_id + 1 };
        proof {
            assert(self.users@ == before.push(u));
            assert(u.has_profile_of(*user));
            assert(forall|i: int| 0 <= i < before.len() ==> (#[trigger] before[i]).id != u.id);
            assert(kept_new_user(before, *user, self.users@));
        }
        Ok(())
    }
}

} // verus!
