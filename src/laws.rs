use vstd::prelude::*;

use crate::memory::{first_with_email, is_first_with_email, MemUserRepository};
use crate::repository::kept_new_user;
use crate::user::{user_from, NewUser, User};

verus! {

/// In a store where no user has the email of `p`, the users after `p` was
/// kept (a save of `p` returned `Ok`) answer a lookup of that email with a
/// user that carries `p`'s four fields under a positive identifier that no
/// earlier user holds.
pub proof fn lemma_register_then_find(before: Seq<User>, p: NewUser, after: Seq<User>)
    requires
        kept_new_user(before, p, after),
        forall|i: int| 0 <= i < before.len() ==> (#[trigger] before[i]).email@ != p.email@,
    ensures
        match first_with_email(after, p.email@) {
            Some(u) => {
                &&& u.has_profile_of(p)
                &&& u.id > 0
                &&& forall|i: int| 0 <= i < before.len() ==> (#[trigger] before[i]).id != u.id
            },
            None => false,
        },
{
    let u = choose|u: User|
        {
            &&& after == before.push(u)
            &&& u.has_profile_of(p)
            &&& u.id > 0
            &&& forall|i: int| 0 <= i < before.len() ==> (#[trigger] before[i]).id != u.id
        };
    let n = before.len() as int;
    assert(forall|j: int| 0 <= j < n ==> after[j] == before[j]);
    assert(after[n] == u);
    assert(is_first_with_email(after, p.email@, n));
    let k = choose|k: int| is_first_with_email(after, p.email@, k);
    if k < n {
        assert(after[k] == before[k]);
    }
    assert(k == n);
}

/// Two registrations with the same email are both kept when the store has
/// identifiers for both: the store grows by two users with distinct
/// identifiers, and a lookup of the shared email still gives the earliest
/// user that has it.
pub proof fn lemma_same_email_kept_twice(repo: MemUserRepository, p: NewUser, q: NewUser)
    requires
        repo.well_formed(),
        repo.next_id() < i32::MAX - 1,
        p.email@ == q.email@,
    ensures
        ({
            let once = repo.users().push(user_from(repo.next_id(), p));
            let twice = once.push(user_from((repo.next_id() + 1) as i32, q));
            &&& twice.len() == repo.users().len() + 2
            &&& twice[twice.len() - 2].has_profile_of(p)
            &&& twice[twice.len() - 1].has_profile_of(q)
            &&& twice[twice.len() - 2].id != twice[twice.len() - 1].id
            &&& first_with_email(twice, p.email@) == first_with_email(once, p.email@)
        }),
{
    let before = repo.users();
    let once = before.push(user_from(repo.next_id(), p));
    let twice = once.push(user_from((repo.next_id() + 1) as i32, q));
    let e = p.email@;
    assert(forall|j: int| 0 <= j < once.len() ==> twice[j] == once[j]);
    assert forall|i: int| is_first_with_email(once, e, i) <==> is_first_with_email(twice, e, i) by {
        if is_first_with_email(twice, e, i) && i == once.len() {
            assert(twice[i - 1] == once[i - 1]);
            assert(once[i - 1].email@ == e);
        }
    }
    if exists|i: int| is_first_with_email(once, e, i) {
        let k1 = choose|i: int| is_first_with_email(once, e, i);
        let k2 = choose|i: int| is_first_with_email(twice, e, i);
        if k1 < k2 {
            assert(twice[k1] == once[k1]);
        } else if k2 < k1 {
            assert(twice[k2] == once[k2]);
        }
        assert(k1 == k2);
    }
}

} // verus!
