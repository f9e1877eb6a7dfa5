use vstd::prelude::*;

verus! {

/// A stored user. `id` is assigned by the store when the record is created.
pub struct User {
    pub id: i32,
    pub name: String,
    pub email: String,
    pub phone: String,
    pub address: String,
}

/// The creation payload of a user: a `User` without its `id`.
pub struct NewUser {
    pub name: String,
    pub email: String,
    pub phone: String,
    pub address: String,
}

/// The user that a store keeps for `p` under the identifier `id`.
pub open spec fn user_from(id: i32, p: NewUser) -> User {
    User { id, name: p.name, email: p.email, phone: p.phone, address: p.address }
}

impl User {
    /// The four profile fields of `self` hold what `p` holds.
    pub open spec fn has_profile_of(self, p: NewUser) -> bool {
        &&& self.name@ == p.name@
        &&& self.email@ == p.email@
        &&& self.phone@ == p.phone@
        &&& self.address@ == p.address@
    }

    /// A field-for-field copy of the record.
    pub fn duplicate(&self) -> (r: User)
        ensures
            r == *self,
    {
        User {
            id: self.id,
            name: self.name.clone(),
            email: self.email.clone(),
            phone: self.phone.clone(),
            address: self.address.clone(),
        }
    }
}

} // verus!
