use vstd::prelude::*;

use crate::repository::{lookup_outcome, save_outcome, StoreError, UserRepository};
use crate::use_cases::{GetUserUseCase, RegisterUserUseCase};
use crate::user::{NewUser, User};

verus! {

/// The body of an HTTP reply.
pub enum ReplyBody {
    Empty,
    Text(String),
    /// A user, to be sent as a JSON object.
    Json(User),
}

/// An HTTP reply: a status code and a body.
pub struct Reply {
    pub status: u16,
    pub body: ReplyBody,
}

/// The text sent when a registration fails.
pub open spec fn register_failure_text() -> Seq<char> {
    "Please try again...!"@
}

/// The text sent when a lookup finds no user.
pub open spec fn lookup_failure_text() -> Seq<char> {
    "Please Try again!"@
}

/// `r` is a 500 reply whose body is the text `text`.
pub open spec fn is_failure_reply(r: Reply, text: Seq<char>) -> bool {
    &&& r.status == 500
    &&& match r.body {
        ReplyBody::Text(s) => s@ == text,
        _ => false,
    }
}

/// `r` is the reply owed for the outcome of a registration.
pub open spec fn is_register_reply(outcome: Result<(), StoreError>, r: Reply) -> bool {
    match outcome {
        Ok(_) => r.status == 200 && r.body is Empty,
        Err(_) => is_failure_reply(r, register_failure_text()),
    }
}

/// `r` is the reply owed for the outcome of a lookup.
pub open spec fn is_lookup_reply(found: Option<User>, r: Reply) -> bool {
    match found {
        Some(u) => r.status == 200 && r.body == ReplyBody::Json(u),
        None => is_failure_reply(r, lookup_failure_text()),
    }
}

/// The reply to a registration: 200 with no body when the user was stored,
/// else 500 with a request to try again.
pub fn register_reply(outcome: &Result<(), StoreError>) -> (r: Reply)
    ensures
        is_register_reply(*outcome, r),
{
    match outcome {
        Ok(_) => Reply { status: 200, body: ReplyBody::Empty },
        Err(_) => Reply { status: 500, body: ReplyBody::Text("Please try again...!".to_owned()) },
    }
}

/// The reply to a lookup: 200 with the user found, else 500 with a request to
/// try again.
pub fn lookup_reply(found: Option<User>) -> (r: Reply)
    ensures
        is_lookup_reply(found, r),
{
    match found {
        Some(u) => Reply { status: 200, body: ReplyBody::Json(u) },
        None => Reply { status: 500, body: ReplyBody::Text("Please Try again!".to_owned()) },
    }
}

/// Handles `POST /` under the user prefix: registers `input` in `repo` and
/// hands the repository back with the reply to the outcome of the
/// repository's own save. A 200 reply means the store gained exactly the new
/// user; any other reply leaves the store as it was.
pub fn register_user_handler<T: UserRepository>(repo: T, input: &NewUser) -> (r: (Reply, T))
    ensures
        exists|outcome: Result<(), StoreError>|
            {
                &&& #[trigger] is_register_reply(outcome, r.0)
                &&& save_outcome(repo.stored(), *input, outcome, r.1.stored())
                &&& exists|m: &mut T|
                    mut_ref_current(m) == repo && mut_ref_future(m) == r.1 && #[trigger] call_ensures(
                        T::save,
                        (m, input),
                        outcome,
                    )
            },
{
    let mut use_case = RegisterUserUseCase::new(repo);
    let outcome = use_case.exec(input);
    let reply = register_reply(&outcome);
    let r = (reply, use_case.into_repository());
    assert(is_register_reply(outcome, r.0) && save_outcome(repo.stored(), *input, outcome, r.1.stored()));
    r
}

/// Handles `GET /{email}` under the user prefix: looks `email` up in `repo`
/// and hands the repository back, unchanged, with the reply to the
/// repository's own answer.
pub fn find_user_by_email<T: UserRepository>(repo: T, email: &str) -> (r: (Reply, T))
    ensures
        r.1 == repo,
        exists|found: Option<User>|
            {
                &&& #[trigger] is_lookup_reply(found, r.0)
                &&& lookup_outcome(repo.stored(), email@, found)
                &&& call_ensures(T::find_by_email, (&repo, email), found)
            },
{
    let use_case = GetUserUseCase::new(repo);
    let found = use_case.exec(email);
    let ghost f = found;
    let reply = lookup_reply(found);
    let r = (reply, use_case.into_repository());
    assert(is_lookup_reply(f, r.0) && lookup_outcome(repo.stored(), email@, f) && call_ensures(
        T::find_by_email,
        (&repo, email),
        f,
    ));
    r
}

} // verus!
