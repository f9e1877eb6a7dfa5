use user_registry::handlers::{
    find_user_by_email, lookup_reply, register_reply, register_user_handler, Reply, ReplyBody,
};
use user_registry::memory::MemUserRepository;
use user_registry::repository::{StoreError, UserRepository};
use user_registry::service::UserService;
use user_registry::use_cases::{GetUserUseCase, RegisterUserUseCase};
use user_registry::user::{NewUser, User};

fn payload(name: &str, email: &str, phone: &str, address: &str) -> NewUser {
    NewUser {
        name: name.to_string(),
        email: email.to_string(),
        phone: phone.to_string(),
        address: address.to_string(),
    }
}

fn ana() -> NewUser {
    payload("Ana", "ana@x.com", "123", "St 1")
}

fn text_of(reply: &Reply) -> &str {
    match &reply.body {
        ReplyBody::Text(s) => s.as_str(),
        _ => panic!("expected a text body"),
    }
}

#[test]
fn register_then_lookup_over_http() {
    let repo = MemUserRepository::new();
    let (reply, repo) = register_user_handler(repo, &ana());
    assert_eq!(reply.status, 200);
    assert!(matches!(reply.body, ReplyBody::Empty));

    let (reply, _repo) = find_user_by_email(repo, "ana@x.com");
    assert_eq!(reply.status, 200);
    match reply.body {
        ReplyBody::Json(u) => {
            assert_eq!(u.email, "ana@x.com");
            assert_eq!(u.name, "Ana");
        }
        _ => panic!("expected a user"),
    }
}

#[test]
fn lookup_of_unknown_email_over_http() {
    let (reply, _repo) = find_user_by_email(MemUserRepository::new(), "none@x.com");
    assert_eq!(reply.status, 500);
    assert_eq!(text_of(&reply), "Please Try again!");
}

#[test]
fn saved_user_is_found_with_its_fields_and_a_fresh_id() {
    let mut repo = MemUserRepository::new();
    assert!(repo.save(&payload("Bo", "bo@x.com", "555", "Rd 2")).is_ok());
    assert!(repo.save(&ana()).is_ok());
    let u = repo.find_by_email("ana@x.com").expect("stored user");
    assert_eq!(u.id, 2);
    assert_eq!(u.name, "Ana");
    assert_eq!(u.email, "ana@x.com");
    assert_eq!(u.phone, "123");
    assert_eq!(u.address, "St 1");
    let b = repo.find_by_email("bo@x.com").expect("stored user");
    assert_eq!(b.id, 1);
    assert!(b.id > 0 && b.id != u.id);
}

#[test]
fn lookup_without_a_match_is_empty() {
    let mut repo = MemUserRepository::new();
    assert!(repo.find_by_email("ana@x.com").is_none());
    assert!(repo.save(&ana()).is_ok());
    assert!(repo.find_by_email("ANA@x.com").is_none());
    assert!(repo.find_by_email("").is_none());
}

#[test]
fn same_email_twice_is_kept_and_first_is_found() {
    let mut repo = MemUserRepository::new();
    assert!(repo.save(&ana()).is_ok());
    assert!(repo.save(&payload("Ana B", "ana@x.com", "999", "St 9")).is_ok());
    let u = repo.find_by_email("ana@x.com").expect("stored user");
    assert_eq!(u.id, 1);
    assert_eq!(u.name, "Ana");
    assert!(repo.save(&payload("Cy", "cy@x.com", "1", "A")).is_ok());
    assert_eq!(repo.find_by_email("cy@x.com").expect("stored user").id, 3);
}

#[test]
fn replies_for_each_outcome() {
    let ok = register_reply(&Ok(()));
    assert_eq!(ok.status, 200);
    assert!(matches!(ok.body, ReplyBody::Empty));

    let full = register_reply(&Err(StoreError::IdsExhausted));
    assert_eq!(full.status, 500);
    assert_eq!(text_of(&full), "Please try again...!");

    let down = register_reply(&Err(StoreError::Backend("timeout".to_string())));
    assert_eq!(down.status, 500);
    assert_eq!(text_of(&down), "Please try again...!");

    let missing = lookup_reply(None);
    assert_eq!(missing.status, 500);
    assert_eq!(text_of(&missing), "Please Try again!");

    let user = User {
        id: 7,
        name: "Ana".to_string(),
        email: "ana@x.com".to_string(),
        phone: "123".to_string(),
        address: "St 1".to_string(),
    };
    let found = lookup_reply(Some(user));
    assert_eq!(found.status, 200);
    match found.body {
        ReplyBody::Json(u) => assert_eq!(u.id, 7),
        _ => panic!("expected a user"),
    }
}

#[test]
fn use_cases_share_one_store() {
    let mut register = RegisterUserUseCase::new(MemUserRepository::new());
    assert!(register.exec(&ana()).is_ok());
    let get = GetUserUseCase::new(register.into_repository());
    let u = get.exec("ana@x.com").expect("stored user");
    assert_eq!(u.name, "Ana");
    assert_eq!(u.email, "ana@x.com");
    assert_eq!(u.phone, "123");
    assert_eq!(u.address, "St 1");
    assert!(u.id > 0);
    assert!(get.exec("bo@x.com").is_none());
}

#[test]
fn service_delegates_to_its_repository() {
    let mut service = UserService::new(MemUserRepository::new());
    assert!(service.register(&ana()).is_ok());
    assert_eq!(service.find_by_email("ana@x.com").expect("stored user").address, "St 1");
    assert!(service.find_by_email("bo@x.com").is_none());
}

#[test]
fn duplicate_copies_every_field() {
    let u = User {
        id: 3,
        name: "N".to_string(),
        email: "e@x".to_string(),
        phone: "p".to_string(),
        address: "a".to_string(),
    };
    let c = u.duplicate();
    assert_eq!((c.id, c.name, c.email, c.phone, c.address), (3, "N".to_string(), "e@x".to_string(), "p".to_string(), "a".to_string()));
}
