use listkeeper::account_service;
use listkeeper::constants::{
    MESSAGE_GET_USER_FAILED, MESSAGE_GET_USER_SUCCESS, MESSAGE_LOGIN_FAILED,
    MESSAGE_LOGIN_SUCCESS, MESSAGE_SIGNUP_FAILED, MESSAGE_SIGNUP_SUCCESS, MESSAGE_UPDATE_SUCCESS,
    STATUS_BAD_REQUEST, STATUS_OK,
};
use listkeeper::gate::{extract_bearer, verify_and_authenticate};
use listkeeper::password::{hash_password, verify_password};
use listkeeper::response::ResponseData;
use listkeeper::store::{Store, User};
use listkeeper::token::{decode_token, generate_token, verify, verify_token, TokenError, ONE_WEEK};
use listkeeper::users::{
    CreateUser, LoggedInUser, LoginDTO, LoginInfoDTO, NewUser, UpdatePassword,
    UpdatePreferredName, UserDTO,
};
use listkeeper::{index, not_found, rocket};

fn secret() -> Vec<u8> {
    b"SECRET-REDACTED".to_vec()
}

fn alice() -> UserDTO {
    UserDTO {
        username: "alice".to_string(),
        email: "alice@x.com".to_string(),
        preferred_name: "Alice".to_string(),
        password: "pw1".to_string(),
    }
}

fn login_as(handle: &str, password: &str) -> LoginDTO {
    LoginDTO {
        username_or_email: handle.to_string(),
        password: password.to_string(),
    }
}

fn token_of_response(data: &ResponseData) -> String {
    match data {
        ResponseData::Token(t) => t.clone(),
        _ => panic!("expected a token payload"),
    }
}

#[test]
fn password_hash_round_trip() {
    let hash = hash_password(&"pw1".to_string()).expect("hashing failed");
    assert_ne!(hash, "pw1");
    assert!(verify_password(&"pw1".to_string(), &hash));
    assert!(!verify_password(&"pw2".to_string(), &hash));
}

#[test]
fn signup_then_login_succeeds() {
    let mut store = Store::new();
    let r = account_service::signup(alice(), &mut store);
    assert_eq!(r.status_code, STATUS_OK);
    assert_eq!(r.response.message, MESSAGE_SIGNUP_SUCCESS);

    let r = account_service::login(login_as("alice", "pw1"), 1_000, &secret(), &mut store);
    assert_eq!(r.status_code, STATUS_OK);
    assert_eq!(r.response.message, MESSAGE_LOGIN_SUCCESS);
    let token = token_of_response(&r.response.data);
    assert!(!token.is_empty());
}

#[test]
fn login_by_email_succeeds() {
    let mut store = Store::new();
    account_service::signup(alice(), &mut store);
    let r = account_service::login(login_as("alice@x.com", "pw1"), 5, &secret(), &mut store);
    assert_eq!(r.status_code, STATUS_OK);
}

#[test]
fn login_with_wrong_password_fails() {
    let mut store = Store::new();
    account_service::signup(alice(), &mut store);
    let r = account_service::login(login_as("alice", "nope"), 5, &secret(), &mut store);
    assert_eq!(r.status_code, STATUS_BAD_REQUEST);
    assert_eq!(r.response.message, MESSAGE_LOGIN_FAILED);
}

#[test]
fn login_unknown_user_fails() {
    let mut store = Store::new();
    let r = account_service::login(login_as("nobody", "pw"), 5, &secret(), &mut store);
    assert_eq!(r.status_code, STATUS_BAD_REQUEST);
}

#[test]
fn duplicate_username_rejected() {
    let mut store = Store::new();
    assert!(User::signup(alice(), &mut store));
    let mut again = alice();
    again.email = "other@x.com".to_string();
    assert!(!User::signup(again, &mut store));
    let r = account_service::signup(
        UserDTO {
            username: "alice".to_string(),
            email: "third@x.com".to_string(),
            preferred_name: "A".to_string(),
            password: "x".to_string(),
        },
        &mut store,
    );
    assert_eq!(r.status_code, STATUS_BAD_REQUEST);
    assert_eq!(r.response.message, MESSAGE_SIGNUP_FAILED);
}

#[test]
fn duplicate_email_rejected() {
    let mut store = Store::new();
    assert!(User::signup(alice(), &mut store));
    let mut again = alice();
    again.username = "alice2".to_string();
    assert!(!User::signup(again, &mut store));
}

#[test]
fn fresh_token_verifies_immediately() {
    let mut store = Store::new();
    account_service::signup(alice(), &mut store);
    let now: u64 = 1_700_000_000;
    let r = account_service::login(login_as("alice", "pw1"), now, &secret(), &mut store);
    let token = token_of_response(&r.response.data);

    let claims = verify(&token, &secret(), now).expect("fresh token must verify");
    assert_eq!(claims.username, "alice");
    assert_eq!(claims.iat, now);
    assert_eq!(claims.exp, now + ONE_WEEK);
    assert!(verify_token(&claims, &store));
}

#[test]
fn decode_recovers_claims() {
    let info = LoginInfoDTO {
        id: 42,
        username: "carol".to_string(),
        session: 9,
    };
    let token = generate_token(info, 300, &secret());
    let claims = decode_token(&token, &secret()).expect("well signed");
    assert_eq!(claims.id, 42);
    assert_eq!(claims.username, "carol");
    assert_eq!(claims.session, 9);
    assert_eq!(claims.iat, 300);
    assert_eq!(claims.exp, 300 + ONE_WEEK);
    assert!(matches!(
        decode_token("garbage", &secret()),
        Err(TokenError::Malformed)
    ));
}

#[test]
fn token_expiry_boundary() {
    let info = LoginInfoDTO {
        id: 1,
        username: "alice".to_string(),
        session: 1,
    };
    let iat: u64 = 1_000;
    let token = generate_token(info, iat, &secret());

    assert!(verify(&token, &secret(), iat + 604_799).is_ok());
    assert!(matches!(
        verify(&token, &secret(), iat + 604_800),
        Err(TokenError::Expired)
    ));
    assert!(matches!(
        verify(&token, &secret(), iat + 604_800 + 12_345),
        Err(TokenError::Expired)
    ));
}

#[test]
fn second_login_revokes_first_token() {
    let mut store = Store::new();
    account_service::signup(alice(), &mut store);
    let now: u64 = 50;

    let first = account_service::login(login_as("alice", "pw1"), now, &secret(), &mut store);
    let first_token = token_of_response(&first.response.data);

    let second = account_service::login(login_as("alice", "pw1"), now + 1, &secret(), &mut store);
    assert_eq!(second.status_code, STATUS_OK);
    let second_token = token_of_response(&second.response.data);

    // Signature and expiry of the first token are still fine...
    let first_claims = verify(&first_token, &secret(), now + 2).expect("still signed and fresh");
    // ...but its session has been superseded.
    assert!(!verify_token(&first_claims, &store));
    let header = format!("Bearer {first_token}");
    assert!(matches!(
        verify_and_authenticate(&header, &secret(), now + 2, &store),
        Err(TokenError::Revoked)
    ));

    // The second token is the live one.
    let header = format!("Bearer {second_token}");
    assert!(verify_and_authenticate(&header, &secret(), now + 2, &store).is_ok());
}

#[test]
fn password_change_revokes_tokens() {
    let mut store = Store::new();
    account_service::signup(alice(), &mut store);
    let now: u64 = 7;
    let r = account_service::login(login_as("alice", "pw1"), now, &secret(), &mut store);
    let token = token_of_response(&r.response.data);

    let r = account_service::put_password(
        "alice".to_string(),
        UpdatePassword {
            password: "pw2".to_string(),
        },
        &mut store,
    );
    assert_eq!(r.status_code, STATUS_OK);
    assert_eq!(r.response.message, MESSAGE_UPDATE_SUCCESS);

    let claims = verify(&token, &secret(), now + 1).expect("still signed and fresh");
    assert!(!verify_token(&claims, &store));

    // The old password no longer logs in; the new one does.
    let r = account_service::login(login_as("alice", "pw1"), now + 2, &secret(), &mut store);
    assert_eq!(r.status_code, STATUS_BAD_REQUEST);
    let r = account_service::login(login_as("alice", "pw2"), now + 2, &secret(), &mut store);
    assert_eq!(r.status_code, STATUS_OK);
}

#[test]
fn malformed_token_rejected() {
    let store = Store::new();
    assert!(matches!(
        verify("not-a-token", &secret(), 0),
        Err(TokenError::Malformed)
    ));
    assert!(matches!(
        verify_and_authenticate("Basic abc", &secret(), 0, &store),
        Err(TokenError::Malformed)
    ));
    assert!(matches!(
        verify_and_authenticate("bearer abc", &secret(), 0, &store),
        Err(TokenError::Malformed)
    ));
}

#[test]
fn wrong_secret_rejected_as_bad_signature() {
    let info = LoginInfoDTO {
        id: 1,
        username: "alice".to_string(),
        session: 1,
    };
    let token = generate_token(info, 10, &secret());
    assert!(matches!(
        verify(&token, &b"another secret".to_vec(), 11),
        Err(TokenError::BadSignature)
    ));
}

#[test]
fn bearer_extraction_trims_whitespace() {
    assert_eq!(extract_bearer("Bearer  abc.def.ghi  "), Some("abc.def.ghi".to_string()));
    assert_eq!(extract_bearer("Bearer tok"), Some("tok".to_string()));
    assert_eq!(extract_bearer("Bearertok"), Some("tok".to_string()));
    assert_eq!(extract_bearer("bearer tok"), None);
    assert_eq!(extract_bearer("Token abc"), None);
    assert_eq!(extract_bearer("Bear"), None);
}

#[test]
fn get_user_returns_profile() {
    let mut store = Store::new();
    account_service::signup(alice(), &mut store);
    let r = account_service::get_user("alice".to_string(), &store);
    assert_eq!(r.status_code, STATUS_OK);
    assert_eq!(r.response.message, MESSAGE_GET_USER_SUCCESS);
    match r.response.data {
        ResponseData::UserInfo(u) => {
            assert_eq!(u.username, "alice");
            assert_eq!(u.email, "alice@x.com");
            assert_eq!(u.preferred_name, "Alice");
        }
        _ => panic!("expected a profile payload"),
    }

    let r = account_service::get_user("bob".to_string(), &store);
    assert_eq!(r.status_code, STATUS_BAD_REQUEST);
    assert_eq!(r.response.message, MESSAGE_GET_USER_FAILED);
}

#[test]
fn preferred_name_update_shows_up() {
    let mut store = Store::new();
    account_service::signup(alice(), &mut store);
    let r = account_service::put_preferred_name(
        "alice".to_string(),
        UpdatePreferredName {
            preferred_name: "Ally".to_string(),
        },
        &mut store,
    );
    assert_eq!(r.status_code, STATUS_OK);
    let r = account_service::get_user("alice".to_string(), &store);
    match r.response.data {
        ResponseData::UserInfo(u) => assert_eq!(u.preferred_name, "Ally"),
        _ => panic!("expected a profile payload"),
    }
}

#[test]
fn application_starts_empty() {
    let app = rocket(secret());
    assert_eq!(app.store.users.len(), 0);
    assert_eq!(app.store.lists.len(), 0);
    assert_eq!(app.secret, secret());
    assert_eq!(index(), "Hello world!");
    assert_eq!(not_found("/nope"), "Sorry, '/nope' is not a valid path.");
}

#[test]
fn request_payloads_convert() {
    let created = CreateUser {
        name: "Alice".to_string(),
        username: "alice".to_string(),
        email: "alice@x.com".to_string(),
        password: "pw1".to_string(),
    };
    let dto = created.into_user_dto();
    assert_eq!(dto.username, "alice");
    assert_eq!(dto.email, "alice@x.com");
    assert_eq!(dto.preferred_name, "Alice");
    assert_eq!(dto.password, "pw1");

    let logged = LoggedInUser {
        username: "alice".to_string(),
        password: "pw1".to_string(),
    };
    let login = logged.into_login();
    assert_eq!(login.username_or_email, "alice");
    assert_eq!(login.password, "pw1");
}

#[test]
fn storage_steps_have_exact_outcomes() {
    let mut store = Store::new();
    // Inserting a prepared row succeeds exactly when username and email
    // are free.
    let fresh = NewUser {
        username: "dora".to_string(),
        email: "d@x.com".to_string(),
        preferred_name: "Dora".to_string(),
        password_hash: "a-sixty-char-hash-stand-in".to_string(),
    };
    assert!(User::insert_user(fresh, &mut store));
    let taken = NewUser {
        username: "dora".to_string(),
        email: "other@x.com".to_string(),
        preferred_name: "D".to_string(),
        password_hash: "h".to_string(),
    };
    assert!(!User::insert_user(taken, &mut store));
    assert_eq!(store.users.len(), 1);

    // Storing a new hash succeeds exactly when the user is stored, and
    // freshens the session.
    let before = store.users[0].session;
    assert!(User::set_password_hash(
        "dora".to_string(),
        "another-hash".to_string(),
        &mut store,
    ));
    assert_eq!(store.users[0].password_hash, "another-hash");
    assert_ne!(store.users[0].session, before);
    assert!(!User::set_password_hash(
        "nobody".to_string(),
        "h".to_string(),
        &mut store,
    ));
}
