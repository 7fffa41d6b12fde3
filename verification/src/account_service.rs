//! The account operations as the outside world sees them: each one runs the
//! corresponding store operation and wraps its outcome in the response
//! envelope, with the status code and the machine-stable message the
//! operation's result calls for.

use vstd::prelude::*;

use crate::constants::{
    MESSAGE_GET_USER_FAILED, MESSAGE_GET_USER_SUCCESS, MESSAGE_LOGIN_FAILED,
    MESSAGE_LOGIN_SUCCESS, MESSAGE_SIGNUP_FAILED, MESSAGE_SIGNUP_SUCCESS, MESSAGE_UPDATE_FAILED,
    MESSAGE_UPDATE_SUCCESS, STATUS_BAD_REQUEST, STATUS_OK,
};
use crate::response::{Response, ResponseData, ResponseWithStatus};
use crate::store::{Store, User};
use crate::token::{generate_token, token_of, ONE_WEEK};
use crate::users::{
    spec_login_candidate, spec_login_granted, spec_password_updated, spec_preferred_name_updated,
    spec_signup_applied, LoginDTO, LoginInfoDTO, UpdatePassword, UpdatePreferredName, UserDTO,
    UserInformation,
};

verus! {

/// Attempts to sign up a new user with the given information. A successful
/// response means the user is now stored; a failed one means nothing was
/// written — in particular, a taken username or email always fails.
pub fn signup(user: UserDTO, store: &mut Store) -> (r: ResponseWithStatus)
    requires
        old(store).wf(),
    ensures
        final(store).wf(),
        r.status_code == STATUS_OK || r.status_code == STATUS_BAD_REQUEST,
        r.status_code == STATUS_OK ==> {
            &&& spec_signup_applied(*old(store), *final(store), user)
            &&& r.response.message@ == MESSAGE_SIGNUP_SUCCESS@
            &&& r.response.data is Empty
        },
        r.status_code == STATUS_BAD_REQUEST ==> {
            &&& *final(store) == *old(store)
            &&& r.response.message@ == MESSAGE_SIGNUP_FAILED@
            &&& r.response.data is Empty
        },
        old(store).spec_has_username(user.username@) || old(store).spec_has_email(user.email@)
            ==> r.status_code == STATUS_BAD_REQUEST,
{
    if User::signup(user, store) {
        ResponseWithStatus::with(STATUS_OK, MESSAGE_SIGNUP_SUCCESS)
    } else {
        ResponseWithStatus::with(STATUS_BAD_REQUEST, MESSAGE_SIGNUP_FAILED)
    }
}

/// Attempts to log the user in with the given credentials, at the given
/// time. A successful response carries a freshly issued bearer token for
/// the freshly renewed session; a failed one means the credentials did not
/// resolve and nothing changed.
pub fn login(
    credentials: LoginDTO,
    now: u64,
    secret: &Vec<u8>,
    store: &mut Store,
) -> (r: ResponseWithStatus)
    requires
        old(store).wf(),
        now + ONE_WEEK <= u64::MAX,
    ensures
        final(store).wf(),
        r.status_code == STATUS_OK <==> (old(store).session_counter < u64::MAX
            && spec_login_candidate(*old(store), credentials)),
        r.status_code == STATUS_OK ==> {
            &&& r.response.message@ == MESSAGE_LOGIN_SUCCESS@
            &&& exists|info: LoginInfoDTO|
                {
                    &&& #[trigger] spec_login_granted(*old(store), *final(store), credentials, info)
                    &&& r.response.data matches ResponseData::Token(t) && t@ == token_of(
                        now,
                        (now + ONE_WEEK) as u64,
                        info.id,
                        info.username@,
                        info.session,
                        secret@,
                    )
                }
        },
        r.status_code != STATUS_OK ==> {
            &&& r.status_code == STATUS_BAD_REQUEST
            &&& *final(store) == *old(store)
            &&& r.response.message@ == MESSAGE_LOGIN_FAILED@
            &&& r.response.data is Empty
        },
{
    match User::login(credentials, store) {
        Some(info) => {
            let ghost granted_info = info;
            let token = generate_token(info, now, secret);
            let r = ResponseWithStatus {
                status_code: STATUS_OK,
                response: Response {
                    message: MESSAGE_LOGIN_SUCCESS.to_owned(),
                    data: ResponseData::Token(token),
                },
            };
            proof {
                assert(spec_login_granted(*old(store), *store, credentials, granted_info));
            }
            r
        },
        None => ResponseWithStatus::with(STATUS_BAD_REQUEST, MESSAGE_LOGIN_FAILED),
    }
}

/// Returns the public information of the user with the given username, or a
/// failure when no such user is stored.
pub fn get_user(username: String, store: &Store) -> (r: ResponseWithStatus)
    ensures
        r.status_code == STATUS_OK <==> store.spec_has_username(username@),
        r.status_code == STATUS_OK ==> {
            &&& r.response.message@ == MESSAGE_GET_USER_SUCCESS@
            &&& r.response.data matches ResponseData::UserInfo(u) && exists|i: int|
                {
                    &&& 0 <= i < store.users@.len()
                    &&& (#[trigger] store.users@[i]).username@ == username@
                    &&& u.username == store.users@[i].username
                    &&& u.email == store.users@[i].email
                    &&& u.preferred_name == store.users@[i].preferred_name
                }
        },
        r.status_code != STATUS_OK ==> {
            &&& r.status_code == STATUS_BAD_REQUEST
            &&& r.response.message@ == MESSAGE_GET_USER_FAILED@
            &&& r.response.data is Empty
        },
{
    if let Some(user) = User::find_user_by_username(username.as_str(), store) {
        ResponseWithStatus {
            status_code: STATUS_OK,
            response: Response {
                message: MESSAGE_GET_USER_SUCCESS.to_owned(),
                data: ResponseData::UserInfo(
                    UserInformation {
                        username: user.username,
                        email: user.email,
                        preferred_name: user.preferred_name,
                    },
                ),
            },
        }
    } else {
        ResponseWithStatus::with(STATUS_BAD_REQUEST, MESSAGE_GET_USER_FAILED)
    }
}

/// Updates the preferred name of the user with the given username, or
/// fails, changing nothing, when no such user is stored.
pub fn put_preferred_name(
    username: String,
    preferred_name: UpdatePreferredName,
    store: &mut Store,
) -> (r: ResponseWithStatus)
    requires
        old(store).wf(),
    ensures
        final(store).wf(),
        r.status_code == STATUS_OK <==> old(store).spec_has_username(username@),
        r.status_code == STATUS_OK ==> {
            &&& spec_preferred_name_updated(*old(store), *final(store), username, preferred_name)
            &&& r.response.message@ == MESSAGE_UPDATE_SUCCESS@
        },
        r.status_code != STATUS_OK ==> {
            &&& r.status_code == STATUS_BAD_REQUEST
            &&& *final(store) == *old(store)
            &&& r.response.message@ == MESSAGE_UPDATE_FAILED@
        },
        r.response.data is Empty,
{
    if User::update_preferred_name(username, preferred_name, store) {
        ResponseWithStatus::with(STATUS_OK, MESSAGE_UPDATE_SUCCESS)
    } else {
        ResponseWithStatus::with(STATUS_BAD_REQUEST, MESSAGE_UPDATE_FAILED)
    }
}

/// Updates the password of the user with the given username — revoking
/// every token they hold — or fails, changing nothing: always when no such
/// user is stored, and exceptionally when the session space is exhausted or
/// the hash's randomness source fails.
pub fn put_password(
    username: String,
    password: UpdatePassword,
    store: &mut Store,
) -> (r: ResponseWithStatus)
    requires
        old(store).wf(),
    ensures
        final(store).wf(),
        r.status_code == STATUS_OK || r.status_code == STATUS_BAD_REQUEST,
        r.status_code == STATUS_OK ==> {
            &&& spec_password_updated(*old(store), *final(store), username, password)
            &&& r.response.message@ == MESSAGE_UPDATE_SUCCESS@
        },
        r.status_code != STATUS_OK ==> {
            &&& *final(store) == *old(store)
            &&& r.response.message@ == MESSAGE_UPDATE_FAILED@
        },
        !old(store).spec_has_username(username@) ==> r.status_code == STATUS_BAD_REQUEST,
        r.response.data is Empty,
{
    if User::update_password(username, password, store) {
        ResponseWithStatus::with(STATUS_OK, MESSAGE_UPDATE_SUCCESS)
    } else {
        ResponseWithStatus::with(STATUS_BAD_REQUEST, MESSAGE_UPDATE_FAILED)
    }
}

} // verus!
