//! The user directory and the account operations on it: signup, login with
//! session renewal, token liveness (the revocation check), lookups, and the
//! two profile updates. All of them work on the store model; the password
//! hash itself comes from the credential store.

use vstd::prelude::*;

use crate::password::{hash_password, password_matches, verify_password};
use crate::store::{Store, User};
use crate::text::str_eq;
use crate::token::UserToken;

verus! {

/// The information a caller supplies to create an account; the password has
/// not been hashed yet.
pub struct UserDTO {
    pub username: String,
    pub email: String,
    pub preferred_name: String,
    pub password: String,
}

/// A new row ready to insert into the users table: the password has been
/// replaced by its hash.
pub struct NewUser {
    pub username: String,
    pub email: String,
    pub preferred_name: String,
    pub password_hash: String,
}

/// The credentials a caller supplies to log in: one handle that may be
/// either the username or the email, and the password.
pub struct LoginDTO {
    pub username_or_email: String,
    pub password: String,
}

/// The identity that a successful login resolves to, together with the
/// fresh session identifier that was persisted onto the user record; this is
/// what gets encoded into the login token.
pub struct LoginInfoDTO {
    pub id: i32,
    pub username: String,
    pub session: u64,
}

/// A user's public information, as returned by a profile read.
pub struct UserInformation {
    pub username: String,
    pub email: String,
    pub preferred_name: String,
}

/// The payload of a preferred-name update.
pub struct UpdatePreferredName {
    pub preferred_name: String,
}

/// The payload of a password update.
pub struct UpdatePassword {
    pub password: String,
}

/// The credentials of a user logging in: a username and a password. The
/// handle-based `LoginDTO` generalises this to "username or email".
pub struct LoggedInUser {
    pub username: String,
    pub password: String,
}

/// The information a caller supplies to create an account, with the
/// display name under its request-facing name.
pub struct CreateUser {
    pub name: String,
    pub username: String,
    pub email: String,
    pub password: String,
}

impl LoggedInUser {
    /// The login credentials these amount to.
    pub fn into_login(self) -> (r: LoginDTO)
        ensures
            r.username_or_email == self.username,
            r.password == self.password,
    {
        LoginDTO { username_or_email: self.username, password: self.password }
    }
}

impl CreateUser {
    /// The signup information these amount to.
    pub fn into_user_dto(self) -> (r: UserDTO)
        ensures
            r.username == self.username,
            r.email == self.email,
            r.preferred_name == self.name,
            r.password == self.password,
    {
        UserDTO {
            username: self.username,
            email: self.email,
            preferred_name: self.name,
            password: self.password,
        }
    }
}

/// The handle given at login picks out a user when it equals their username
/// or their email.
pub open spec fn handle_matches(u: User, handle: Seq<char>) -> bool {
    u.username@ == handle || u.email@ == handle
}

/// When one user row is rewritten in place without touching its id, every
/// user id that resolved before still resolves: the association table's
/// references stay intact.
proof fn assert_stable_user_refs(a: Store, b: Store, i: int)
    requires
        b.users@.len() == a.users@.len(),
        0 <= i < a.users@.len(),
        b.users@[i].id == a.users@[i].id,
        forall|j: int| 0 <= j < a.users@.len() && j != i ==> b.users@[j] == a.users@[j],
    ensures
        forall|uid: int| a.spec_has_user(uid) ==> b.spec_has_user(uid),
{
    assert forall|uid: int| a.spec_has_user(uid) implies b.spec_has_user(uid) by {
        let k = choose|k: int| 0 <= k < a.users@.len() && (#[trigger] a.users@[k]).id == uid;
        assert(b.users@[k].id == uid);
    }
}

impl Store {
    /// A session is live when a stored user carries exactly this id, this
    /// username and this session identifier. A session that has been
    /// superseded by a later login is dead: revoked.
    pub open spec fn spec_session_live(self, id: int, username: Seq<char>, session: u64) -> bool {
        exists|i: int|
            0 <= i < self.users@.len() && (#[trigger] self.users@[i]).id == id
                && self.users@[i].username@ == username && self.users@[i].session == session
    }

    /// A token is live when the session it was issued for still is.
    pub open spec fn spec_token_live(self, t: UserToken) -> bool {
        self.spec_session_live(t.id as int, t.username@, t.session)
    }
}

/// What a successful signup does to the store: the username and email were
/// free, one user row was appended with the submitted profile, a hash that
/// matches the submitted password and no live session, and nothing else
/// moved.
pub open spec fn spec_signup_applied(pre: Store, post: Store, user: UserDTO) -> bool {
    &&& !pre.spec_has_username(user.username@)
    &&& !pre.spec_has_email(user.email@)
    &&& pre.next_user_id < i32::MAX
    &&& post.users@.len() == pre.users@.len() + 1
    &&& post.users@.subrange(0, pre.users@.len() as int) == pre.users@
    &&& post.users@.last().id == pre.next_user_id
    &&& post.users@.last().username@ == user.username@
    &&& post.users@.last().email@ == user.email@
    &&& post.users@.last().preferred_name@ == user.preferred_name@
    &&& password_matches(user.password@, post.users@.last().password_hash@)
    &&& post.users@.last().password_hash@.len() > 0
    &&& post.users@.last().session == 0
    &&& post.next_user_id == pre.next_user_id + 1
    &&& post.lists@ == pre.lists@
    &&& post.items@ == pre.items@
    &&& post.links@ == pre.links@
    &&& post.session_counter == pre.session_counter
}

/// What inserting a prepared user row does to the store: the row is
/// appended under a fresh id with no live session, and nothing else moves.
pub open spec fn spec_user_inserted(pre: Store, post: Store, row: NewUser) -> bool {
    &&& post.users@.len() == pre.users@.len() + 1
    &&& post.users@.subrange(0, pre.users@.len() as int) == pre.users@
    &&& post.users@.last().id == pre.next_user_id
    &&& post.users@.last().username == row.username
    &&& post.users@.last().email == row.email
    &&& post.users@.last().preferred_name == row.preferred_name
    &&& post.users@.last().password_hash == row.password_hash
    &&& post.users@.last().session == 0
    &&& post.next_user_id == pre.next_user_id + 1
    &&& post.lists@ == pre.lists@
    &&& post.items@ == pre.items@
    &&& post.links@ == pre.links@
    &&& post.session_counter == pre.session_counter
}

/// A login with these credentials resolves: the first user whose username
/// or email equals the handle exists, has a stored hash, and the password
/// matches it.
pub open spec fn spec_login_candidate(pre: Store, login: LoginDTO) -> bool {
    exists|i: int|
        {
            &&& 0 <= i < pre.users@.len()
            &&& handle_matches(#[trigger] pre.users@[i], login.username_or_email@)
            &&& forall|j: int|
                0 <= j < i ==> !handle_matches(#[trigger] pre.users@[j], login.username_or_email@)
            &&& pre.users@[i].password_hash@.len() > 0
            &&& password_matches(login.password@, pre.users@[i].password_hash@)
        }
}

/// What a successful login does to the store, and what identity it hands
/// back: the resolved user's row now carries the freshly drawn session
/// identifier — revoking every token issued before — the returned identity
/// carries the same id, username and session, and nothing else moved.
pub open spec fn spec_login_granted(
    pre: Store,
    post: Store,
    login: LoginDTO,
    info: LoginInfoDTO,
) -> bool {
    &&& pre.session_counter < u64::MAX
    &&& info.session == pre.session_counter
    &&& post.session_counter == pre.session_counter + 1
    &&& exists|i: int|
        {
            &&& 0 <= i < pre.users@.len()
            &&& handle_matches(#[trigger] pre.users@[i], login.username_or_email@)
            &&& password_matches(login.password@, pre.users@[i].password_hash@)
            &&& info.id == pre.users@[i].id
            &&& info.username@ == pre.users@[i].username@
            &&& post.users@.len() == pre.users@.len()
            &&& post.users@[i].id == pre.users@[i].id
            &&& post.users@[i].username == pre.users@[i].username
            &&& post.users@[i].email == pre.users@[i].email
            &&& post.users@[i].preferred_name == pre.users@[i].preferred_name
            &&& post.users@[i].password_hash == pre.users@[i].password_hash
            &&& post.users@[i].session == pre.session_counter
            &&& forall|j: int|
                0 <= j < pre.users@.len() && j != i ==> post.users@[j] == pre.users@[j]
        }
    &&& post.lists@ == pre.lists@
    &&& post.items@ == pre.items@
    &&& post.links@ == pre.links@
    &&& post.next_user_id == pre.next_user_id
}

/// What a successful preferred-name update does to the store: the one user
/// row with this username carries the new preferred name, everything else
/// about it and everything around it is untouched.
pub open spec fn spec_preferred_name_updated(
    pre: Store,
    post: Store,
    username: String,
    preferred_name: UpdatePreferredName,
) -> bool {
    &&& post.users@.len() == pre.users@.len()
    &&& exists|i: int|
        {
            &&& 0 <= i < pre.users@.len()
            &&& (#[trigger] pre.users@[i]).username@ == username@
            &&& post.users@[i].preferred_name@ == preferred_name.preferred_name@
            &&& post.users@[i].id == pre.users@[i].id
            &&& post.users@[i].username == pre.users@[i].username
            &&& post.users@[i].email == pre.users@[i].email
            &&& post.users@[i].password_hash == pre.users@[i].password_hash
            &&& post.users@[i].session == pre.users@[i].session
            &&& forall|j: int|
                0 <= j < pre.users@.len() && j != i ==> post.users@[j] == pre.users@[j]
        }
    &&& post.lists@ == pre.lists@
    &&& post.items@ == pre.items@
    &&& post.links@ == pre.links@
    &&& post.session_counter == pre.session_counter
    &&& post.next_user_id == pre.next_user_id
}

/// What a successful password update does to the store: the one user row
/// with this username carries a hash that matches the new password and a
/// freshly drawn session identifier — revoking every outstanding token —
/// and everything else about it and around it is untouched.
pub open spec fn spec_password_updated(
    pre: Store,
    post: Store,
    username: String,
    password: UpdatePassword,
) -> bool {
    &&& pre.session_counter < u64::MAX
    &&& post.users@.len() == pre.users@.len()
    &&& post.session_counter == pre.session_counter + 1
    &&& exists|i: int|
        {
            &&& 0 <= i < pre.users@.len()
            &&& (#[trigger] pre.users@[i]).username@ == username@
            &&& password_matches(password.password@, post.users@[i].password_hash@)
            &&& post.users@[i].password_hash@.len() > 0
            &&& post.users@[i].session == pre.session_counter
            &&& post.users@[i].id == pre.users@[i].id
            &&& post.users@[i].username == pre.users@[i].username
            &&& post.users@[i].email == pre.users@[i].email
            &&& post.users@[i].preferred_name == pre.users@[i].preferred_name
            &&& forall|j: int|
                0 <= j < pre.users@.len() && j != i ==> post.users@[j] == pre.users@[j]
        }
    &&& post.lists@ == pre.lists@
    &&& post.items@ == pre.items@
    &&& post.links@ == pre.links@
    &&& post.next_user_id == pre.next_user_id
}

/// What storing a new password hash does to the store: the one user row
/// with this username carries the given hash and a freshly drawn session
/// identifier — revoking every outstanding token — and everything else
/// about it and around it is untouched.
pub open spec fn spec_password_hash_set(
    pre: Store,
    post: Store,
    username: String,
    new_hash: String,
) -> bool {
    &&& pre.session_counter < u64::MAX
    &&& post.users@.len() == pre.users@.len()
    &&& post.session_counter == pre.session_counter + 1
    &&& exists|i: int|
        {
            &&& 0 <= i < pre.users@.len()
            &&& (#[trigger] pre.users@[i]).username@ == username@
            &&& post.users@[i].password_hash == new_hash
            &&& post.users@[i].session == pre.session_counter
            &&& post.users@[i].id == pre.users@[i].id
            &&& post.users@[i].username == pre.users@[i].username
            &&& post.users@[i].email == pre.users@[i].email
            &&& post.users@[i].preferred_name == pre.users@[i].preferred_name
            &&& forall|j: int|
                0 <= j < pre.users@.len() && j != i ==> post.users@[j] == pre.users@[j]
        }
    &&& post.lists@ == pre.lists@
    &&& post.items@ == pre.items@
    &&& post.links@ == pre.links@
    &&& post.next_user_id == pre.next_user_id
}

impl User {
    /// Inserts a prepared row into the users table, with no live session
    /// yet. This is the storage step of a signup, after the password has
    /// been hashed: it succeeds exactly when the username and the email are
    /// free and the id space is not exhausted, and writes nothing
    /// otherwise.
    pub fn insert_user(row: NewUser, store: &mut Store) -> (r: bool)
        requires
            old(store).wf(),
        ensures
            final(store).wf(),
            r <==> (!old(store).spec_has_username(row.username@) && !old(store).spec_has_email(
                row.email@,
            ) && old(store).next_user_id < i32::MAX),
            r ==> spec_user_inserted(*old(store), *final(store), row),
            !r ==> *final(store) == *old(store),
    {
        let n = store.users.len();
        let mut i: usize = 0;
        while i < n
            invariant
                *store == *old(store),
                old(store).wf(),
                n == store.users@.len(),
                0 <= i <= n,
                forall|j: int|
                    0 <= j < i ==> (#[trigger] store.users@[j]).username@ != row.username@
                        && store.users@[j].email@ != row.email@,
            decreases n - i,
        {
            if store.users[i].username == row.username || store.users[i].email == row.email {
                return false;
            }
            i += 1;
        }
        if store.next_user_id == i32::MAX {
            return false;
        }
        store.users.push(
            User {
                id: store.next_user_id,
                username: row.username,
                email: row.email,
                preferred_name: row.preferred_name,
                password_hash: row.password_hash,
                session: 0,
            },
        );
        store.next_user_id = store.next_user_id + 1;
        proof {
            assert(store.users@.subrange(0, old(store).users@.len() as int) =~= old(
                store,
            ).users@);
        }
        true
    }

    /// Signs a new user up: hashes the password through the credential
    /// store, then runs the storage step `insert_user`, which carries the
    /// exact success condition of the insertion. Fails when the username or
    /// the email is already taken, when the id space is exhausted, or when
    /// hashing itself fails (the salt's randomness source is the only
    /// cause); nothing is written on failure.
    pub fn signup(user: UserDTO, store: &mut Store) -> (r: bool)
        requires
            old(store).wf(),
        ensures
            final(store).wf(),
            r ==> spec_signup_applied(*old(store), *final(store), user),
            !r ==> *final(store) == *old(store),
            old(store).spec_has_username(user.username@) || old(store).spec_has_email(
                user.email@,
            ) ==> !r,
    {
        let new_hash = match hash_password(&user.password) {
            Some(h) => h,
            None => {
                return false;
            },
        };
        let row = NewUser {
            username: user.username,
            email: user.email,
            preferred_name: user.preferred_name,
            password_hash: new_hash,
        };
        User::insert_user(row, store)
    }

    /// Attempts to log in with the given credentials: the handle must match
    /// the username or the email of a stored user — the first such user,
    /// when a username of one collides with an email of another — and the
    /// password must match that user's stored hash. On success the user's
    /// session identifier is overwritten with a fresh one, which revokes
    /// every token issued before, and the identity to encode into the new
    /// token is returned; on failure nothing changes.
    pub fn login(login: LoginDTO, store: &mut Store) -> (r: Option<LoginInfoDTO>)
        requires
            old(store).wf(),
        ensures
            final(store).wf(),
            r is Some <==> (old(store).session_counter < u64::MAX && spec_login_candidate(
                *old(store),
                login,
            )),
            r matches Some(info) ==> spec_login_granted(*old(store), *final(store), login, info),
            r is None ==> *final(store) == *old(store),
    {
        let n = store.users.len();
        let mut i: usize = 0;
        while i < n
            invariant
                *store == *old(store),
                old(store).wf(),
                n == store.users@.len(),
                0 <= i <= n,
                forall|j: int|
                    0 <= j < i ==> !handle_matches(
                        #[trigger] store.users@[j],
                        login.username_or_email@,
                    ),
            decreases n - i,
        {
            if store.users[i].username == login.username_or_email || store.users[i].email
                == login.username_or_email {
                if !store.users[i].password_hash.as_str().is_empty() && verify_password(
                    &login.password,
                    &store.users[i].password_hash,
                ) {
                    if store.session_counter == u64::MAX {
                        return None;
                    }
                    let fresh = store.session_counter;
                    let info = LoginInfoDTO {
                        id: store.users[i].id,
                        username: store.users[i].username.clone(),
                        session: fresh,
                    };
                    store.users[i].session = fresh;
                    store.session_counter = fresh + 1;
                    proof {
                        assert(forall|k: int|
                            0 <= k < store.users@.len() && k != i ==> store.users@[k] == old(
                                store,
                            ).users@[k]);
                        assert(store.users@[i as int].id == old(store).users@[i as int].id);
                        assert(store.users@[i as int].username == old(
                            store,
                        ).users@[i as int].username);
                        assert(store.users@[i as int].email == old(store).users@[i as int].email);
                        assert forall|uid: int| old(store).spec_has_user(uid) implies store
                            .spec_has_user(uid) by {
                            let k = choose|k: int|
                                0 <= k < old(store).users@.len() && (#[trigger] old(
                                    store,
                                ).users@[k]).id == uid;
                            assert(store.users@[k].id == uid);
                        }
                    }
                    return Some(info);
                } else {
                    return None;
                }
            }
            i += 1;
        }
        None
    }

    /// Tries to find the user with the given unique username.
    pub fn find_user_by_username(un: &str, store: &Store) -> (r: Option<User>)
        ensures
            r is Some <==> store.spec_has_username(un@),
            r matches Some(u) ==> exists|i: int|
                0 <= i < store.users@.len() && #[trigger] store.users@[i] == u && u.username@
                    == un@,
    {
        let n = store.users.len();
        let mut i: usize = 0;
        while i < n
            invariant
                n == store.users@.len(),
                0 <= i <= n,
                forall|j: int| 0 <= j < i ==> (#[trigger] store.users@[j]).username@ != un@,
            decreases n - i,
        {
            if str_eq(store.users[i].username.as_str(), un) {
                return Some(store.users[i].clone());
            }
            i += 1;
        }
        None
    }

    /// Tries to find the user with the given id.
    pub fn find_user_by_id(user_id: i32, store: &Store) -> (r: Option<User>)
        ensures
            r is Some <==> store.spec_has_user(user_id as int),
            r matches Some(u) ==> exists|i: int|
                0 <= i < store.users@.len() && #[trigger] store.users@[i] == u && u.id == user_id,
    {
        let n = store.users.len();
        let mut i: usize = 0;
        while i < n
            invariant
                n == store.users@.len(),
                0 <= i <= n,
                forall|j: int| 0 <= j < i ==> (#[trigger] store.users@[j]).id != user_id,
            decreases n - i,
        {
            if store.users[i].id == user_id {
                return Some(store.users[i].clone());
            }
            i += 1;
        }
        None
    }

    /// Updates the preferred name of the user with the given username.
    /// Returns false, changing nothing, when no such user is stored.
    pub fn update_preferred_name(
        username: String,
        preferred_name: UpdatePreferredName,
        store: &mut Store,
    ) -> (r: bool)
        requires
            old(store).wf(),
        ensures
            final(store).wf(),
            r <==> old(store).spec_has_username(username@),
            !r ==> *final(store) == *old(store),
            r ==> spec_preferred_name_updated(
                *old(store),
                *final(store),
                username,
                preferred_name,
            ),
    {
        let n = store.users.len();
        let mut i: usize = 0;
        while i < n
            invariant
                *store == *old(store),
                old(store).wf(),
                n == store.users@.len(),
                0 <= i <= n,
                forall|j: int| 0 <= j < i ==> (#[trigger] store.users@[j]).username@ != username@,
            decreases n - i,
        {
            if store.users[i].username == username {
                store.users[i].preferred_name = preferred_name.preferred_name;
                proof {
                    assert(forall|k: int|
                        0 <= k < store.users@.len() && k != i ==> store.users@[k] == old(
                            store,
                        ).users@[k]);
                    assert_stable_user_refs(*old(store), *store, i as int);
                }
                return true;
            }
            i += 1;
        }
        false
    }

    /// Stores a new password hash for the user with the given username and
    /// overwrites their session identifier with a fresh one, revoking every
    /// outstanding token. This is the storage step of a password change,
    /// after the new password has been hashed: it succeeds exactly when the
    /// user is stored and the session space is not exhausted, and writes
    /// nothing otherwise.
    pub fn set_password_hash(username: String, new_hash: String, store: &mut Store) -> (r: bool)
        requires
            old(store).wf(),
        ensures
            final(store).wf(),
            r <==> (old(store).spec_has_username(username@) && old(store).session_counter
                < u64::MAX),
            r ==> spec_password_hash_set(*old(store), *final(store), username, new_hash),
            !r ==> *final(store) == *old(store),
    {
        let n = store.users.len();
        let mut i: usize = 0;
        while i < n
            invariant
                *store == *old(store),
                old(store).wf(),
                n == store.users@.len(),
                0 <= i <= n,
                forall|j: int| 0 <= j < i ==> (#[trigger] store.users@[j]).username@ != username@,
            decreases n - i,
        {
            if store.users[i].username == username {
                if store.session_counter == u64::MAX {
                    return false;
                }
                let fresh = store.session_counter;
                store.users[i].password_hash = new_hash;
                store.users[i].session = fresh;
                store.session_counter = fresh + 1;
                proof {
                    assert(forall|k: int|
                        0 <= k < store.users@.len() && k != i ==> store.users@[k] == old(
                            store,
                        ).users@[k]);
                    assert_stable_user_refs(*old(store), *store, i as int);
                }
                return true;
            }
            i += 1;
        }
        false
    }

    /// Updates the password of the user with the given username: hashes the
    /// new password through the credential store, then runs the storage
    /// step `set_password_hash`, which carries the exact success condition
    /// of the write and revokes every outstanding token. Returns false,
    /// changing nothing, when no such user is stored, when the session
    /// space is exhausted, or when hashing itself fails (the salt's
    /// randomness source is the only cause).
    pub fn update_password(username: String, password: UpdatePassword, store: &mut Store) -> (r:
        bool)
        requires
            old(store).wf(),
        ensures
            final(store).wf(),
            !r ==> *final(store) == *old(store),
            !old(store).spec_has_username(username@) ==> !r,
            r ==> spec_password_updated(*old(store), *final(store), username, password),
    {
        let new_hash = match hash_password(&password.password) {
            Some(h) => h,
            None => {
                return false;
            },
        };
        User::set_password_hash(username, new_hash, store)
    }

    /// Checks whether the given decoded token corresponds to a stored user
    /// whose current session identifier is the one the token carries. This
    /// is the revocation check: a later login overwrites the stored session
    /// identifier and thereby kills every earlier token at once.
    pub fn is_valid_login_token(user_token: &UserToken, store: &Store) -> (r: bool)
        ensures
            r == store.spec_token_live(*user_token),
    {
        let n = store.users.len();
        let mut i: usize = 0;
        while i < n
            invariant
                n == store.users@.len(),
                0 <= i <= n,
                forall|j: int|
                    0 <= j < i ==> !((#[trigger] store.users@[j]).id == user_token.id
                        && store.users@[j].username@ == user_token.username@
                        && store.users@[j].session == user_token.session),
            decreases n - i,
        {
            if store.users[i].id == user_token.id && store.users[i].username
                == user_token.username && store.users[i].session == user_token.session {
                return true;
            }
            i += 1;
        }
        false
    }
}

} // verus!
