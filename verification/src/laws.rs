//! The security laws of the library, each proved from the contracts of the
//! operations it speaks about: a fresh login token verifies, a second login
//! revokes the first one's tokens, ownership and access belong to the
//! creator alone, an item answers to exactly one list, and a cascade
//! deletion leaves no access behind.

use vstd::prelude::*;

use crate::list_service::spec_list_created;
use crate::lists::ListDTO;
use crate::store::{Store, UserList};
use crate::token::ONE_WEEK;
use crate::users::{
    spec_login_candidate, spec_login_granted, spec_signup_applied, LoginDTO, LoginInfoDTO,
    UserDTO,
};

verus! {

/// A fresh signup enables a login: once the new user's row is stored —
/// with a hash that matches the password and is never empty — a login with
/// the same username and password resolves, provided no earlier row
/// already answered to that username as a handle. Together with the
/// login contract, this makes the login owed whenever a fresh session
/// identifier can still be drawn.
pub proof fn lemma_signup_enables_login(pre: Store, post: Store, user: UserDTO)
    requires
        spec_signup_applied(pre, post, user),
        forall|j: int|
            0 <= j < pre.users@.len() ==> !crate::users::handle_matches(
                #[trigger] pre.users@[j],
                user.username@,
            ),
    ensures
        spec_login_candidate(
            post,
            LoginDTO { username_or_email: user.username, password: user.password },
        ),
{
    let i = pre.users@.len() as int;
    let credentials = LoginDTO { username_or_email: user.username, password: user.password };
    assert(post.users@[i] == post.users@.last());
    assert forall|j: int|
        0 <= j < i implies !crate::users::handle_matches(
        #[trigger] post.users@[j],
        credentials.username_or_email@,
    ) by {
        assert(post.users@.subrange(0, i)[j] == pre.users@[j]);
        assert(post.users@.subrange(0, i)[j] == post.users@[j]);
    }
    assert(crate::users::handle_matches(post.users@[i], credentials.username_or_email@));
    assert(post.users@[i].password_hash@.len() > 0);
    assert(crate::password::password_matches(
        credentials.password@,
        post.users@[i].password_hash@,
    ));
}

/// A token issued by a successful login verifies immediately after: it is
/// issued strictly inside its validity window, and the session identifier
/// it carries is exactly the one now stored on the user's record, so the
/// expiry check and the revocation check both pass at once.
pub proof fn lemma_fresh_login_token_valid(
    pre: Store,
    post: Store,
    credentials: LoginDTO,
    info: LoginInfoDTO,
    now: u64,
)
    requires
        spec_login_granted(pre, post, credentials, info),
        now + ONE_WEEK <= u64::MAX,
    ensures
        now < now + ONE_WEEK,
        post.spec_session_live(info.id as int, info.username@, info.session),
{
    let i = choose|i: int|
        {
            &&& 0 <= i < pre.users@.len()
            &&& crate::users::handle_matches(
                #[trigger] pre.users@[i],
                credentials.username_or_email@,
            )
            &&& crate::password::password_matches(
                credentials.password@,
                pre.users@[i].password_hash@,
            )
            &&& info.id == pre.users@[i].id
            &&& info.username@ == pre.users@[i].username@
            &&& post.users@.len() == pre.users@.len()
            &&& post.users@[i].id == pre.users@[i].id
            &&& post.users@[i].username == pre.users@[i].username
            &&& post.users@[i].email == pre.users@[i].email
            &&& post.users@[i].preferred_name == pre.users@[i].preferred_name
            &&& post.users@[i].password_hash == pre.users@[i].password_hash
            &&& post.users@[i].session == pre.session_counter
            &&& forall|j: int|
                0 <= j < pre.users@.len() && j != i ==> post.users@[j] == pre.users@[j]
        };
    assert(post.users@[i].id == info.id && post.users@[i].username@ == info.username@
        && post.users@[i].session == info.session);
}

/// Expiry has a sharp boundary: a token issued at `iat` carries the expiry
/// timestamp `iat + ONE_WEEK`, and the verifier reports `Expired` exactly
/// when the clock has reached that timestamp — 604,800 seconds after
/// issue, and not one second earlier.
pub proof fn lemma_expiry_boundary(iat: u64, now: u64)
    requires
        iat + ONE_WEEK <= u64::MAX,
    ensures
        ONE_WEEK == 604800,
        iat + 604799 < iat + ONE_WEEK,
        now >= iat + ONE_WEEK <==> now >= iat + 604800,
{
}

/// Revocation: after a second successful login for the same user, the
/// session stored by the first login is no longer live — so every token
/// issued from it is dead, whatever its signature and expiry say.
pub proof fn lemma_second_login_revokes(
    s0: Store,
    s1: Store,
    s2: Store,
    first: LoginDTO,
    second: LoginDTO,
    info1: LoginInfoDTO,
    info2: LoginInfoDTO,
)
    requires
        s2.wf(),
        spec_login_granted(s0, s1, first, info1),
        spec_login_granted(s1, s2, second, info2),
        info2.id == info1.id,
    ensures
        !s2.spec_session_live(info1.id as int, info1.username@, info1.session),
{
    let j = choose|j: int|
        {
            &&& 0 <= j < s1.users@.len()
            &&& crate::users::handle_matches(#[trigger] s1.users@[j], second.username_or_email@)
            &&& crate::password::password_matches(
                second.password@,
                s1.users@[j].password_hash@,
            )
            &&& info2.id == s1.users@[j].id
            &&& info2.username@ == s1.users@[j].username@
            &&& s2.users@.len() == s1.users@.len()
            &&& s2.users@[j].id == s1.users@[j].id
            &&& s2.users@[j].username == s1.users@[j].username
            &&& s2.users@[j].email == s1.users@[j].email
            &&& s2.users@[j].preferred_name == s1.users@[j].preferred_name
            &&& s2.users@[j].password_hash == s1.users@[j].password_hash
            &&& s2.users@[j].session == s1.session_counter
            &&& forall|k: int|
                0 <= k < s1.users@.len() && k != j ==> s2.users@[k] == s1.users@[k]
        };
    // The first login's session identifier is strictly older than the one
    // the second login stored.
    assert(info1.session == s0.session_counter);
    assert(s1.session_counter == s0.session_counter + 1);
    if s2.spec_session_live(info1.id as int, info1.username@, info1.session) {
        let k = choose|k: int|
            0 <= k < s2.users@.len() && (#[trigger] s2.users@[k]).id as int == info1.id as int
                && s2.users@[k].username@ == info1.username@ && s2.users@[k].session
                == info1.session;
        // Ids are unique, so the live row would have to be the row the
        // second login just re-stamped — whose session is the newer one.
        assert(s2.users@[k].id == s2.users@[j].id);
        assert(k == j);
        assert(false);
    }
}

/// Ownership implies access, and a user with no association has neither:
/// the two questions are answered by the same table, and an owner's row is
/// in particular an access row.
pub proof fn lemma_owner_implies_access(s: Store, list_id: int, user_id: int)
    ensures
        s.spec_is_owner(list_id, user_id) ==> s.spec_has_access(list_id, user_id),
        !s.spec_has_access(list_id, user_id) ==> !s.spec_is_owner(list_id, user_id),
{
    if s.spec_is_owner(list_id, user_id) {
        let i = choose|i: int|
            0 <= i < s.links@.len() && (#[trigger] s.links@[i]).user_id == user_id
                && s.links@[i].list_id == list_id && s.links@[i].is_owner;
        assert(s.links@[i].user_id == user_id && s.links@[i].list_id == list_id);
    }
}

/// Creating a list grants ownership and access to its creator alone: every
/// other user neither owns nor can reach the fresh list.
pub proof fn lemma_create_grants_only_owner(
    pre: Store,
    post: Store,
    list: ListDTO,
    owner_username: Seq<char>,
    other: int,
)
    requires
        pre.wf(),
        spec_list_created(pre, post, list, owner_username),
        other != post.links@.last().user_id as int,
    ensures
        !post.spec_has_access(pre.next_list_id as int, other),
        !post.spec_is_owner(pre.next_list_id as int, other),
{
    if post.spec_has_access(pre.next_list_id as int, other) {
        let m = choose|m: int|
            0 <= m < post.links@.len() && (#[trigger] post.links@[m]).user_id as int == other
                && post.links@[m].list_id as int == pre.next_list_id as int;
        // Only the appended association references the fresh id: every
        // older one references a list that already existed, whose id is
        // smaller.
        assert(m < pre.links@.len() ==> post.links@[m] == pre.links@.subrange(
            0,
            pre.links@.len() as int,
        )[m]);
        if m < pre.links@.len() {
            assert(pre.links@.contains(pre.links@[m]));
            assert(pre.spec_has_list(pre.links@[m].list_id as int));
            let w = choose|w: int|
                0 <= w < pre.lists@.len() && (#[trigger] pre.lists@[w]).list_id
                    == pre.links@[m].list_id;
            assert(false);
        } else {
            assert(post.links@[m] == post.links@.last());
            assert(false);
        }
    }
    lemma_owner_implies_access(post, pre.next_list_id as int, other);
}

/// An item answers to exactly one list: recorded under one list id, it is
/// under no other — which is why a deletion or update aimed at it through
/// a different list, whatever the caller's access there, is refused.
pub proof fn lemma_item_in_one_list(s: Store, item_id: int, home: int, other: int)
    requires
        s.wf(),
        s.spec_item_in_list(item_id, home),
        other != home,
    ensures
        !s.spec_item_in_list(item_id, other),
{
    let i = choose|i: int|
        0 <= i < s.items@.len() && (#[trigger] s.items@[i]).item_id == item_id
            && s.items@[i].list_id == home;
    if s.spec_item_in_list(item_id, other) {
        let k = choose|k: int|
            0 <= k < s.items@.len() && (#[trigger] s.items@[k]).item_id == item_id
                && s.items@[k].list_id == other;
        assert(s.items@[i].item_id == s.items@[k].item_id);
        assert(i == k);
        assert(false);
    }
}

/// A cascade deletion leaves no access behind: once every association that
/// referenced the list is gone, no user — previously linked or not — has
/// access to it, so every later read of the list is refused.
pub proof fn lemma_cascade_leaves_no_access(pre: Store, post: Store, list_id: int)
    requires
        forall|l: UserList|
            post.links@.contains(l) <==> (pre.links@.contains(l) && l.list_id != list_id),
    ensures
        forall|uid: int| !post.spec_has_access(list_id, uid),
{
    assert forall|uid: int| !post.spec_has_access(list_id, uid) by {
        if post.spec_has_access(list_id, uid) {
            let m = choose|m: int|
                0 <= m < post.links@.len() && (#[trigger] post.links@[m]).user_id as int == uid
                    && post.links@[m].list_id as int == list_id;
            assert(post.links@.contains(post.links@[m]));
        }
    }
}

} // verus!
