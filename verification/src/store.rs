//! The in-memory model of the four persisted tables — users, lists, items and
//! the user-to-list association — together with the invariant that the
//! storage layer is required to maintain: unique identifiers, unique
//! usernames and emails, at most one association per (user, list) pair, and
//! referential integrity from items and associations to their lists and
//! users. Every operation of the library works on this model and preserves
//! the invariant.

use vstd::prelude::*;

verus! {

/// A full row in the users table. `session` is the identifier of the user's
/// current login session; a token is only honoured while it carries this
/// value, so overwriting it revokes every outstanding token at once.
/// A `session` of zero means the user has never logged in.
pub struct User {
    pub id: i32,
    pub username: String,
    pub email: String,
    pub preferred_name: String,
    pub password_hash: String,
    pub session: u64,
}

/// A full row in the lists table. The creation date is a day number supplied
/// by the caller, since the clock is injected rather than read ambiently.
pub struct List {
    pub list_id: i32,
    pub name: String,
    pub description: Option<String>,
    pub date_created: u64,
}

/// A full row in the items table. Every item belongs to exactly one list.
pub struct Item {
    pub item_id: i32,
    pub list_id: i32,
    pub description: String,
    pub finished: bool,
}

/// A row in the user_lists table associating a user with a list they can
/// reach. `is_owner` marks the single owner-of-record.
pub struct UserList {
    pub id: i32,
    pub user_id: i32,
    pub list_id: i32,
    pub is_owner: bool,
}

/// Removing one row keeps every other row's membership: what the removed
/// table still contains is what it contained, less the removed row.
pub proof fn lemma_remove_keeps_membership<A>(s: Seq<A>, k: int)
    requires
        0 <= k < s.len(),
    ensures
        forall|x: A| s.remove(k).contains(x) ==> s.contains(x),
        forall|x: A| s.contains(x) && x != s[k] ==> s.remove(k).contains(x),
{
    s.remove_ensures(k);
    assert forall|x: A| s.remove(k).contains(x) implies s.contains(x) by {
        let m = choose|m: int| 0 <= m < s.remove(k).len() && s.remove(k)[m] == x;
        if m < k {
            assert(s[m] == x);
        } else {
            assert(s[m + 1] == x);
        }
    }
    assert forall|x: A| s.contains(x) && x != s[k] implies s.remove(k).contains(x) by {
        let m = choose|m: int| 0 <= m < s.len() && s[m] == x;
        if m < k {
            assert(s.remove(k)[m] == x);
        } else {
            assert(s.remove(k)[m - 1] == x);
        }
    }
}

/// Two stores with the same users and lists tables resolve the same user
/// ids and list ids.
pub proof fn lemma_same_tables_same_refs(a: Store, b: Store)
    requires
        b.users@ == a.users@,
        b.lists@ == a.lists@,
    ensures
        forall|uid: int| a.spec_has_user(uid) ==> b.spec_has_user(uid),
        forall|lid: int| a.spec_has_list(lid) ==> b.spec_has_list(lid),
{
    assert forall|uid: int| a.spec_has_user(uid) implies b.spec_has_user(uid) by {
        let w = choose|w: int| 0 <= w < a.users@.len() && (#[trigger] a.users@[w]).id == uid;
        assert(b.users@[w].id == uid);
    }
    assert forall|lid: int| a.spec_has_list(lid) implies b.spec_has_list(lid) by {
        let w = choose|w: int| 0 <= w < a.lists@.len() && (#[trigger] a.lists@[w]).list_id == lid;
        assert(b.lists@[w].list_id == lid);
    }
}

/// Removing one association row, and nothing else, preserves the storage
/// invariant.
pub proof fn lemma_links_remove_wf(pre: Store, post: Store, k: int)
    requires
        pre.wf(),
        0 <= k < pre.links@.len(),
        post.links@ == pre.links@.remove(k),
        post.users@ == pre.users@,
        post.lists@ == pre.lists@,
        post.items@ == pre.items@,
        post.next_user_id == pre.next_user_id,
        post.next_list_id == pre.next_list_id,
        post.next_item_id == pre.next_item_id,
        post.next_link_id == pre.next_link_id,
        post.session_counter == pre.session_counter,
    ensures
        post.wf(),
{
    pre.links@.remove_ensures(k);
    lemma_same_tables_same_refs(pre, post);
    assert forall|m: int| 0 <= m < post.links@.len() implies {
        &&& 0 < (#[trigger] post.links@[m]).id < post.next_link_id
        &&& post.spec_has_list(post.links@[m].list_id as int)
        &&& post.spec_has_user(post.links@[m].user_id as int)
    } by {
        if m < k {
            assert(post.links@[m] == pre.links@[m]);
        } else {
            assert(post.links@[m] == pre.links@[m + 1]);
        }
    }
    assert forall|m: int, mm: int|
        0 <= m < post.links@.len() && 0 <= mm < post.links@.len() && m != mm implies {
        &&& post.links@[m].id != post.links@[mm].id
        &&& !(post.links@[m].user_id == post.links@[mm].user_id && post.links@[m].list_id
            == post.links@[mm].list_id)
    } by {
        let m0: int = if m < k {
            m
        } else {
            m + 1
        };
        let mm0: int = if mm < k {
            mm
        } else {
            mm + 1
        };
        assert(post.links@[m] == pre.links@[m0]);
        assert(post.links@[mm] == pre.links@[mm0]);
        assert(pre.links@[m0].id != pre.links@[mm0].id);
    }
}

/// Removing one item row, and nothing else, preserves the storage
/// invariant.
pub proof fn lemma_items_remove_wf(pre: Store, post: Store, k: int)
    requires
        pre.wf(),
        0 <= k < pre.items@.len(),
        post.items@ == pre.items@.remove(k),
        post.users@ == pre.users@,
        post.lists@ == pre.lists@,
        post.links@ == pre.links@,
        post.next_user_id == pre.next_user_id,
        post.next_list_id == pre.next_list_id,
        post.next_item_id == pre.next_item_id,
        post.next_link_id == pre.next_link_id,
        post.session_counter == pre.session_counter,
    ensures
        post.wf(),
{
    pre.items@.remove_ensures(k);
    lemma_same_tables_same_refs(pre, post);
    assert forall|m: int| 0 <= m < post.items@.len() implies {
        &&& 0 < (#[trigger] post.items@[m]).item_id < post.next_item_id
        &&& post.spec_has_list(post.items@[m].list_id as int)
    } by {
        if m < k {
            assert(post.items@[m] == pre.items@[m]);
        } else {
            assert(post.items@[m] == pre.items@[m + 1]);
        }
    }
    assert forall|m: int, mm: int|
        0 <= m < post.items@.len() && 0 <= mm < post.items@.len() && m != mm implies post
        .items@[m].item_id != post.items@[mm].item_id by {
        let m0: int = if m < k {
            m
        } else {
            m + 1
        };
        let mm0: int = if mm < k {
            mm
        } else {
            mm + 1
        };
        assert(post.items@[m] == pre.items@[m0]);
        assert(post.items@[mm] == pre.items@[mm0]);
        assert(pre.items@[m0].item_id != pre.items@[mm0].item_id);
    }
}

/// Removing one list row, once nothing references it any more, preserves
/// the storage invariant.
pub proof fn lemma_lists_remove_wf(pre: Store, post: Store, k: int)
    requires
        pre.wf(),
        0 <= k < pre.lists@.len(),
        post.lists@ == pre.lists@.remove(k),
        post.users@ == pre.users@,
        post.items@ == pre.items@,
        post.links@ == pre.links@,
        post.next_user_id == pre.next_user_id,
        post.next_list_id == pre.next_list_id,
        post.next_item_id == pre.next_item_id,
        post.next_link_id == pre.next_link_id,
        post.session_counter == pre.session_counter,
        forall|j: int|
            0 <= j < pre.items@.len() ==> (#[trigger] pre.items@[j]).list_id != pre.lists@[k].list_id,
        forall|j: int|
            0 <= j < pre.links@.len() ==> (#[trigger] pre.links@[j]).list_id != pre.lists@[k].list_id,
    ensures
        post.wf(),
        forall|lid: int|
            lid != pre.lists@[k].list_id ==> (pre.spec_has_list(lid) == post.spec_has_list(lid)),
        !post.spec_has_list(pre.lists@[k].list_id as int),
{
    pre.lists@.remove_ensures(k);
    assert forall|uid: int| pre.spec_has_user(uid) implies post.spec_has_user(uid) by {
        let w = choose|w: int| 0 <= w < pre.users@.len() && (#[trigger] pre.users@[w]).id == uid;
        assert(post.users@[w].id == uid);
    }
    assert forall|lid: int|
        lid != pre.lists@[k].list_id && pre.spec_has_list(lid) implies post.spec_has_list(
        lid,
    ) by {
        let w = choose|w: int|
            0 <= w < pre.lists@.len() && (#[trigger] pre.lists@[w]).list_id == lid;
        if w < k {
            assert(post.lists@[w].list_id == lid);
        } else {
            assert(post.lists@[w - 1].list_id == lid);
        }
    }
    assert forall|lid: int| post.spec_has_list(lid) implies pre.spec_has_list(lid) by {
        let w = choose|w: int|
            0 <= w < post.lists@.len() && (#[trigger] post.lists@[w]).list_id == lid;
        if w < k {
            assert(pre.lists@[w].list_id == lid);
        } else {
            assert(pre.lists@[w + 1].list_id == lid);
        }
    }
    assert forall|m: int, mm: int|
        0 <= m < post.lists@.len() && 0 <= mm < post.lists@.len() && m != mm implies post
        .lists@[m].list_id != post.lists@[mm].list_id by {
        let m0: int = if m < k {
            m
        } else {
            m + 1
        };
        let mm0: int = if mm < k {
            mm
        } else {
            mm + 1
        };
        assert(post.lists@[m] == pre.lists@[m0]);
        assert(post.lists@[mm] == pre.lists@[mm0]);
        assert(pre.lists@[m0].list_id != pre.lists@[mm0].list_id);
    }
    if post.spec_has_list(pre.lists@[k].list_id as int) {
        let w = choose|w: int|
            0 <= w < post.lists@.len() && (#[trigger] post.lists@[w]).list_id
                == pre.lists@[k].list_id;
        let w0: int = if w < k {
            w
        } else {
            w + 1
        };
        assert(pre.lists@[w0] == post.lists@[w]);
        assert(false);
    }
}

impl Clone for User {
    fn clone(&self) -> (r: Self)
        ensures
            r == *self,
    {
        User {
            id: self.id,
            username: self.username.clone(),
            email: self.email.clone(),
            preferred_name: self.preferred_name.clone(),
            password_hash: self.password_hash.clone(),
            session: self.session,
        }
    }
}

impl Clone for List {
    fn clone(&self) -> (r: Self)
        ensures
            r == *self,
    {
        List {
            list_id: self.list_id,
            name: self.name.clone(),
            description: match &self.description {
                Option::Some(d) => Option::Some(d.clone()),
                Option::None => Option::None,
            },
            date_created: self.date_created,
        }
    }
}

impl Clone for Item {
    fn clone(&self) -> (r: Self)
        ensures
            r == *self,
    {
        Item {
            item_id: self.item_id,
            list_id: self.list_id,
            description: self.description.clone(),
            finished: self.finished,
        }
    }
}

impl Clone for UserList {
    fn clone(&self) -> (r: Self)
        ensures
            r == *self,
    {
        UserList {
            id: self.id,
            user_id: self.user_id,
            list_id: self.list_id,
            is_owner: self.is_owner,
        }
    }
}

/// The four tables plus the id counters the storage layer would keep, and
/// the counter from which fresh session identifiers are drawn.
pub struct Store {
    pub users: Vec<User>,
    pub lists: Vec<List>,
    pub items: Vec<Item>,
    pub links: Vec<UserList>,
    pub next_user_id: i32,
    pub next_list_id: i32,
    pub next_item_id: i32,
    pub next_link_id: i32,
    pub session_counter: u64,
}

impl Store {
    /// The storage invariant. Constructors establish it and every operation
    /// preserves it.
    pub open spec fn wf(self) -> bool {
        &&& self.users_wf()
        &&& self.lists_wf()
        &&& self.items_wf()
        &&& self.links_wf()
    }

    pub open spec fn users_wf(self) -> bool {
        &&& self.next_user_id >= 1
        &&& self.session_counter >= 1
        &&& forall|i: int|
            0 <= i < self.users@.len() ==> {
                &&& 0 < (#[trigger] self.users@[i]).id < self.next_user_id
                &&& self.users@[i].session < self.session_counter
            }
        &&& forall|i: int, j: int|
            #![trigger self.users@[i], self.users@[j]]
            0 <= i < self.users@.len() && 0 <= j < self.users@.len() && i != j ==> {
                &&& self.users@[i].id != self.users@[j].id
                &&& self.users@[i].username@ != self.users@[j].username@
                &&& self.users@[i].email@ != self.users@[j].email@
            }
    }

    pub open spec fn lists_wf(self) -> bool {
        &&& self.next_list_id >= 1
        &&& forall|i: int|
            0 <= i < self.lists@.len() ==> 0 < (#[trigger] self.lists@[i]).list_id
                < self.next_list_id
        &&& forall|i: int, j: int|
            #![trigger self.lists@[i], self.lists@[j]]
            0 <= i < self.lists@.len() && 0 <= j < self.lists@.len() && i != j
                ==> self.lists@[i].list_id != self.lists@[j].list_id
    }

    pub open spec fn items_wf(self) -> bool {
        &&& self.next_item_id >= 1
        &&& forall|i: int|
            0 <= i < self.items@.len() ==> {
                &&& 0 < (#[trigger] self.items@[i]).item_id < self.next_item_id
                &&& self.spec_has_list(self.items@[i].list_id as int)
            }
        &&& forall|i: int, j: int|
            #![trigger self.items@[i], self.items@[j]]
            0 <= i < self.items@.len() && 0 <= j < self.items@.len() && i != j
                ==> self.items@[i].item_id != self.items@[j].item_id
    }

    pub open spec fn links_wf(self) -> bool {
        &&& self.next_link_id >= 1
        &&& forall|i: int|
            0 <= i < self.links@.len() ==> {
                &&& 0 < (#[trigger] self.links@[i]).id < self.next_link_id
                &&& self.spec_has_list(self.links@[i].list_id as int)
                &&& self.spec_has_user(self.links@[i].user_id as int)
            }
        &&& forall|i: int, j: int|
            #![trigger self.links@[i], self.links@[j]]
            0 <= i < self.links@.len() && 0 <= j < self.links@.len() && i != j ==> {
                &&& self.links@[i].id != self.links@[j].id
                &&& !(self.links@[i].user_id == self.links@[j].user_id
                    && self.links@[i].list_id == self.links@[j].list_id)
            }
    }

    /// A user with this id is stored.
    pub open spec fn spec_has_user(self, user_id: int) -> bool {
        exists|i: int| 0 <= i < self.users@.len() && (#[trigger] self.users@[i]).id == user_id
    }

    /// A user with this username is stored.
    pub open spec fn spec_has_username(self, username: Seq<char>) -> bool {
        exists|i: int|
            0 <= i < self.users@.len() && (#[trigger] self.users@[i]).username@ == username
    }

    /// A user with this email is stored.
    pub open spec fn spec_has_email(self, email: Seq<char>) -> bool {
        exists|i: int| 0 <= i < self.users@.len() && (#[trigger] self.users@[i]).email@ == email
    }

    /// A list with this id is stored.
    pub open spec fn spec_has_list(self, list_id: int) -> bool {
        exists|i: int| 0 <= i < self.lists@.len() && (#[trigger] self.lists@[i]).list_id == list_id
    }

    /// An item with this id is stored.
    pub open spec fn spec_has_item(self, item_id: int) -> bool {
        exists|i: int| 0 <= i < self.items@.len() && (#[trigger] self.items@[i]).item_id == item_id
    }

    /// The item with id `item_id` is stored and belongs to the list with id
    /// `list_id`.
    pub open spec fn spec_item_in_list(self, item_id: int, list_id: int) -> bool {
        exists|i: int|
            0 <= i < self.items@.len() && (#[trigger] self.items@[i]).item_id == item_id
                && self.items@[i].list_id == list_id
    }

    /// Some association row links this user to this list. This is the access
    /// relation: holding it permits reading the list and touching its items.
    pub open spec fn spec_has_access(self, list_id: int, user_id: int) -> bool {
        exists|i: int|
            0 <= i < self.links@.len() && (#[trigger] self.links@[i]).user_id == user_id
                && self.links@[i].list_id == list_id
    }

    /// An association row links this user to this list with the ownership
    /// flag set. Ownership is required to delete the list itself.
    pub open spec fn spec_is_owner(self, list_id: int, user_id: int) -> bool {
        exists|i: int|
            0 <= i < self.links@.len() && (#[trigger] self.links@[i]).user_id == user_id
                && self.links@[i].list_id == list_id && self.links@[i].is_owner
    }

    /// Whether a list row with this id is stored.
    pub fn contains_list(&self, list_id: i32) -> (r: bool)
        ensures
            r == self.spec_has_list(list_id as int),
    {
        let n = self.lists.len();
        let mut i: usize = 0;
        while i < n
            invariant
                n == self.lists@.len(),
                0 <= i <= n,
                forall|j: int| 0 <= j < i ==> (#[trigger] self.lists@[j]).list_id != list_id,
            decreases n - i,
        {
            if self.lists[i].list_id == list_id {
                return true;
            }
            i += 1;
        }
        false
    }

    /// Whether a user row with this id is stored.
    pub fn contains_user(&self, user_id: i32) -> (r: bool)
        ensures
            r == self.spec_has_user(user_id as int),
    {
        let n = self.users.len();
        let mut i: usize = 0;
        while i < n
            invariant
                n == self.users@.len(),
                0 <= i <= n,
                forall|j: int| 0 <= j < i ==> (#[trigger] self.users@[j]).id != user_id,
            decreases n - i,
        {
            if self.users[i].id == user_id {
                return true;
            }
            i += 1;
        }
        false
    }

    /// An empty store: no rows, counters at their starting values.
    pub fn new() -> (s: Store)
        ensures
            s.wf(),
            s.users@.len() == 0,
            s.lists@.len() == 0,
            s.items@.len() == 0,
            s.links@.len() == 0,
            s.session_counter == 1,
    {
        Store {
            users: Vec::new(),
            lists: Vec::new(),
            items: Vec::new(),
            links: Vec::new(),
            next_user_id: 1,
            next_list_id: 1,
            next_item_id: 1,
            next_link_id: 1,
            session_counter: 1,
        }
    }
}

} // verus!
