//! The access-control service: the user-to-list association table and the
//! two questions asked of it — does this user own this list, does this user
//! have access to it — together with linking and unlinking. Ownership
//! implies access; access does not imply ownership. At most one association
//! exists per (user, list) pair.

use vstd::prelude::*;

use crate::store::{
    lemma_links_remove_wf, lemma_remove_keeps_membership, lemma_same_tables_same_refs, List,
    Store, User, UserList,
};

verus! {

/// Why inserting an association failed. `AlreadyLinked` means the (user,
/// list) pair is already associated; `StorageFailed` covers the storage
/// layer's own refusals — a reference to a user or list that is not stored,
/// or an exhausted id space.
#[derive(Clone, Copy, Debug, PartialEq, Eq, Structural)]
pub enum LinkError {
    AlreadyLinked,
    StorageFailed,
}

/// A new row ready to insert into the user_lists table.
pub struct NewUserList {
    pub user_id: i32,
    pub list_id: i32,
    pub is_owner: bool,
}

impl UserList {
    /// Associates the given list and user, with or without the ownership
    /// flag. Fails with `AlreadyLinked` exactly when the pair is already
    /// associated, and with `StorageFailed` exactly when the user or the
    /// list is not stored or the id space is exhausted; nothing is written
    /// on failure.
    pub fn associate_list(list: List, user: User, is_owner: bool, store: &mut Store) -> (r: Result<
        (),
        LinkError,
    >)
        requires
            old(store).wf(),
        ensures
            final(store).wf(),
            r == Result::<(), LinkError>::Err(LinkError::AlreadyLinked) <==> old(
                store,
            ).spec_has_access(list.list_id as int, user.id as int),
            r == Result::<(), LinkError>::Err(LinkError::StorageFailed) <==> (!old(
                store,
            ).spec_has_access(list.list_id as int, user.id as int) && (!old(store).spec_has_user(
                user.id as int,
            ) || !old(store).spec_has_list(list.list_id as int) || old(store).next_link_id
                == i32::MAX)),
            r is Err ==> *final(store) == *old(store),
            r is Ok ==> {
                &&& final(store).links@.len() == old(store).links@.len() + 1
                &&& final(store).links@.subrange(0, old(store).links@.len() as int) == old(
                    store,
                ).links@
                &&& final(store).links@.last().user_id == user.id
                &&& final(store).links@.last().list_id == list.list_id
                &&& final(store).links@.last().is_owner == is_owner
                &&& final(store).spec_has_access(list.list_id as int, user.id as int)
                &&& (is_owner ==> final(store).spec_is_owner(list.list_id as int, user.id as int))
                &&& final(store).users@ == old(store).users@
                &&& final(store).lists@ == old(store).lists@
                &&& final(store).items@ == old(store).items@
                &&& final(store).next_user_id == old(store).next_user_id
                &&& final(store).next_list_id == old(store).next_list_id
                &&& final(store).next_item_id == old(store).next_item_id
                &&& final(store).next_link_id == old(store).next_link_id + 1
                &&& final(store).session_counter == old(store).session_counter
            },
    {
        let linked = UserList::has_list_access(list.list_id, user.id, store);
        if linked {
            return Err(LinkError::AlreadyLinked);
        }
        if !store.contains_user(user.id) || !store.contains_list(list.list_id) {
            return Err(LinkError::StorageFailed);
        }
        if store.next_link_id == i32::MAX {
            return Err(LinkError::StorageFailed);
        }
        let row = NewUserList { user_id: user.id, list_id: list.list_id, is_owner };
        store.links.push(
            UserList {
                id: store.next_link_id,
                user_id: row.user_id,
                list_id: row.list_id,
                is_owner: row.is_owner,
            },
        );
        store.next_link_id = store.next_link_id + 1;
        proof {
            assert(store.links@.subrange(0, old(store).links@.len() as int) =~= old(
                store,
            ).links@);
            assert(forall|k: int|
                0 <= k < old(store).links@.len() ==> store.links@[k] == old(store).links@[k]);
            assert(store.links@.last().user_id == user.id && store.links@.last().list_id
                == list.list_id);
            lemma_same_tables_same_refs(*old(store), *store);
        }
        Ok(())
    }

    /// Determines whether the user with id `user_id` owns the list with id
    /// `list_id`: true exactly when an association row for the pair exists
    /// with the ownership flag set. Absence of a row is false, not an
    /// error.
    pub fn is_list_owner(list_id: i32, user_id: i32, store: &Store) -> (r: bool)
        requires
            store.wf(),
        ensures
            r == store.spec_is_owner(list_id as int, user_id as int),
    {
        let n = store.links.len();
        let mut i: usize = 0;
        while i < n
            invariant
                store.wf(),
                n == store.links@.len(),
                0 <= i <= n,
                forall|j: int|
                    0 <= j < i ==> !((#[trigger] store.links@[j]).user_id == user_id
                        && store.links@[j].list_id == list_id),
            decreases n - i,
        {
            if store.links[i].user_id == user_id && store.links[i].list_id == list_id {
                let res = store.links[i].is_owner;
                proof {
                    if !res {
                        assert forall|j: int|
                            0 <= j < store.links@.len() implies !((#[trigger] store.links@[j])
                            .user_id == user_id && store.links@[j].list_id == list_id
                            && store.links@[j].is_owner) by {
                            if j != i {
                                assert(store.links@[j] != store.links@[i as int]);
                            }
                        }
                    }
                }
                return res;
            }
            i += 1;
        }
        false
    }

    /// Determines whether the user with id `user_id` has access to the list
    /// with id `list_id`: true exactly when any association row for the
    /// pair exists, owner or not. Absence of a row is false, not an error.
    pub fn has_list_access(list_id: i32, user_id: i32, store: &Store) -> (r: bool)
        ensures
            r == store.spec_has_access(list_id as int, user_id as int),
    {
        let n = store.links.len();
        let mut i: usize = 0;
        while i < n
            invariant
                n == store.links@.len(),
                0 <= i <= n,
                forall|j: int|
                    0 <= j < i ==> !((#[trigger] store.links@[j]).user_id == user_id
                        && store.links@[j].list_id == list_id),
            decreases n - i,
        {
            if store.links[i].user_id == user_id && store.links[i].list_id == list_id {
                return true;
            }
            i += 1;
        }
        false
    }

    /// Deletes the association row with the given row id, when it is
    /// stored; following the storage layer's convention, a delete that
    /// matches no row is still a success.
    pub fn delete_user_list(id: i32, store: &mut Store) -> (r: bool)
        requires
            old(store).wf(),
        ensures
            final(store).wf(),
            r == true,
            forall|l: UserList|
                final(store).links@.contains(l) <==> (old(store).links@.contains(l) && l.id != id),
            final(store).users@ == old(store).users@,
            final(store).lists@ == old(store).lists@,
            final(store).items@ == old(store).items@,
            final(store).next_user_id == old(store).next_user_id,
            final(store).next_list_id == old(store).next_list_id,
            final(store).next_item_id == old(store).next_item_id,
            final(store).next_link_id == old(store).next_link_id,
            final(store).session_counter == old(store).session_counter,
    {
        let n = store.links.len();
        let mut i: usize = 0;
        while i < n
            invariant
                *store == *old(store),
                old(store).wf(),
                n == store.links@.len(),
                0 <= i <= n,
                forall|j: int| 0 <= j < i ==> (#[trigger] store.links@[j]).id != id,
            decreases n - i,
        {
            if store.links[i].id == id {
                let ghost pre = *store;
                proof {
                    lemma_remove_keeps_membership(store.links@, i as int);
                    old(store).links@.remove_ensures(i as int);
                }
                store.links.remove(i);
                proof {
                    lemma_links_remove_wf(pre, *store, i as int);
                    assert forall|l: UserList| store.links@.contains(l) implies (old(
                        store,
                    ).links@.contains(l) && l.id != id) by {
                        let m = choose|m: int|
                            0 <= m < store.links@.len() && store.links@[m] == l;
                        if m < i {
                            assert(old(store).links@[m] == l);
                        } else {
                            assert(old(store).links@[m + 1] == l);
                        }
                    }
                }
                return true;
            }
            i += 1;
        }
        proof {
            assert forall|l: UserList| store.links@.contains(l) implies l.id != id by {
                let m = choose|m: int| 0 <= m < store.links@.len() && store.links@[m] == l;
            }
        }
        true
    }

    /// Removes every association row that references the list with id
    /// `list_id`: part of deleting the list itself, after which no user has
    /// access to it any more.
    pub fn unlink_all_for_list(list_id: i32, store: &mut Store)
        requires
            old(store).wf(),
        ensures
            final(store).wf(),
            forall|l: UserList|
                final(store).links@.contains(l) <==> (old(store).links@.contains(l) && l.list_id
                    != list_id),
            forall|uid: int| !final(store).spec_has_access(list_id as int, uid),
            final(store).users@ == old(store).users@,
            final(store).lists@ == old(store).lists@,
            final(store).items@ == old(store).items@,
            final(store).next_user_id == old(store).next_user_id,
            final(store).next_list_id == old(store).next_list_id,
            final(store).next_item_id == old(store).next_item_id,
            final(store).next_link_id == old(store).next_link_id,
            final(store).session_counter == old(store).session_counter,
    {
        let mut i: usize = store.links.len();
        while i > 0
            invariant
                store.wf(),
                old(store).wf(),
                i <= store.links@.len(),
                forall|j: int|
                    i <= j < store.links@.len() ==> (#[trigger] store.links@[j]).list_id
                        != list_id,
                forall|l: UserList| store.links@.contains(l) ==> old(store).links@.contains(l),
                forall|l: UserList|
                    old(store).links@.contains(l) && l.list_id != list_id
                        ==> store.links@.contains(l),
                store.users@ == old(store).users@,
                store.lists@ == old(store).lists@,
                store.items@ == old(store).items@,
                store.next_link_id == old(store).next_link_id,
                store.next_user_id == old(store).next_user_id,
                store.next_list_id == old(store).next_list_id,
                store.next_item_id == old(store).next_item_id,
                store.session_counter == old(store).session_counter,
            decreases i,
        {
            i -= 1;
            if store.links[i].list_id == list_id {
                let ghost pre = *store;
                proof {
                    lemma_remove_keeps_membership(pre.links@, i as int);
                    pre.links@.remove_ensures(i as int);
                }
                store.links.remove(i);
                proof {
                    lemma_links_remove_wf(pre, *store, i as int);
                }
            }
        }
        proof {
            assert forall|l: UserList| store.links@.contains(l) implies l.list_id != list_id by {
                let m = choose|m: int| 0 <= m < store.links@.len() && store.links@[m] == l;
            }
            assert forall|uid: int| !store.spec_has_access(list_id as int, uid) by {
                if store.spec_has_access(list_id as int, uid) {
                    let m = choose|m: int|
                        0 <= m < store.links@.len() && (#[trigger] store.links@[m]).user_id == uid
                            && store.links@[m].list_id == list_id;
                    assert(store.links@.contains(store.links@[m]));
                }
            }
        }
    }
}

} // verus!
