//! The list rows and their operations on the store model: creation with an
//! injected creation date, lookup with or without the list's items, the
//! per-user join through the association table, update, and deletion.
//! Deleting a list cascades: its items and its associations go with it, in
//! one step, so no orphan row is ever observable. None of these check
//! authorization; the service layer in front of them does.

use vstd::prelude::*;

use crate::items::item_of_list;
use crate::store::{
    lemma_items_remove_wf, lemma_lists_remove_wf, lemma_remove_keeps_membership, Item, List,
    Store, UserList,
};

verus! {

/// The information a caller supplies to create a list.
pub struct ListDTO {
    pub name: String,
    pub description: Option<String>,
}

/// A new row ready to insert into the lists table; the creation date is
/// already fixed.
pub struct NewList {
    pub name: String,
    pub description: Option<String>,
    pub date_created: u64,
}

/// A list together with all of its items.
pub struct ListWithItems {
    pub list_id: i32,
    pub name: String,
    pub description: Option<String>,
    pub date_created: u64,
    pub items: Vec<Item>,
}

impl List {
    /// Creates a new list with the given information and `today` as its
    /// creation date, and returns the stored row. Fails, writing nothing,
    /// exactly when the list id space is exhausted.
    pub fn create_list(list: ListDTO, today: u64, store: &mut Store) -> (r: Option<List>)
        requires
            old(store).wf(),
        ensures
            final(store).wf(),
            r is Some <==> old(store).next_list_id < i32::MAX,
            r is None ==> *final(store) == *old(store),
            r matches Some(l) ==> {
                &&& l.list_id == old(store).next_list_id
                &&& l.name@ == list.name@
                &&& l.description == list.description
                &&& l.date_created == today
                &&& final(store).lists@.len() == old(store).lists@.len() + 1
                &&& final(store).lists@.subrange(0, old(store).lists@.len() as int) == old(
                    store,
                ).lists@
                &&& final(store).lists@.last() == l
                &&& final(store).next_list_id == old(store).next_list_id + 1
                &&& final(store).users@ == old(store).users@
                &&& final(store).items@ == old(store).items@
                &&& final(store).links@ == old(store).links@
                &&& final(store).next_user_id == old(store).next_user_id
                &&& final(store).next_item_id == old(store).next_item_id
                &&& final(store).next_link_id == old(store).next_link_id
                &&& final(store).session_counter == old(store).session_counter
            },
    {
        if store.next_list_id == i32::MAX {
            return None;
        }
        let row = NewList {
            name: list.name,
            description: list.description,
            date_created: today,
        };
        let stored = List {
            list_id: store.next_list_id,
            name: row.name,
            description: row.description,
            date_created: row.date_created,
        };
        let result = stored.clone();
        store.lists.push(stored);
        store.next_list_id = store.next_list_id + 1;
        proof {
            assert(store.lists@.subrange(0, old(store).lists@.len() as int) =~= old(
                store,
            ).lists@);
            assert(forall|k: int|
                0 <= k < old(store).lists@.len() ==> store.lists@[k] == old(store).lists@[k]);
            assert forall|lid: int| old(store).spec_has_list(lid) implies store.spec_has_list(
                lid,
            ) by {
                let w = choose|w: int|
                    0 <= w < old(store).lists@.len() && (#[trigger] old(
                        store,
                    ).lists@[w]).list_id == lid;
                assert(store.lists@[w].list_id == lid);
            }
            assert forall|uid: int| old(store).spec_has_user(uid) implies store.spec_has_user(
                uid,
            ) by {
                let w = choose|w: int|
                    0 <= w < old(store).users@.len() && (#[trigger] old(store).users@[w]).id
                        == uid;
                assert(store.users@[w].id == uid);
            }
        }
        Some(result)
    }

    /// Finds the list row with the given id, when it is stored.
    pub fn find_list_by_id(id: i32, store: &Store) -> (r: Option<List>)
        ensures
            r is Some <==> store.spec_has_list(id as int),
            r matches Some(l) ==> exists|i: int|
                0 <= i < store.lists@.len() && #[trigger] store.lists@[i] == l && l.list_id == id,
    {
        let n = store.lists.len();
        let mut i: usize = 0;
        while i < n
            invariant
                n == store.lists@.len(),
                0 <= i <= n,
                forall|j: int| 0 <= j < i ==> (#[trigger] store.lists@[j]).list_id != id,
            decreases n - i,
        {
            if store.lists[i].list_id == id {
                return Some(store.lists[i].clone());
            }
            i += 1;
        }
        None
    }

    /// Finds the list with the given id together with all of its items,
    /// when the list is stored.
    pub fn find_complete_list_by_id(id: i32, store: &Store) -> (r: Option<ListWithItems>)
        ensures
            r is Some <==> store.spec_has_list(id as int),
            r matches Some(lw) ==> {
                &&& lw.list_id == id
                &&& exists|i: int|
                    0 <= i < store.lists@.len() && (#[trigger] store.lists@[i]).list_id == id
                        && lw.name == store.lists@[i].name && lw.description
                        == store.lists@[i].description && lw.date_created
                        == store.lists@[i].date_created
                &&& lw.items@ == store.items@.filter(|it: Item| item_of_list(it, id))
            },
    {
        if let Some(list) = List::find_list_by_id(id, store) {
            let found = Item::find_items_for_list(id, store);
            Some(
                ListWithItems {
                    list_id: list.list_id,
                    name: list.name,
                    description: list.description,
                    date_created: list.date_created,
                    items: found,
                },
            )
        } else {
            None
        }
    }

    /// Returns the rows of every list the given user has access to: the
    /// lists joined through the association table. The join itself is the
    /// filter, so no further access check is needed.
    pub fn find_lists_for_user(user_id: i32, store: &Store) -> (r: Option<Vec<List>>)
        ensures
            r is Some,
            r matches Some(ls) ==> ls@ == store.lists@.filter(
                |l: List| store.spec_has_access(l.list_id as int, user_id as int),
            ),
    {
        let mut found: Vec<List> = Vec::new();
        let n = store.lists.len();
        let mut i: usize = 0;
        proof {
            assert(store.lists@.take(0) =~= Seq::<List>::empty());
            reveal_with_fuel(Seq::<_>::filter, 1);
        }
        while i < n
            invariant
                n == store.lists@.len(),
                0 <= i <= n,
                found@ == store.lists@.take(i as int).filter(
                    |l: List| store.spec_has_access(l.list_id as int, user_id as int),
                ),
            decreases n - i,
        {
            proof {
                assert(store.lists@.take(i + 1) =~= store.lists@.take(i as int).push(
                    store.lists@[i as int],
                ));
                store.lists@.take(i as int).lemma_filter_push(
                    store.lists@[i as int],
                    |l: List| store.spec_has_access(l.list_id as int, user_id as int),
                );
            }
            if UserList::has_list_access(store.lists[i].list_id, user_id, store) {
                found.push(store.lists[i].clone());
            }
            i += 1;
        }
        proof {
            assert(store.lists@.take(n as int) =~= store.lists@);
        }
        Some(found)
    }

    /// Updates the name and description of the list with the given id,
    /// when it is stored; following the storage layer's convention, an
    /// update that matches no row is still a success.
    pub fn update_list(list_id: i32, new_list: ListDTO, store: &mut Store) -> (r: bool)
        requires
            old(store).wf(),
        ensures
            final(store).wf(),
            r == true,
            !old(store).spec_has_list(list_id as int) ==> *final(store) == *old(store),
            old(store).spec_has_list(list_id as int) ==> {
                &&& final(store).lists@.len() == old(store).lists@.len()
                &&& exists|k: int|
                    {
                        &&& 0 <= k < old(store).lists@.len()
                        &&& (#[trigger] old(store).lists@[k]).list_id == list_id
                        &&& final(store).lists@[k].list_id == list_id
                        &&& final(store).lists@[k].name@ == new_list.name@
                        &&& final(store).lists@[k].description == new_list.description
                        &&& final(store).lists@[k].date_created == old(
                            store,
                        ).lists@[k].date_created
                        &&& forall|j: int|
                            0 <= j < old(store).lists@.len() && j != k
                                ==> final(store).lists@[j] == old(store).lists@[j]
                    }
                &&& final(store).users@ == old(store).users@
                &&& final(store).items@ == old(store).items@
                &&& final(store).links@ == old(store).links@
                &&& final(store).next_list_id == old(store).next_list_id
                &&& final(store).session_counter == old(store).session_counter
            },
    {
        let n = store.lists.len();
        let mut i: usize = 0;
        while i < n
            invariant
                *store == *old(store),
                old(store).wf(),
                n == store.lists@.len(),
                0 <= i <= n,
                forall|j: int| 0 <= j < i ==> (#[trigger] store.lists@[j]).list_id != list_id,
            decreases n - i,
        {
            if store.lists[i].list_id == list_id {
                store.lists[i].name = new_list.name;
                store.lists[i].description = new_list.description;
                proof {
                    assert(forall|k: int|
                        0 <= k < store.lists@.len() && k != i ==> store.lists@[k] == old(
                            store,
                        ).lists@[k]);
                    assert forall|lid: int| old(store).spec_has_list(lid) implies store
                        .spec_has_list(lid) by {
                        let w = choose|w: int|
                            0 <= w < old(store).lists@.len() && (#[trigger] old(
                                store,
                            ).lists@[w]).list_id == lid;
                        assert(store.lists@[w].list_id == lid);
                    }
                }
                return true;
            }
            i += 1;
        }
        true
    }

    /// Deletes the list with the given id together with everything that
    /// references it: all of its items and all of its associations go in
    /// the same step, so no user retains access and no orphan row remains.
    /// Following the storage layer's convention, a delete that matches no
    /// row is still a success.
    pub fn delete_list(id: i32, store: &mut Store) -> (r: bool)
        requires
            old(store).wf(),
        ensures
            final(store).wf(),
            r == true,
            !final(store).spec_has_list(id as int),
            forall|l: List|
                final(store).lists@.contains(l) <==> (old(store).lists@.contains(l) && l.list_id
                    != id),
            forall|it: Item|
                final(store).items@.contains(it) <==> (old(store).items@.contains(it)
                    && it.list_id != id),
            forall|l: UserList|
                final(store).links@.contains(l) <==> (old(store).links@.contains(l) && l.list_id
                    != id),
            forall|uid: int| !final(store).spec_has_access(id as int, uid),
            final(store).users@ == old(store).users@,
            final(store).next_user_id == old(store).next_user_id,
            final(store).next_list_id == old(store).next_list_id,
            final(store).next_item_id == old(store).next_item_id,
            final(store).next_link_id == old(store).next_link_id,
            final(store).session_counter == old(store).session_counter,
    {
        // Cascade order: items first, then associations, then the row, so
        // that the invariant's references hold at every intermediate state.
        let mut i: usize = store.items.len();
        while i > 0
            invariant
                store.wf(),
                old(store).wf(),
                i <= store.items@.len(),
                forall|j: int|
                    i <= j < store.items@.len() ==> (#[trigger] store.items@[j]).list_id != id,
                forall|it: Item| store.items@.contains(it) ==> old(store).items@.contains(it),
                forall|it: Item|
                    old(store).items@.contains(it) && it.list_id != id ==> store.items@.contains(
                        it,
                    ),
                store.users@ == old(store).users@,
                store.lists@ == old(store).lists@,
                store.links@ == old(store).links@,
                store.next_user_id == old(store).next_user_id,
                store.next_list_id == old(store).next_list_id,
                store.next_item_id == old(store).next_item_id,
                store.next_link_id == old(store).next_link_id,
                store.session_counter == old(store).session_counter,
            decreases i,
        {
            i -= 1;
            if store.items[i].list_id == id {
                let ghost pre = *store;
                proof {
                    lemma_remove_keeps_membership(pre.items@, i as int);
                    pre.items@.remove_ensures(i as int);
                }
                store.items.remove(i);
                proof {
                    lemma_items_remove_wf(pre, *store, i as int);
                }
            }
        }
        proof {
            assert forall|it: Item| store.items@.contains(it) implies it.list_id != id by {
                let m = choose|m: int| 0 <= m < store.items@.len() && store.items@[m] == it;
            }
        }
        UserList::unlink_all_for_list(id, store);
        proof {
            assert forall|j: int|
                0 <= j < store.links@.len() implies (#[trigger] store.links@[j]).list_id
                != id by {
                assert(store.links@.contains(store.links@[j]));
            }
        }
        let n = store.lists.len();
        let mut k: usize = 0;
        while k < n
            invariant
                store.wf(),
                old(store).wf(),
                n == store.lists@.len(),
                0 <= k <= n,
                forall|j: int| 0 <= j < k ==> (#[trigger] store.lists@[j]).list_id != id,
                forall|j: int|
                    0 <= j < store.items@.len() ==> (#[trigger] store.items@[j]).list_id != id,
                forall|j: int|
                    0 <= j < store.links@.len() ==> (#[trigger] store.links@[j]).list_id != id,
                forall|it: Item|
                    store.items@.contains(it) <==> (old(store).items@.contains(it) && it.list_id
                        != id),
                forall|l: UserList|
                    store.links@.contains(l) <==> (old(store).links@.contains(l) && l.list_id
                        != id),
                store.users@ == old(store).users@,
                store.lists@ == old(store).lists@,
                store.next_user_id == old(store).next_user_id,
                store.next_list_id == old(store).next_list_id,
                store.next_item_id == old(store).next_item_id,
                store.next_link_id == old(store).next_link_id,
                store.session_counter == old(store).session_counter,
            decreases n - k,
        {
            if store.lists[k].list_id == id {
                let ghost pre = *store;
                proof {
                    lemma_remove_keeps_membership(pre.lists@, k as int);
                    pre.lists@.remove_ensures(k as int);
                }
                store.lists.remove(k);
                proof {
                    lemma_lists_remove_wf(pre, *store, k as int);
                    assert forall|l: List| store.lists@.contains(l) implies (old(
                        store,
                    ).lists@.contains(l) && l.list_id != id) by {
                        let m = choose|m: int|
                            0 <= m < store.lists@.len() && store.lists@[m] == l;
                        if m < k {
                            assert(old(store).lists@[m] == l);
                        } else {
                            assert(old(store).lists@[m + 1] == l);
                        }
                        if l.list_id == id {
                            assert(pre.lists@.contains(l));
                            let w = choose|w: int|
                                0 <= w < pre.lists@.len() && pre.lists@[w] == l;
                            assert(pre.lists@[w].list_id == pre.lists@[k as int].list_id);
                            assert(false);
                        }
                    }
                    assert forall|uid: int| !store.spec_has_access(id as int, uid) by {
                        if store.spec_has_access(id as int, uid) {
                            let m = choose|m: int|
                                0 <= m < store.links@.len() && (#[trigger] store.links@[m])
                                    .user_id == uid && store.links@[m].list_id == id;
                        }
                    }
                }
                return true;
            }
            k += 1;
        }
        proof {
            assert forall|l: List| store.lists@.contains(l) implies l.list_id != id by {
                let m = choose|m: int| 0 <= m < store.lists@.len() && store.lists@[m] == l;
            }
            assert forall|uid: int| !store.spec_has_access(id as int, uid) by {
                if store.spec_has_access(id as int, uid) {
                    let m = choose|m: int|
                        0 <= m < store.links@.len() && (#[trigger] store.links@[m]).user_id == uid
                            && store.links@[m].list_id == id;
                }
            }
        }
        true
    }
}

} // verus!
