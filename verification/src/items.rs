//! The item rows of a list and their CRUD operations on the store model.
//! None of these check authorization: the service layer in front of them is
//! responsible for checking access before calling in, and their contracts
//! say exactly what happens to the table.

use vstd::prelude::*;
use vstd::seq_lib::lemma_seq_contains_after_push;

use crate::store::{Item, Store};

verus! {

/// The information a caller supplies for an item: everything but the id and
/// the owning list.
pub struct ItemDTO {
    pub description: String,
    pub finished: bool,
}

/// A new row ready to insert into the items table.
pub struct NewItem {
    pub list_id: i32,
    pub description: String,
    pub finished: bool,
}

/// The predicate that picks the items of one list.
pub open spec fn item_of_list(it: Item, list_id: i32) -> bool {
    it.list_id == list_id
}

impl Item {
    /// Inserts the given item under the list with id `list_id`. Returns
    /// true exactly when the list exists and the item id space is not
    /// exhausted; nothing is written otherwise.
    pub fn create_item_for_list(item: ItemDTO, list_id: i32, store: &mut Store) -> (r: bool)
        requires
            old(store).wf(),
        ensures
            final(store).wf(),
            r <==> (old(store).spec_has_list(list_id as int) && old(store).next_item_id
                < i32::MAX),
            !r ==> *final(store) == *old(store),
            r ==> {
                &&& final(store).items@.len() == old(store).items@.len() + 1
                &&& final(store).items@.subrange(0, old(store).items@.len() as int) == old(
                    store,
                ).items@
                &&& final(store).items@.last().item_id == old(store).next_item_id
                &&& final(store).items@.last().list_id == list_id
                &&& final(store).items@.last().description@ == item.description@
                &&& final(store).items@.last().finished == item.finished
                &&& final(store).next_item_id == old(store).next_item_id + 1
                &&& final(store).users@ == old(store).users@
                &&& final(store).lists@ == old(store).lists@
                &&& final(store).links@ == old(store).links@
                &&& final(store).session_counter == old(store).session_counter
            },
    {
        if !store.contains_list(list_id) {
            return false;
        }
        if store.next_item_id == i32::MAX {
            return false;
        }
        let row = NewItem { list_id, description: item.description, finished: item.finished };
        store.items.push(
            Item {
                item_id: store.next_item_id,
                list_id: row.list_id,
                description: row.description,
                finished: row.finished,
            },
        );
        store.next_item_id = store.next_item_id + 1;
        proof {
            assert(store.items@.subrange(0, old(store).items@.len() as int) =~= old(
                store,
            ).items@);
            assert(forall|k: int|
                0 <= k < old(store).items@.len() ==> store.items@[k] == old(store).items@[k]);
            assert forall|lid: int| old(store).spec_has_list(lid) implies store.spec_has_list(
                lid,
            ) by {
                let w = choose|w: int|
                    0 <= w < old(store).lists@.len() && (#[trigger] old(
                        store,
                    ).lists@[w]).list_id == lid;
                assert(store.lists@[w].list_id == lid);
            }
            assert forall|uid: int| old(store).spec_has_user(uid) implies store.spec_has_user(
                uid,
            ) by {
                let w = choose|w: int|
                    0 <= w < old(store).users@.len() && (#[trigger] old(store).users@[w]).id
                        == uid;
                assert(store.users@[w].id == uid);
            }
        }
        true
    }

    /// Determines whether the item with id `item_id` is stored and belongs
    /// to the list with id `list_id`. This is the second, finer check of an
    /// item deletion: access to a list does not reach items that belong to
    /// another list.
    pub fn owned_by_list(item_id: i32, list_id: i32, store: &Store) -> (r: bool)
        requires
            store.wf(),
        ensures
            r == store.spec_item_in_list(item_id as int, list_id as int),
    {
        let n = store.items.len();
        let mut i: usize = 0;
        while i < n
            invariant
                store.wf(),
                n == store.items@.len(),
                0 <= i <= n,
                forall|j: int|
                    0 <= j < i ==> !((#[trigger] store.items@[j]).item_id == item_id
                        && store.items@[j].list_id == list_id),
            decreases n - i,
        {
            if store.items[i].item_id == item_id {
                let res = store.items[i].list_id == list_id;
                proof {
                    if !res {
                        assert forall|j: int|
                            0 <= j < store.items@.len() implies !((#[trigger] store.items@[j])
                            .item_id == item_id && store.items@[j].list_id == list_id) by {
                            if j != i {
                                assert(store.items@[j].item_id != store.items@[i as int].item_id);
                            }
                        }
                    }
                }
                return res;
            }
            i += 1;
        }
        false
    }

    /// Returns the items of the list with id `list_id`, in storage order.
    pub fn find_items_for_list(list_id: i32, store: &Store) -> (r: Vec<Item>)
        ensures
            r@ == store.items@.filter(|it: Item| item_of_list(it, list_id)),
    {
        let mut found: Vec<Item> = Vec::new();
        let n = store.items.len();
        let mut i: usize = 0;
        proof {
            assert(store.items@.take(0) =~= Seq::<Item>::empty());
            reveal_with_fuel(Seq::<_>::filter, 1);
        }
        while i < n
            invariant
                n == store.items@.len(),
                0 <= i <= n,
                found@ == store.items@.take(i as int).filter(
                    |it: Item| item_of_list(it, list_id),
                ),
            decreases n - i,
        {
            proof {
                assert(store.items@.take(i + 1) =~= store.items@.take(i as int).push(
                    store.items@[i as int],
                ));
                store.items@.take(i as int).lemma_filter_push(
                    store.items@[i as int],
                    |it: Item| item_of_list(it, list_id),
                );
            }
            if store.items[i].list_id == list_id {
                found.push(store.items[i].clone());
            }
            i += 1;
        }
        proof {
            assert(store.items@.take(n as int) =~= store.items@);
        }
        found
    }

    /// Updates the description and finished flag of the item with the given
    /// id, when it is stored; following the storage layer's convention, an
    /// update that matches no row is still a success.
    pub fn update_item(id: i32, new_item: ItemDTO, store: &mut Store) -> (r: bool)
        requires
            old(store).wf(),
        ensures
            final(store).wf(),
            r == true,
            !old(store).spec_has_item(id as int) ==> *final(store) == *old(store),
            old(store).spec_has_item(id as int) ==> {
                &&& final(store).items@.len() == old(store).items@.len()
                &&& exists|k: int|
                    {
                        &&& 0 <= k < old(store).items@.len()
                        &&& (#[trigger] old(store).items@[k]).item_id == id
                        &&& final(store).items@[k].item_id == id
                        &&& final(store).items@[k].list_id == old(store).items@[k].list_id
                        &&& final(store).items@[k].description@ == new_item.description@
                        &&& final(store).items@[k].finished == new_item.finished
                        &&& forall|j: int|
                            0 <= j < old(store).items@.len() && j != k
                                ==> final(store).items@[j] == old(store).items@[j]
                    }
                &&& final(store).users@ == old(store).users@
                &&& final(store).lists@ == old(store).lists@
                &&& final(store).links@ == old(store).links@
                &&& final(store).next_item_id == old(store).next_item_id
                &&& final(store).session_counter == old(store).session_counter
            },
    {
        let n = store.items.len();
        let mut i: usize = 0;
        while i < n
            invariant
                *store == *old(store),
                old(store).wf(),
                n == store.items@.len(),
                0 <= i <= n,
                forall|j: int| 0 <= j < i ==> (#[trigger] store.items@[j]).item_id != id,
            decreases n - i,
        {
            if store.items[i].item_id == id {
                store.items[i].description = new_item.description;
                store.items[i].finished = new_item.finished;
                proof {
                    assert(forall|k: int|
                        0 <= k < store.items@.len() && k != i ==> store.items@[k] == old(
                            store,
                        ).items@[k]);
                }
                return true;
            }
            i += 1;
        }
        true
    }

    /// Deletes the item with the given id, when it is stored; following the
    /// storage layer's convention, a delete that matches no row is still a
    /// success.
    pub fn delete_item(id: i32, store: &mut Store) -> (r: bool)
        requires
            old(store).wf(),
        ensures
            final(store).wf(),
            r == true,
            !old(store).spec_has_item(id as int) ==> *final(store) == *old(store),
            old(store).spec_has_item(id as int) ==> {
                &&& exists|k: int|
                    {
                        &&& 0 <= k < old(store).items@.len()
                        &&& (#[trigger] old(store).items@[k]).item_id == id
                        &&& final(store).items@ == old(store).items@.remove(k)
                    }
                &&& final(store).users@ == old(store).users@
                &&& final(store).lists@ == old(store).lists@
                &&& final(store).links@ == old(store).links@
                &&& final(store).next_item_id == old(store).next_item_id
                &&& final(store).session_counter == old(store).session_counter
            },
            !final(store).spec_has_item(id as int),
    {
        let n = store.items.len();
        let mut i: usize = 0;
        while i < n
            invariant
                *store == *old(store),
                old(store).wf(),
                n == store.items@.len(),
                0 <= i <= n,
                forall|j: int| 0 <= j < i ==> (#[trigger] store.items@[j]).item_id != id,
            decreases n - i,
        {
            if store.items[i].item_id == id {
                store.items.remove(i);
                proof {
                    old(store).items@.remove_ensures(i as int);
                    assert forall|lid: int| old(store).spec_has_list(lid) implies store
                        .spec_has_list(lid) by {}
                    assert(!store.spec_has_item(id as int));
                }
                return true;
            }
            i += 1;
        }
        true
    }
}

} // verus!
