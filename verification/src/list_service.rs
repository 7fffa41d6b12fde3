//! The list and item operations as the outside world sees them. This layer
//! is where authorization is actually enforced, in a fixed order: the access
//! check runs before any read or mutation, the ownership check before a list
//! deletion, and the item-belongs-to-list check before an item mutation —
//! so a user with access to one list can never touch another list's items by
//! mixing ids. Creating a list and linking its owner happen atomically:
//! either both rows appear or neither does.

use vstd::prelude::*;

use crate::constants::{
    MESSAGE_CREATE_ITEM_FAILED, MESSAGE_CREATE_ITEM_SUCCESS, MESSAGE_CREATE_LIST_ASSOCIATE_FAIL,
    MESSAGE_CREATE_LIST_FAILED, MESSAGE_CREATE_LIST_SUCCESS, MESSAGE_DELETE_ITEM_SUCCESS,
    MESSAGE_DELETE_LIST_SUCCESS, MESSAGE_DELETE_NOT_OWNER, MESSAGE_GET_LIST_FAILED,
    MESSAGE_GET_LIST_SUCCESS, MESSAGE_ITEM_NOT_OWNED_BY_LIST, MESSAGE_NO_ACCESS, MESSAGE_OK,
    MESSAGE_UPDATE_FAILED, MESSAGE_UPDATE_SUCCESS, MESSAGE_USER_NOT_FOUND, STATUS_BAD_REQUEST,
    STATUS_OK,
};
use crate::items::{item_of_list, ItemDTO};
use crate::lists::ListDTO;
use crate::response::{Response, ResponseData, ResponseWithStatus};
use crate::store::{Item, List, Store, User, UserList};

verus! {

/// What a successful list creation does to the store: one list row with the
/// submitted name and description and the injected date, and one
/// owner-marked association row binding it to the resolved user, appear
/// together; nothing else moves.
pub open spec fn spec_list_created(
    pre: Store,
    post: Store,
    list: ListDTO,
    owner_username: Seq<char>,
) -> bool {
    &&& post.lists@.len() == pre.lists@.len() + 1
    &&& post.lists@.subrange(0, pre.lists@.len() as int) == pre.lists@
    &&& post.lists@.last().list_id == pre.next_list_id
    &&& post.lists@.last().name@ == list.name@
    &&& post.lists@.last().description == list.description
    &&& post.links@.len() == pre.links@.len() + 1
    &&& post.links@.subrange(0, pre.links@.len() as int) == pre.links@
    &&& post.links@.last().list_id == pre.next_list_id
    &&& post.links@.last().is_owner
    &&& exists|u: int|
        0 <= u < pre.users@.len() && (#[trigger] pre.users@[u]).username@ == owner_username
            && post.links@.last().user_id == pre.users@[u].id
    &&& post.spec_is_owner(pre.next_list_id as int, post.links@.last().user_id as int)
    &&& post.spec_has_access(pre.next_list_id as int, post.links@.last().user_id as int)
    &&& post.users@ == pre.users@
    &&& post.items@ == pre.items@
    &&& post.next_list_id == pre.next_list_id + 1
    &&& post.next_link_id == pre.next_link_id + 1
    &&& post.next_user_id == pre.next_user_id
    &&& post.next_item_id == pre.next_item_id
    &&& post.session_counter == pre.session_counter
}

/// Creates a list owned by the named user: the list row and its
/// owner-association row appear together, or nothing does. Fails when the
/// user is unknown, and when the list or association id space is exhausted
/// — the latter is checked before anything is written, so no ownerless
/// list is ever observable.
pub fn create_list(
    list: ListDTO,
    owner_username: String,
    today: u64,
    store: &mut Store,
) -> (r: ResponseWithStatus)
    requires
        old(store).wf(),
    ensures
        final(store).wf(),
        r.status_code == STATUS_OK <==> (old(store).spec_has_username(owner_username@) && old(
            store,
        ).next_list_id < i32::MAX && old(store).next_link_id < i32::MAX),
        r.status_code == STATUS_OK ==> {
            &&& spec_list_created(*old(store), *final(store), list, owner_username@)
            &&& final(store).lists@.last().date_created == today
            &&& r.response.message@ == MESSAGE_CREATE_LIST_SUCCESS@
        },
        r.status_code != STATUS_OK ==> {
            &&& r.status_code == STATUS_BAD_REQUEST
            &&& *final(store) == *old(store)
        },
        !old(store).spec_has_username(owner_username@) ==> r.response.message@
            == MESSAGE_USER_NOT_FOUND@,
        old(store).spec_has_username(owner_username@) && old(store).next_link_id == i32::MAX
            ==> r.response.message@ == MESSAGE_CREATE_LIST_ASSOCIATE_FAIL@,
        old(store).spec_has_username(owner_username@) && old(store).next_link_id < i32::MAX && old(
            store,
        ).next_list_id == i32::MAX ==> r.response.message@ == MESSAGE_CREATE_LIST_FAILED@,
        r.response.data is Empty,
{
    let user = match User::find_user_by_username(owner_username.as_str(), store) {
        Some(u) => u,
        None => {
            return ResponseWithStatus::with(STATUS_BAD_REQUEST, MESSAGE_USER_NOT_FOUND);
        },
    };
    // The association row is committed to before the list row is written:
    // this is what makes the pair atomic in this model.
    if store.next_link_id == i32::MAX {
        return ResponseWithStatus::with(STATUS_BAD_REQUEST, MESSAGE_CREATE_LIST_ASSOCIATE_FAIL);
    }
    let ghost owner = user;
    let ghost pre = *store;
    let result_list = match List::create_list(list, today, store) {
        Some(l) => l,
        None => {
            return ResponseWithStatus::with(STATUS_BAD_REQUEST, MESSAGE_CREATE_LIST_FAILED);
        },
    };
    let ghost created = result_list;
    let ghost mid = *store;
    proof {
        // The user the list is created for is still stored...
        let u = choose|u: int|
            0 <= u < pre.users@.len() && #[trigger] pre.users@[u] == owner && owner.username@
                == owner_username@;
        assert(mid.users@[u].id == owner.id);
        // ...the fresh list id cannot be associated with anyone yet...
        if mid.spec_has_access(created.list_id as int, owner.id as int) {
            let j = choose|j: int|
                0 <= j < mid.links@.len() && (#[trigger] mid.links@[j]).user_id as int
                    == owner.id as int && mid.links@[j].list_id as int == created.list_id as int;
            assert(pre.spec_has_list(pre.links@[j].list_id as int));
            let w = choose|w: int|
                0 <= w < pre.lists@.len() && (#[trigger] pre.lists@[w]).list_id
                    == pre.links@[j].list_id;
            assert(false);
        }
        // ...and the preconditions of the association hold, so it cannot
        // fail below.
        assert(mid.spec_has_user(owner.id as int));
        assert(mid.spec_has_list(created.list_id as int)) by {
            assert(mid.lists@[mid.lists@.len() - 1].list_id == created.list_id);
        }
        assert(mid.next_link_id < i32::MAX);
    }
    match UserList::associate_list(result_list, user, true, store) {
        Ok(()) => {
            proof {
                assert(store.links@.last().list_id == pre.next_list_id);
                assert(store.lists@.subrange(0, pre.lists@.len() as int) =~= mid.lists@.subrange(
                    0,
                    pre.lists@.len() as int,
                ));
                assert(store.lists@.last() == mid.lists@.last());
                let u = choose|u: int|
                    0 <= u < pre.users@.len() && #[trigger] pre.users@[u] == owner
                        && owner.username@ == owner_username@;
                assert((#[trigger] pre.users@[u]).username@ == owner_username@
                    && store.links@.last().user_id == pre.users@[u].id);
            }
            ResponseWithStatus::with(STATUS_OK, MESSAGE_CREATE_LIST_SUCCESS)
        },
        Err(e) => {
            proof {
                // Every failure of the association is ruled out above, so
                // no list is ever left without its owner.
                assert(!(e is AlreadyLinked));
                assert(!(e is StorageFailed));
                assert(false);
            }
            ResponseWithStatus::with(STATUS_BAD_REQUEST, MESSAGE_CREATE_LIST_ASSOCIATE_FAIL)
        },
    }
}

/// Returns the lists the given user has access to: the join through the
/// association table is itself the access filter, so the operation cannot
/// be refused.
pub fn get_lists_for_user(user_id: i32, store: &Store) -> (r: ResponseWithStatus)
    ensures
        r.status_code == STATUS_OK,
        r.response.message@ == MESSAGE_OK@,
        r.response.data matches ResponseData::Lists(ls) && ls@ == store.lists@.filter(
            |l: List| store.spec_has_access(l.list_id as int, user_id as int),
        ),
{
    match List::find_lists_for_user(user_id, store) {
        Some(found) => ResponseWithStatus {
            status_code: STATUS_OK,
            response: Response {
                message: MESSAGE_OK.to_owned(),
                data: ResponseData::Lists(found),
            },
        },
        None => {
            proof {
                assert(false);
            }
            ResponseWithStatus::with(STATUS_BAD_REQUEST, MESSAGE_USER_NOT_FOUND)
        },
    }
}

/// Returns the full list — the row and all of its items — as long as the
/// user has access to it. Without access the caller learns nothing, not
/// even whether the list exists.
pub fn get_list(list_id: i32, user_id: i32, store: &Store) -> (r: ResponseWithStatus)
    requires
        store.wf(),
    ensures
        r.status_code == STATUS_OK <==> store.spec_has_access(list_id as int, user_id as int),
        r.status_code == STATUS_OK ==> {
            &&& r.response.message@ == MESSAGE_GET_LIST_SUCCESS@
            &&& r.response.data matches ResponseData::FullList(lw) && {
                &&& lw.list_id == list_id
                &&& exists|i: int|
                    0 <= i < store.lists@.len() && (#[trigger] store.lists@[i]).list_id == list_id
                        && lw.name == store.lists@[i].name && lw.description
                        == store.lists@[i].description && lw.date_created
                        == store.lists@[i].date_created
                &&& lw.items@ == store.items@.filter(|it: Item| item_of_list(it, list_id))
            }
        },
        r.status_code != STATUS_OK ==> {
            &&& r.status_code == STATUS_BAD_REQUEST
            &&& r.response.message@ == MESSAGE_NO_ACCESS@
            &&& r.response.data is Empty
        },
{
    if !UserList::has_list_access(list_id, user_id, store) {
        return ResponseWithStatus::with(STATUS_BAD_REQUEST, MESSAGE_NO_ACCESS);
    }
    proof {
        // Access implies the list exists: every association row references
        // a stored list.
        let j = choose|j: int|
            0 <= j < store.links@.len() && (#[trigger] store.links@[j]).user_id as int
                == user_id as int && store.links@[j].list_id as int == list_id as int;
        assert(store.spec_has_list(store.links@[j].list_id as int));
    }
    match List::find_complete_list_by_id(list_id, store) {
        Some(complete) => ResponseWithStatus {
            status_code: STATUS_OK,
            response: Response {
                message: MESSAGE_GET_LIST_SUCCESS.to_owned(),
                data: ResponseData::FullList(complete),
            },
        },
        None => {
            proof {
                assert(false);
            }
            ResponseWithStatus::with(STATUS_BAD_REQUEST, MESSAGE_GET_LIST_FAILED)
        },
    }
}

/// Updates the name and description of a list, as long as the requesting
/// user owns it — mutating the list itself takes ownership, not mere
/// access; only its items are open to collaborators. A non-owner learns
/// nothing, not even whether the list exists.
pub fn put_list(list_id: i32, user_id: i32, new_list: ListDTO, store: &mut Store) -> (r:
    ResponseWithStatus)
    requires
        old(store).wf(),
    ensures
        final(store).wf(),
        r.status_code == STATUS_OK <==> old(store).spec_is_owner(
            list_id as int,
            user_id as int,
        ),
        r.status_code != STATUS_OK ==> {
            &&& r.status_code == STATUS_BAD_REQUEST
            &&& *final(store) == *old(store)
            &&& r.response.message@ == MESSAGE_NO_ACCESS@
        },
        r.status_code == STATUS_OK ==> {
            &&& r.response.message@ == MESSAGE_UPDATE_SUCCESS@
            &&& final(store).lists@.len() == old(store).lists@.len()
            &&& exists|k: int|
                {
                    &&& 0 <= k < old(store).lists@.len()
                    &&& (#[trigger] old(store).lists@[k]).list_id == list_id
                    &&& final(store).lists@[k].name@ == new_list.name@
                    &&& final(store).lists@[k].description == new_list.description
                    &&& final(store).lists@[k].date_created == old(store).lists@[k].date_created
                    &&& forall|j: int|
                        0 <= j < old(store).lists@.len() && j != k
                            ==> final(store).lists@[j] == old(store).lists@[j]
                }
            &&& final(store).users@ == old(store).users@
            &&& final(store).items@ == old(store).items@
            &&& final(store).links@ == old(store).links@
            &&& final(store).session_counter == old(store).session_counter
        },
        r.response.data is Empty,
{
    if !UserList::is_list_owner(list_id, user_id, store) {
        return ResponseWithStatus::with(STATUS_BAD_REQUEST, MESSAGE_NO_ACCESS);
    }
    proof {
        let j = choose|j: int|
            0 <= j < store.links@.len() && (#[trigger] store.links@[j]).user_id as int
                == user_id as int && store.links@[j].list_id as int == list_id as int
                && store.links@[j].is_owner;
        assert(store.spec_has_list(store.links@[j].list_id as int));
    }
    if List::update_list(list_id, new_list, store) {
        ResponseWithStatus::with(STATUS_OK, MESSAGE_UPDATE_SUCCESS)
    } else {
        proof {
            assert(false);
        }
        ResponseWithStatus::with(STATUS_BAD_REQUEST, MESSAGE_UPDATE_FAILED)
    }
}

/// Updates an item, as long as the user has access to the named list and
/// the item actually belongs to that list. The two checks are ordered:
/// access first, then the item's list membership, so an id from another
/// list is refused even for a user with access.
pub fn put_item_for_list(
    list_id: i32,
    user_id: i32,
    item_id: i32,
    new_item: ItemDTO,
    store: &mut Store,
) -> (r: ResponseWithStatus)
    requires
        old(store).wf(),
    ensures
        final(store).wf(),
        r.status_code == STATUS_OK <==> (old(store).spec_has_access(list_id as int, user_id as int)
            && old(store).spec_item_in_list(item_id as int, list_id as int)),
        !old(store).spec_has_access(list_id as int, user_id as int) ==> r.response.message@
            == MESSAGE_NO_ACCESS@,
        old(store).spec_has_access(list_id as int, user_id as int) && !old(store).spec_item_in_list(
            item_id as int,
            list_id as int,
        ) ==> r.response.message@ == MESSAGE_ITEM_NOT_OWNED_BY_LIST@,
        r.status_code != STATUS_OK ==> {
            &&& r.status_code == STATUS_BAD_REQUEST
            &&& *final(store) == *old(store)
        },
        r.status_code == STATUS_OK ==> {
            &&& r.response.message@ == MESSAGE_UPDATE_SUCCESS@
            &&& final(store).items@.len() == old(store).items@.len()
            &&& exists|k: int|
                {
                    &&& 0 <= k < old(store).items@.len()
                    &&& (#[trigger] old(store).items@[k]).item_id == item_id
                    &&& final(store).items@[k].item_id == item_id
                    &&& final(store).items@[k].list_id == old(store).items@[k].list_id
                    &&& final(store).items@[k].description@ == new_item.description@
                    &&& final(store).items@[k].finished == new_item.finished
                    &&& forall|j: int|
                        0 <= j < old(store).items@.len() && j != k
                            ==> final(store).items@[j] == old(store).items@[j]
                }
            &&& final(store).users@ == old(store).users@
            &&& final(store).lists@ == old(store).lists@
            &&& final(store).links@ == old(store).links@
            &&& final(store).session_counter == old(store).session_counter
        },
        r.response.data is Empty,
{
    if !UserList::has_list_access(list_id, user_id, store) {
        return ResponseWithStatus::with(STATUS_BAD_REQUEST, MESSAGE_NO_ACCESS);
    }
    if !Item::owned_by_list(item_id, list_id, store) {
        return ResponseWithStatus::with(STATUS_BAD_REQUEST, MESSAGE_ITEM_NOT_OWNED_BY_LIST);
    }
    if Item::update_item(item_id, new_item, store) {
        ResponseWithStatus::with(STATUS_OK, MESSAGE_UPDATE_SUCCESS)
    } else {
        proof {
            assert(false);
        }
        ResponseWithStatus::with(STATUS_BAD_REQUEST, MESSAGE_UPDATE_FAILED)
    }
}

/// Deletes a list, as long as the requesting user owns it — access alone
/// is not enough. The deletion cascades: the list's items and every
/// association referencing it go in the same step. A non-owner learns
/// nothing, not even whether the list exists.
pub fn delete_list(list_id: i32, user_id: i32, store: &mut Store) -> (r: ResponseWithStatus)
    requires
        old(store).wf(),
    ensures
        final(store).wf(),
        r.status_code == STATUS_OK <==> old(store).spec_is_owner(list_id as int, user_id as int),
        r.status_code != STATUS_OK ==> {
            &&& r.status_code == STATUS_BAD_REQUEST
            &&& *final(store) == *old(store)
            &&& r.response.message@ == MESSAGE_DELETE_NOT_OWNER@
        },
        r.status_code == STATUS_OK ==> {
            &&& r.response.message@ == MESSAGE_DELETE_LIST_SUCCESS@
            &&& !final(store).spec_has_list(list_id as int)
            &&& forall|l: List|
                final(store).lists@.contains(l) <==> (old(store).lists@.contains(l) && l.list_id
                    != list_id)
            &&& forall|it: Item|
                final(store).items@.contains(it) <==> (old(store).items@.contains(it)
                    && it.list_id != list_id)
            &&& forall|l: UserList|
                final(store).links@.contains(l) <==> (old(store).links@.contains(l) && l.list_id
                    != list_id)
            &&& forall|uid: int| !final(store).spec_has_access(list_id as int, uid)
            &&& final(store).users@ == old(store).users@
            &&& final(store).session_counter == old(store).session_counter
        },
        r.response.data is Empty,
{
    if UserList::is_list_owner(list_id, user_id, store) {
        List::delete_list(list_id, store);
        ResponseWithStatus::with(STATUS_OK, MESSAGE_DELETE_LIST_SUCCESS)
    } else {
        ResponseWithStatus::with(STATUS_BAD_REQUEST, MESSAGE_DELETE_NOT_OWNER)
    }
}

/// Adds an item to a list, as long as the user has access to it. Fails,
/// writing nothing, without access, and when the item id space is
/// exhausted.
pub fn add_item_to_list(list_id: i32, user_id: i32, item: ItemDTO, store: &mut Store) -> (r:
    ResponseWithStatus)
    requires
        old(store).wf(),
    ensures
        final(store).wf(),
        r.status_code == STATUS_OK <==> (old(store).spec_has_access(list_id as int, user_id as int)
            && old(store).next_item_id < i32::MAX),
        !old(store).spec_has_access(list_id as int, user_id as int) ==> r.response.message@
            == MESSAGE_NO_ACCESS@,
        old(store).spec_has_access(list_id as int, user_id as int) && old(store).next_item_id
            == i32::MAX ==> r.response.message@ == MESSAGE_CREATE_ITEM_FAILED@,
        r.status_code != STATUS_OK ==> {
            &&& r.status_code == STATUS_BAD_REQUEST
            &&& *final(store) == *old(store)
        },
        r.status_code == STATUS_OK ==> {
            &&& r.response.message@ == MESSAGE_CREATE_ITEM_SUCCESS@
            &&& final(store).items@.len() == old(store).items@.len() + 1
            &&& final(store).items@.subrange(0, old(store).items@.len() as int) == old(
                store,
            ).items@
            &&& final(store).items@.last().list_id == list_id
            &&& final(store).items@.last().description@ == item.description@
            &&& final(store).items@.last().finished == item.finished
            &&& final(store).users@ == old(store).users@
            &&& final(store).lists@ == old(store).lists@
            &&& final(store).links@ == old(store).links@
            &&& final(store).session_counter == old(store).session_counter
        },
        r.response.data is Empty,
{
    if !UserList::has_list_access(list_id, user_id, store) {
        return ResponseWithStatus::with(STATUS_BAD_REQUEST, MESSAGE_NO_ACCESS);
    }
    proof {
        let j = choose|j: int|
            0 <= j < store.links@.len() && (#[trigger] store.links@[j]).user_id as int
                == user_id as int && store.links@[j].list_id as int == list_id as int;
        assert(store.spec_has_list(store.links@[j].list_id as int));
    }
    if Item::create_item_for_list(item, list_id, store) {
        ResponseWithStatus::with(STATUS_OK, MESSAGE_CREATE_ITEM_SUCCESS)
    } else {
        ResponseWithStatus::with(STATUS_BAD_REQUEST, MESSAGE_CREATE_ITEM_FAILED)
    }
}

/// Deletes an item, as long as the user has access to the named list and
/// the item actually belongs to that list. The checks are ordered: access
/// first, then the item's list membership — so access to one list never
/// reaches an item of another, whatever ids are supplied.
pub fn delete_item(list_id: i32, user_id: i32, item_id: i32, store: &mut Store) -> (r:
    ResponseWithStatus)
    requires
        old(store).wf(),
    ensures
        final(store).wf(),
        r.status_code == STATUS_OK <==> (old(store).spec_has_access(list_id as int, user_id as int)
            && old(store).spec_item_in_list(item_id as int, list_id as int)),
        !old(store).spec_has_access(list_id as int, user_id as int) ==> r.response.message@
            == MESSAGE_NO_ACCESS@,
        old(store).spec_has_access(list_id as int, user_id as int) && !old(store).spec_item_in_list(
            item_id as int,
            list_id as int,
        ) ==> r.response.message@ == MESSAGE_ITEM_NOT_OWNED_BY_LIST@,
        r.status_code != STATUS_OK ==> {
            &&& r.status_code == STATUS_BAD_REQUEST
            &&& *final(store) == *old(store)
        },
        r.status_code == STATUS_OK ==> {
            &&& r.response.message@ == MESSAGE_DELETE_ITEM_SUCCESS@
            &&& !final(store).spec_item_in_list(item_id as int, list_id as int)
            &&& exists|k: int|
                {
                    &&& 0 <= k < old(store).items@.len()
                    &&& (#[trigger] old(store).items@[k]).item_id == item_id
                    &&& final(store).items@ == old(store).items@.remove(k)
                }
            &&& final(store).users@ == old(store).users@
            &&& final(store).lists@ == old(store).lists@
            &&& final(store).links@ == old(store).links@
            &&& final(store).session_counter == old(store).session_counter
        },
        r.response.data is Empty,
{
    if !UserList::has_list_access(list_id, user_id, store) {
        return ResponseWithStatus::with(STATUS_BAD_REQUEST, MESSAGE_NO_ACCESS);
    }
    if !Item::owned_by_list(item_id, list_id, store) {
        return ResponseWithStatus::with(STATUS_BAD_REQUEST, MESSAGE_ITEM_NOT_OWNED_BY_LIST);
    }
    if Item::delete_item(item_id, store) {
        ResponseWithStatus::with(STATUS_OK, MESSAGE_DELETE_ITEM_SUCCESS)
    } else {
        proof {
            assert(false);
        }
        ResponseWithStatus::with(STATUS_BAD_REQUEST, MESSAGE_ITEM_NOT_OWNED_BY_LIST)
    }
}

} // verus!
