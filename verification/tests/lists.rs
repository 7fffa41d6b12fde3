use listkeeper::account_service;
use listkeeper::constants::{
    MESSAGE_CREATE_ITEM_SUCCESS, MESSAGE_CREATE_LIST_SUCCESS, MESSAGE_DELETE_ITEM_SUCCESS,
    MESSAGE_DELETE_LIST_SUCCESS, MESSAGE_DELETE_NOT_OWNER, MESSAGE_ITEM_NOT_OWNED_BY_LIST,
    MESSAGE_NO_ACCESS, STATUS_BAD_REQUEST, STATUS_OK,
};
use listkeeper::gate::verify_and_authenticate;
use listkeeper::items::ItemDTO;
use listkeeper::list_service;
use listkeeper::lists::ListDTO;
use listkeeper::response::ResponseData;
use listkeeper::store::{Item, List, Store, User, UserList};
use listkeeper::user_lists::LinkError;
use listkeeper::users::{LoginDTO, UserDTO};

fn secret() -> Vec<u8> {
    b"list-tests-signing-key".to_vec()
}

fn signup_user(store: &mut Store, username: &str, email: &str, password: &str) -> i32 {
    let ok = User::signup(
        UserDTO {
            username: username.to_string(),
            email: email.to_string(),
            preferred_name: username.to_string(),
            password: password.to_string(),
        },
        store,
    );
    assert!(ok);
    User::find_user_by_username(username, store)
        .expect("user was just created")
        .id
}

fn create_list_for(store: &mut Store, username: &str, name: &str) -> i32 {
    let r = list_service::create_list(
        ListDTO {
            name: name.to_string(),
            description: None,
        },
        username.to_string(),
        20_000,
        store,
    );
    assert_eq!(r.status_code, STATUS_OK);
    assert_eq!(r.response.message, MESSAGE_CREATE_LIST_SUCCESS);
    store.lists.last().expect("list was just created").list_id
}

#[test]
fn creator_owns_created_list() {
    let mut store = Store::new();
    signup_user(&mut store, "ursula", "u@x.com", "pw");
    let uid = signup_user(&mut store, "victor", "v@x.com", "pw");
    let list = create_list_for(&mut store, "ursula", "chores");
    let owner_id = User::find_user_by_username("ursula", &store).unwrap().id;

    assert!(UserList::is_list_owner(list, owner_id, &store));
    assert!(UserList::has_list_access(list, owner_id, &store));
    // A user with no link neither owns nor reaches the list.
    assert!(!UserList::is_list_owner(list, uid, &store));
    assert!(!UserList::has_list_access(list, uid, &store));
}

#[test]
fn create_list_unknown_user_fails() {
    let mut store = Store::new();
    let r = list_service::create_list(
        ListDTO {
            name: "x".to_string(),
            description: None,
        },
        "ghost".to_string(),
        1,
        &mut store,
    );
    assert_eq!(r.status_code, STATUS_BAD_REQUEST);
    assert_eq!(store.lists.len(), 0);
    assert_eq!(store.links.len(), 0);
}

#[test]
fn double_link_rejected() {
    let mut store = Store::new();
    let uid = signup_user(&mut store, "ursula", "u@x.com", "pw");
    let list_id = create_list_for(&mut store, "ursula", "chores");
    let list = List::find_list_by_id(list_id, &store).unwrap();
    let user = User::find_user_by_id(uid, &store).unwrap();
    let r = UserList::associate_list(list, user, false, &mut store);
    assert!(matches!(r, Err(LinkError::AlreadyLinked)));
}

#[test]
fn collaborator_can_edit_but_not_delete() {
    let mut store = Store::new();
    signup_user(&mut store, "owner", "o@x.com", "pw");
    let collaborator_id = signup_user(&mut store, "helper", "h@x.com", "pw");
    let list_id = create_list_for(&mut store, "owner", "shared");

    let list = List::find_list_by_id(list_id, &store).unwrap();
    let helper = User::find_user_by_id(collaborator_id, &store).unwrap();
    UserList::associate_list(list, helper, false, &mut store).expect("fresh link");

    // Access without ownership: items may be added...
    let r = list_service::add_item_to_list(
        list_id,
        collaborator_id,
        ItemDTO {
            description: "sweep".to_string(),
            finished: false,
        },
        &mut store,
    );
    assert_eq!(r.status_code, STATUS_OK);
    assert_eq!(r.response.message, MESSAGE_CREATE_ITEM_SUCCESS);

    // ...but the list itself may be neither updated...
    let r = list_service::put_list(
        list_id,
        collaborator_id,
        ListDTO {
            name: "hijacked".to_string(),
            description: None,
        },
        &mut store,
    );
    assert_eq!(r.status_code, STATUS_BAD_REQUEST);
    assert_eq!(r.response.message, MESSAGE_NO_ACCESS);
    assert_eq!(List::find_list_by_id(list_id, &store).unwrap().name, "shared");

    // ...nor deleted.
    let r = list_service::delete_list(list_id, collaborator_id, &mut store);
    assert_eq!(r.status_code, STATUS_BAD_REQUEST);
    assert_eq!(r.response.message, MESSAGE_DELETE_NOT_OWNER);
    assert!(List::find_list_by_id(list_id, &store).is_some());
}

#[test]
fn no_access_blocks_reads_and_writes() {
    let mut store = Store::new();
    signup_user(&mut store, "owner", "o@x.com", "pw");
    let stranger = signup_user(&mut store, "stranger", "s@x.com", "pw");
    let list_id = create_list_for(&mut store, "owner", "private");

    let r = list_service::get_list(list_id, stranger, &store);
    assert_eq!(r.status_code, STATUS_BAD_REQUEST);
    assert_eq!(r.response.message, MESSAGE_NO_ACCESS);

    let r = list_service::add_item_to_list(
        list_id,
        stranger,
        ItemDTO {
            description: "spam".to_string(),
            finished: false,
        },
        &mut store,
    );
    assert_eq!(r.status_code, STATUS_BAD_REQUEST);
    assert_eq!(r.response.message, MESSAGE_NO_ACCESS);
    assert_eq!(store.items.len(), 0);
}

#[test]
fn cross_list_isolation() {
    let mut store = Store::new();
    let u = signup_user(&mut store, "ursula", "u@x.com", "pw");
    signup_user(&mut store, "victor", "v@x.com", "pw");
    let list_a = create_list_for(&mut store, "ursula", "a");
    let list_b = create_list_for(&mut store, "victor", "b");

    let v = User::find_user_by_username("victor", &store).unwrap().id;
    let r = list_service::add_item_to_list(
        list_b,
        v,
        ItemDTO {
            description: "victor's item".to_string(),
            finished: false,
        },
        &mut store,
    );
    assert_eq!(r.status_code, STATUS_OK);
    let item_id = store.items.last().unwrap().item_id;

    // Ursula has access to list A, but supplying A's id cannot reach an
    // item that belongs to list B.
    let r = list_service::delete_item(list_a, u, item_id, &mut store);
    assert_eq!(r.status_code, STATUS_BAD_REQUEST);
    assert_eq!(r.response.message, MESSAGE_ITEM_NOT_OWNED_BY_LIST);
    assert!(Item::owned_by_list(item_id, list_b, &store));

    // Through its own list, its owner deletes it fine.
    let r = list_service::delete_item(list_b, v, item_id, &mut store);
    assert_eq!(r.status_code, STATUS_OK);
    assert_eq!(r.response.message, MESSAGE_DELETE_ITEM_SUCCESS);
    assert!(!Item::owned_by_list(item_id, list_b, &store));
}

#[test]
fn cascade_on_delete() {
    let mut store = Store::new();
    let owner = signup_user(&mut store, "owner", "o@x.com", "pw");
    let helper = signup_user(&mut store, "helper", "h@x.com", "pw");
    let doomed = create_list_for(&mut store, "owner", "doomed");
    let kept = create_list_for(&mut store, "owner", "kept");

    let list = List::find_list_by_id(doomed, &store).unwrap();
    let helper_user = User::find_user_by_id(helper, &store).unwrap();
    UserList::associate_list(list, helper_user, false, &mut store).expect("fresh link");

    for description in ["one", "two", "three"] {
        let r = list_service::add_item_to_list(
            doomed,
            owner,
            ItemDTO {
                description: description.to_string(),
                finished: false,
            },
            &mut store,
        );
        assert_eq!(r.status_code, STATUS_OK);
    }
    let r = list_service::add_item_to_list(
        kept,
        owner,
        ItemDTO {
            description: "survivor".to_string(),
            finished: true,
        },
        &mut store,
    );
    assert_eq!(r.status_code, STATUS_OK);

    let r = list_service::delete_list(doomed, owner, &mut store);
    assert_eq!(r.status_code, STATUS_OK);
    assert_eq!(r.response.message, MESSAGE_DELETE_LIST_SUCCESS);

    // The row, all of its items and all of its associations are gone...
    assert!(List::find_list_by_id(doomed, &store).is_none());
    assert!(store.items.iter().all(|it| it.list_id != doomed));
    assert!(store.links.iter().all(|l| l.list_id != doomed));
    // ...no previously linked user can read it any more...
    for uid in [owner, helper] {
        let r = list_service::get_list(doomed, uid, &store);
        assert_eq!(r.status_code, STATUS_BAD_REQUEST);
        assert_eq!(r.response.message, MESSAGE_NO_ACCESS);
    }
    // ...and the other list is untouched.
    assert!(List::find_list_by_id(kept, &store).is_some());
    let survivors = Item::find_items_for_list(kept, &store);
    assert_eq!(survivors.len(), 1);
    assert_eq!(survivors[0].description, "survivor");
}

#[test]
fn lists_for_user_follow_links() {
    let mut store = Store::new();
    let u = signup_user(&mut store, "ursula", "u@x.com", "pw");
    let v = signup_user(&mut store, "victor", "v@x.com", "pw");
    let a = create_list_for(&mut store, "ursula", "a");
    let b = create_list_for(&mut store, "victor", "b");
    create_list_for(&mut store, "victor", "c");

    let r = list_service::get_lists_for_user(u, &store);
    match r.response.data {
        ResponseData::Lists(ls) => {
            assert_eq!(ls.len(), 1);
            assert_eq!(ls[0].list_id, a);
            assert_eq!(ls[0].name, "a");
        }
        _ => panic!("expected a list payload"),
    }

    let r = list_service::get_lists_for_user(v, &store);
    match r.response.data {
        ResponseData::Lists(ls) => {
            assert_eq!(ls.len(), 2);
            assert_eq!(ls[0].list_id, b);
        }
        _ => panic!("expected a list payload"),
    }
}

#[test]
fn item_updates_apply() {
    let mut store = Store::new();
    let u = signup_user(&mut store, "ursula", "u@x.com", "pw");
    let list = create_list_for(&mut store, "ursula", "todo");
    let r = list_service::add_item_to_list(
        list,
        u,
        ItemDTO {
            description: "milk".to_string(),
            finished: false,
        },
        &mut store,
    );
    assert_eq!(r.status_code, STATUS_OK);
    let item_id = store.items.last().unwrap().item_id;

    let r = list_service::put_item_for_list(
        list,
        u,
        item_id,
        ItemDTO {
            description: "oat milk".to_string(),
            finished: true,
        },
        &mut store,
    );
    assert_eq!(r.status_code, STATUS_OK);
    let items = Item::find_items_for_list(list, &store);
    assert_eq!(items.len(), 1);
    assert_eq!(items[0].description, "oat milk");
    assert!(items[0].finished);
}

#[test]
fn list_update_applies() {
    let mut store = Store::new();
    let u = signup_user(&mut store, "ursula", "u@x.com", "pw");
    let list = create_list_for(&mut store, "ursula", "old name");
    let r = list_service::put_list(
        list,
        u,
        ListDTO {
            name: "new name".to_string(),
            description: Some("fresh".to_string()),
        },
        &mut store,
    );
    assert_eq!(r.status_code, STATUS_OK);
    let row = List::find_list_by_id(list, &store).unwrap();
    assert_eq!(row.name, "new name");
    assert_eq!(row.description, Some("fresh".to_string()));
}

#[test]
fn end_to_end_scenario() {
    let mut store = Store::new();
    let now: u64 = 1_700_000_000;

    // Signup and login as alice.
    let r = account_service::signup(
        UserDTO {
            username: "alice".to_string(),
            email: "alice@x.com".to_string(),
            preferred_name: "Alice".to_string(),
            password: "pw1".to_string(),
        },
        &mut store,
    );
    assert_eq!(r.status_code, STATUS_OK);
    let r = account_service::login(
        LoginDTO {
            username_or_email: "alice".to_string(),
            password: "pw1".to_string(),
        },
        now,
        &secret(),
        &mut store,
    );
    assert_eq!(r.status_code, STATUS_OK);
    let token = match r.response.data {
        ResponseData::Token(t) => t,
        _ => panic!("expected a token payload"),
    };

    // Each request presents the bearer token for authentication.
    let header = format!("Bearer {token}");
    let identity =
        verify_and_authenticate(&header, &secret(), now + 1, &store).expect("token is live");
    assert_eq!(identity.username, "alice");

    // Create the list; alice is its owner.
    let r = list_service::create_list(
        ListDTO {
            name: "groceries".to_string(),
            description: None,
        },
        identity.username.clone(),
        20_000,
        &mut store,
    );
    assert_eq!(r.status_code, STATUS_OK);
    let list_id = store.lists.last().unwrap().list_id;
    assert!(UserList::is_list_owner(list_id, identity.id, &store));

    // Add an item.
    let identity =
        verify_and_authenticate(&header, &secret(), now + 2, &store).expect("token is live");
    let r = list_service::add_item_to_list(
        list_id,
        identity.id,
        ItemDTO {
            description: "milk".to_string(),
            finished: false,
        },
        &mut store,
    );
    assert_eq!(r.status_code, STATUS_OK);
    let r = list_service::get_list(list_id, identity.id, &store);
    assert_eq!(r.status_code, STATUS_OK);
    match r.response.data {
        ResponseData::FullList(lw) => {
            assert_eq!(lw.name, "groceries");
            assert_eq!(lw.items.len(), 1);
            assert_eq!(lw.items[0].description, "milk");
        }
        _ => panic!("expected a full list payload"),
    }

    // Delete the list; reading it afterwards is refused.
    let r = list_service::delete_list(list_id, identity.id, &mut store);
    assert_eq!(r.status_code, STATUS_OK);
    let r = list_service::get_list(list_id, identity.id, &store);
    assert_eq!(r.status_code, STATUS_BAD_REQUEST);
    assert_eq!(r.response.message, MESSAGE_NO_ACCESS);
}

#[test]
fn link_row_delete_and_unlink_all() {
    let mut store = Store::new();
    signup_user(&mut store, "ursula", "u@x.com", "pw");
    let victor = signup_user(&mut store, "victor", "v@x.com", "pw");
    let list_id = create_list_for(&mut store, "ursula", "shared");
    let ursula = User::find_user_by_username("ursula", &store).unwrap().id;

    let list = List::find_list_by_id(list_id, &store).unwrap();
    let victor_user = User::find_user_by_id(victor, &store).unwrap();
    UserList::associate_list(list, victor_user, false, &mut store).expect("fresh link");
    let victor_link = store.links.last().unwrap().id;

    // Deleting victor's association row takes his access and nobody else's.
    assert!(UserList::delete_user_list(victor_link, &mut store));
    assert!(!UserList::has_list_access(list_id, victor, &store));
    assert!(UserList::has_list_access(list_id, ursula, &store));
    // Deleting an absent row is still reported as a success.
    assert!(UserList::delete_user_list(victor_link, &mut store));

    // Unlinking the whole list takes everyone's access.
    UserList::unlink_all_for_list(list_id, &mut store);
    assert!(!UserList::has_list_access(list_id, ursula, &store));
    assert!(store.links.is_empty());
}

#[test]
fn updates_matching_no_row_change_nothing() {
    let mut store = Store::new();
    let u = signup_user(&mut store, "ursula", "u@x.com", "pw");
    let list = create_list_for(&mut store, "ursula", "todo");
    let r = list_service::add_item_to_list(
        list,
        u,
        ItemDTO {
            description: "milk".to_string(),
            finished: false,
        },
        &mut store,
    );
    assert_eq!(r.status_code, STATUS_OK);

    // An update or delete by an id no row carries follows the storage
    // convention: success, nothing touched.
    assert!(Item::update_item(
        999,
        ItemDTO {
            description: "ghost".to_string(),
            finished: true,
        },
        &mut store,
    ));
    assert!(Item::delete_item(999, &mut store));
    let items = Item::find_items_for_list(list, &store);
    assert_eq!(items.len(), 1);
    assert_eq!(items[0].description, "milk");
    assert!(List::update_list(
        999,
        ListDTO {
            name: "ghost".to_string(),
            description: None,
        },
        &mut store,
    ));
    assert!(List::find_list_by_id(999, &store).is_none());
}
